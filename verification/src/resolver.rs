//! Backend resolution: locating the execution backend's installation root
//! from an environment snapshot.
//!
//! Resolution is a pure function of the snapshot, checked in order, first
//! hit wins: an explicit override naming a pre-built backend root; the
//! installation-tool convention of an installation root joined with an
//! active toolchain name; a compile-time-baked default root. If none
//! resolves, resolution fails with remediation guidance.

use vstd::prelude::*;

use crate::outcome::EvalError;
use crate::outcome::EvalErrorView;

verus! {

/// A resolved reference to the execution backend: the installation root
/// the evaluator hands to the backend invocation.
pub struct BackendHandle {
    pub root: String,
}

impl View for BackendHandle {
    type V = Seq<char>;

    open spec fn view(&self) -> Seq<char> {
        self.root@
    }
}

/// Everything backend resolution may read, captured as explicit values so
/// that resolution never touches ambient global state.
pub struct EnvSnapshot {
    /// An explicit override naming a pre-built backend root.
    pub override_root: Option<String>,
    /// The installation tool's root directory.
    pub install_home: Option<String>,
    /// The legacy installation tool's root directory.
    pub alt_install_home: Option<String>,
    /// The name of the active toolchain.
    pub active_toolchain: Option<String>,
    /// The name of the active toolchain under the legacy tool.
    pub alt_active_toolchain: Option<String>,
    /// A default root baked in at build time.
    pub baked_root: Option<String>,
}

/// The mathematical image of an optional string.
pub open spec fn opt_str_view(o: &Option<String>) -> Option<Seq<char>> {
    match o {
        Some(s) => Some(s@),
        None => None,
    }
}

/// Mathematical image of an [`EnvSnapshot`].
pub struct EnvView {
    pub override_root: Option<Seq<char>>,
    pub install_home: Option<Seq<char>>,
    pub alt_install_home: Option<Seq<char>>,
    pub active_toolchain: Option<Seq<char>>,
    pub alt_active_toolchain: Option<Seq<char>>,
    pub baked_root: Option<Seq<char>>,
}

impl View for EnvSnapshot {
    type V = EnvView;

    open spec fn view(&self) -> EnvView {
        EnvView {
            override_root: opt_str_view(&self.override_root),
            install_home: opt_str_view(&self.install_home),
            alt_install_home: opt_str_view(&self.alt_install_home),
            active_toolchain: opt_str_view(&self.active_toolchain),
            alt_active_toolchain: opt_str_view(&self.alt_active_toolchain),
            baked_root: opt_str_view(&self.baked_root),
        }
    }
}

/// The installation root used by the toolchain convention: the primary
/// tool's root if set, else the legacy tool's.
pub open spec fn home_of(e: EnvView) -> Option<Seq<char>> {
    if e.install_home is Some {
        e.install_home
    } else {
        e.alt_install_home
    }
}

/// The active toolchain name: the primary tool's if set, else the legacy
/// tool's.
pub open spec fn toolchain_of(e: EnvView) -> Option<Seq<char>> {
    if e.active_toolchain is Some {
        e.active_toolchain
    } else {
        e.alt_active_toolchain
    }
}

/// The backend root a snapshot resolves to, if any: the explicit override
/// first; else, when both an installation root and a toolchain name are
/// present, `<root>/toolchains/<name>`; else the baked default.
pub open spec fn resolved_root(e: EnvView) -> Option<Seq<char>> {
    if e.override_root is Some {
        e.override_root
    } else if home_of(e) is Some && toolchain_of(e) is Some {
        Some(home_of(e).unwrap() + "/toolchains/"@ + toolchain_of(e).unwrap())
    } else {
        e.baked_root
    }
}

/// The remediation guidance reported when no backend root resolves.
pub open spec fn unavailable_guidance() -> Seq<char> {
    "could not find a backend root: set the backend root override at run-time, bake a default root in at build-time, or install a toolchain manager"@
}

/// Resolve the execution backend from an environment snapshot.
/// Succeeds exactly when the snapshot resolves to a root, and then returns
/// a handle on that root; otherwise reports `BackendUnavailable` with
/// remediation guidance.
pub fn resolve_backend(env: &EnvSnapshot) -> (r: Result<BackendHandle, EvalError>)
    ensures
        match r {
            Ok(h) => resolved_root(env@) == Some(h.root@),
            Err(e) => resolved_root(env@) is None && e@ == EvalErrorView::BackendUnavailable(
                unavailable_guidance(),
            ),
        },
{
    if let Some(r) = &env.override_root {
        return Ok(BackendHandle { root: r.clone() });
    }
    let home: &Option<String> = if env.install_home.is_some() {
        &env.install_home
    } else {
        &env.alt_install_home
    };
    let toolchain: &Option<String> = if env.active_toolchain.is_some() {
        &env.active_toolchain
    } else {
        &env.alt_active_toolchain
    };
    if let Some(h) = home {
        if let Some(t) = toolchain {
            let mut root = h.clone();
            root.append("/toolchains/");
            root.append(t.as_str());
            return Ok(BackendHandle { root });
        }
    }
    if let Some(b) = &env.baked_root {
        return Ok(BackendHandle { root: b.clone() });
    }
    Err(
        EvalError::BackendUnavailable(
            String::from_str(
                "could not find a backend root: set the backend root override at run-time, bake a default root in at build-time, or install a toolchain manager",
            ),
        ),
    )
}

/// Law: backend resolution is deterministic. The resolved root is a pure
/// function of the environment snapshot, so two resolutions over the same
/// snapshot yield the same handle.
pub proof fn lemma_resolution_deterministic(e1: EnvView, e2: EnvView)
    requires
        e1 == e2,
    ensures
        resolved_root(e1) == resolved_root(e2),
{
}

} // verus!
