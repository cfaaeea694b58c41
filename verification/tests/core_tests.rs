use hotload::cache::ResultCache;
use hotload::fingerprint::Fingerprint;
use hotload::outcome::EvalError;
use hotload::outcome::FailureKind;
use hotload::outcome::MiriReturn;
use hotload::resolver::resolve_backend;
use hotload::resolver::EnvSnapshot;
use hotload::toolchain::needs_install;
use hotload::toolchain::parse_version_output;
use hotload::transform::fixup_code;

fn empty_env() -> EnvSnapshot {
    EnvSnapshot {
        override_root: None,
        install_home: None,
        alt_install_home: None,
        active_toolchain: None,
        alt_active_toolchain: None,
        baked_root: None,
    }
}

#[test]
fn transform_wraps_single_line() {
    let unit = fixup_code(String::from("let x = 1 + 1;"));
    assert_eq!(unit, "fn main() {\r\n\tlet x = 1 + 1;\r\n}");
}

#[test]
fn transform_joins_lines_with_crlf() {
    let unit = fixup_code(String::from("let a = 1;\nlet b = 2;"));
    assert_eq!(unit, "fn main() {\r\n\tlet a = 1;\r\n\tlet b = 2;\r\n}");
}

#[test]
fn transform_accepts_crlf_input() {
    let unit = fixup_code(String::from("let a = 1;\r\nlet b = 2;"));
    assert_eq!(unit, "fn main() {\r\n\tlet a = 1;\r\n\tlet b = 2;\r\n}");
}

#[test]
fn transform_empty_snippet() {
    let unit = fixup_code(String::new());
    assert_eq!(unit, "fn main() {\r\n\r\n}");
}

#[test]
fn transform_trailing_newline_adds_no_line() {
    let unit = fixup_code(String::from("let a = 1;\n"));
    assert_eq!(unit, "fn main() {\r\n\tlet a = 1;\r\n}");
}

#[test]
fn transform_keeps_empty_lines() {
    let unit = fixup_code(String::from("a\n\nb"));
    assert_eq!(unit, "fn main() {\r\n\ta\r\n\t\r\n\tb\r\n}");
}

#[test]
fn transform_is_deterministic() {
    let first = fixup_code(String::from("let y = 2;\ny"));
    let second = fixup_code(String::from("let y = 2;\ny"));
    assert_eq!(first, second);
}

#[test]
fn fingerprints_of_distinct_content_differ() {
    let a = Fingerprint::new(String::from("let x = 1;"), true);
    let b = Fingerprint::new(String::from("let x = 2;"), true);
    assert!(!a.matches(&b));
}

#[test]
fn fingerprints_of_same_content_and_mode_match() {
    let a = Fingerprint::new(String::from("let x = 1;"), true);
    let b = Fingerprint::new(String::from("let x = 1;"), true);
    assert!(a.matches(&b));
}

#[test]
fn fingerprints_of_different_strictness_differ() {
    let a = Fingerprint::new(String::from("let x = 1;"), true);
    let b = Fingerprint::new(String::from("let x = 1;"), false);
    assert!(!a.matches(&b));
}

fn xorshift(state: &mut u64) -> u64 {
    *state ^= *state << 13;
    *state ^= *state >> 7;
    *state ^= *state << 17;
    *state
}

#[test]
fn fingerprints_of_randomized_text_never_falsely_collide() {
    let mut state: u64 = 0x9E37_79B9_7F4A_7C15;
    let mut texts: Vec<String> = Vec::new();
    for _ in 0..100 {
        let len = (xorshift(&mut state) % 16) as usize;
        let text: String = (0..len)
            .map(|_| (b'a' + (xorshift(&mut state) % 26) as u8) as char)
            .collect();
        texts.push(text);
    }
    for a in &texts {
        for b in &texts {
            let fa = Fingerprint::new(a.clone(), true);
            let fb = Fingerprint::new(b.clone(), true);
            assert_eq!(fa.matches(&fb), a == b);
        }
    }
}

#[test]
fn cache_returns_stored_outcome() {
    let mut cache = ResultCache::new();
    let fp = Fingerprint::new(String::from("a"), true);
    cache.store(fp, Ok(MiriReturn { value: 7 }));
    let probe = Fingerprint::new(String::from("a"), true);
    match cache.lookup(&probe) {
        Some(Ok(r)) => assert_eq!(r.value, 7),
        _ => panic!("expected the stored outcome"),
    }
}

#[test]
fn cache_miss_on_unknown_fingerprint() {
    let mut cache = ResultCache::new();
    cache.store(Fingerprint::new(String::from("a"), true), Ok(MiriReturn { value: 7 }));
    assert!(cache.lookup(&Fingerprint::new(String::from("b"), true)).is_none());
    assert!(cache.lookup(&Fingerprint::new(String::from("a"), false)).is_none());
}

#[test]
fn cache_is_write_once() {
    let mut cache = ResultCache::new();
    let fp = Fingerprint::new(String::from("a"), true);
    cache.store(fp, Ok(MiriReturn { value: 7 }));
    cache.store(Fingerprint::new(String::from("a"), true), Ok(MiriReturn { value: 9 }));
    match cache.lookup(&Fingerprint::new(String::from("a"), true)) {
        Some(Ok(r)) => assert_eq!(r.value, 7),
        _ => panic!("expected the first outcome to survive"),
    }
}

#[test]
fn resolver_prefers_explicit_override() {
    let mut env = empty_env();
    env.override_root = Some(String::from("/prebuilt"));
    env.install_home = Some(String::from("/home"));
    env.active_toolchain = Some(String::from("nightly"));
    env.baked_root = Some(String::from("/baked"));
    let handle = resolve_backend(&env).expect("override must resolve");
    assert_eq!(handle.root, "/prebuilt");
}

#[test]
fn resolver_joins_home_and_toolchain() {
    let mut env = empty_env();
    env.install_home = Some(String::from("/home/user/.rustup"));
    env.active_toolchain = Some(String::from("nightly"));
    let handle = resolve_backend(&env).expect("convention must resolve");
    assert_eq!(handle.root, "/home/user/.rustup/toolchains/nightly");
}

#[test]
fn resolver_uses_legacy_variables() {
    let mut env = empty_env();
    env.alt_install_home = Some(String::from("/multi"));
    env.alt_active_toolchain = Some(String::from("stable"));
    let handle = resolve_backend(&env).expect("legacy convention must resolve");
    assert_eq!(handle.root, "/multi/toolchains/stable");
}

#[test]
fn resolver_falls_back_to_baked_root() {
    let mut env = empty_env();
    env.install_home = Some(String::from("/home"));
    env.baked_root = Some(String::from("/baked"));
    let handle = resolve_backend(&env).expect("baked root must resolve");
    assert_eq!(handle.root, "/baked");
}

#[test]
fn resolver_reports_unavailable_backend() {
    match resolve_backend(&empty_env()) {
        Err(EvalError::BackendUnavailable(msg)) => assert!(!msg.is_empty()),
        _ => panic!("expected BackendUnavailable"),
    }
}

#[test]
fn resolver_is_deterministic() {
    let mut env = empty_env();
    env.install_home = Some(String::from("/home"));
    env.active_toolchain = Some(String::from("nightly"));
    let first = resolve_backend(&env).expect("must resolve");
    let second = resolve_backend(&env).expect("must resolve");
    assert_eq!(first.root, second.root);
}

#[test]
fn install_needed_without_tool() {
    assert!(needs_install(None));
}

#[test]
fn install_needed_below_minimum_version() {
    assert!(needs_install(Some((0, 3, 12))));
    assert!(needs_install(Some((0, 2, 99))));
}

#[test]
fn install_not_needed_at_or_above_minimum() {
    assert!(!needs_install(Some((0, 3, 13))));
    assert!(!needs_install(Some((0, 4, 0))));
    assert!(!needs_install(Some((1, 0, 0))));
}

#[test]
fn version_banner_parses() {
    let out = "xargo 0.3.12 (b004f1c 2018-12-13)\nsecond line";
    assert_eq!(parse_version_output(out), Some((0, 3, 12)));
}

#[test]
fn version_banner_without_trailer_parses() {
    assert_eq!(parse_version_output("xargo 10.20.30"), Some((10, 20, 30)));
}

#[test]
fn version_banner_with_crlf_parses() {
    assert_eq!(parse_version_output("xargo 0.3.13\r\nrest"), Some((0, 3, 13)));
}

#[test]
fn version_banner_wrong_name_rejected() {
    assert_eq!(parse_version_output("cargo 0.3.12 (abc)"), None);
}

#[test]
fn version_banner_missing_version_rejected() {
    assert_eq!(parse_version_output("xargo"), None);
    assert_eq!(parse_version_output("xargo "), None);
}

#[test]
fn version_banner_short_triple_rejected() {
    assert_eq!(parse_version_output("xargo 0.3"), None);
}

#[test]
fn version_banner_long_triple_rejected() {
    assert_eq!(parse_version_output("xargo 0.3.12.1"), None);
}

#[test]
fn version_banner_non_numeric_rejected() {
    assert_eq!(parse_version_output("xargo a.b.c"), None);
    assert_eq!(parse_version_output("xargo 0..3"), None);
}

#[test]
fn version_banner_overflow_rejected() {
    assert_eq!(parse_version_output("xargo 99999999999999999999.0.0"), None);
}

#[test]
fn failure_kinds_are_distinct() {
    assert_ne!(FailureKind::TimedOut, FailureKind::Cancelled);
    assert_ne!(FailureKind::Aborted, FailureKind::UndefinedBehaviorDetected);
}
