//! Content-addressed identity of one evaluation.
//!
//! A fingerprint is derived from the raw snippet content together with the
//! strictness flag, the one execution-mode flag that affects the outcome.
//! It carries that content exactly, so distinct snippets can never collide
//! on a cache key, and it is stable across process runs.

use vstd::prelude::*;

verus! {

/// The cache key of one evaluation: the snippet's content plus the
/// strictness flag under which it is evaluated.
pub struct Fingerprint {
    content: String,
    strict: bool,
}

/// The mathematical key a fingerprint stands for.
pub open spec fn fingerprint_key(content: Seq<char>, strict: bool) -> (Seq<char>, bool) {
    (content, strict)
}

impl View for Fingerprint {
    type V = (Seq<char>, bool);

    closed spec fn view(&self) -> (Seq<char>, bool) {
        fingerprint_key(self.content@, self.strict)
    }
}

impl Fingerprint {
    /// Derive the fingerprint of a snippet evaluated under `strict`.
    pub fn new(content: String, strict: bool) -> (r: Fingerprint)
        ensures
            r@ == fingerprint_key(content@, strict),
    {
        Fingerprint { content, strict }
    }

    /// An owned copy with the same key.
    pub fn dup(&self) -> (r: Fingerprint)
        ensures
            r@ == self@,
    {
        Fingerprint { content: self.content.clone(), strict: self.strict }
    }

    /// Whether two fingerprints are the same key.
    pub fn matches(&self, other: &Fingerprint) -> (r: bool)
        ensures
            r == (self@ == other@),
    {
        self.strict == other.strict && self.content.eq(&other.content)
    }
}

/// Law: fingerprints are free of false collisions. Snippets whose content
/// differs have different fingerprints, whatever strictness each is
/// evaluated under.
pub proof fn lemma_distinct_content_distinct_fingerprint(
    s1: Seq<char>,
    s2: Seq<char>,
    strict1: bool,
    strict2: bool,
)
    requires
        s1 != s2,
    ensures
        fingerprint_key(s1, strict1) != fingerprint_key(s2, strict2),
{
}

} // verus!
