//! The result cache: a write-once map from fingerprint to outcome.
//!
//! For a fixed fingerprint the cache never holds more than one outcome, and
//! once stored an outcome is never mutated: a later store under the same
//! fingerprint leaves the first outcome in place.

use vstd::prelude::*;

use crate::fingerprint::Fingerprint;
use crate::outcome::outcome_view;
use crate::outcome::EvaluationOutcome;
use crate::outcome::OutcomeView;

verus! {

/// The map an entry sequence stands for.
pub open spec fn entries_map(s: Seq<(Fingerprint, EvaluationOutcome)>) -> Map<
    (Seq<char>, bool),
    OutcomeView,
>
    decreases s.len(),
{
    if s.len() == 0 {
        Map::empty()
    } else {
        entries_map(s.drop_last()).insert(s.last().0@, outcome_view(&s.last().1))
    }
}

/// No two entries share a fingerprint.
pub open spec fn unique_keys(s: Seq<(Fingerprint, EvaluationOutcome)>) -> bool {
    forall|i: int, j: int| 0 <= i < j < s.len() ==> s[i].0@ != s[j].0@
}

/// An entry holds the value the map gives its key.
proof fn lemma_entry_in_map(s: Seq<(Fingerprint, EvaluationOutcome)>, i: int)
    requires
        unique_keys(s),
        0 <= i < s.len(),
    ensures
        entries_map(s).contains_key(s[i].0@),
        entries_map(s)[s[i].0@] == outcome_view(&s[i].1),
    decreases s.len(),
{
    if i == s.len() - 1 {
    } else {
        assert(s.drop_last()[i] == s[i]);
        lemma_entry_in_map(s.drop_last(), i);
        assert(s[i].0@ != s.last().0@);
    }
}

/// A key held by no entry is absent from the map.
proof fn lemma_absent_key(s: Seq<(Fingerprint, EvaluationOutcome)>, k: (Seq<char>, bool))
    requires
        forall|i: int| 0 <= i < s.len() ==> s[i].0@ != k,
    ensures
        !entries_map(s).contains_key(k),
    decreases s.len(),
{
    if s.len() > 0 {
        assert(forall|i: int| 0 <= i < s.drop_last().len() ==> s.drop_last()[i].0@ != k);
        lemma_absent_key(s.drop_last(), k);
    }
}

/// Maps a content-addressed fingerprint to the outcome it produced.
pub struct ResultCache {
    entries: Vec<(Fingerprint, EvaluationOutcome)>,
}

impl View for ResultCache {
    type V = Map<(Seq<char>, bool), OutcomeView>;

    closed spec fn view(&self) -> Map<(Seq<char>, bool), OutcomeView> {
        entries_map(self.entries@)
    }
}

impl ResultCache {
    /// The cache never holds two outcomes for one fingerprint.
    pub closed spec fn wf(&self) -> bool {
        unique_keys(self.entries@)
    }

    /// An empty cache.
    pub fn new() -> (r: ResultCache)
        ensures
            r.wf(),
            r@ == Map::<(Seq<char>, bool), OutcomeView>::empty(),
    {
        let r = ResultCache { entries: Vec::new() };
        proof {
            assert(r@ =~= Map::<(Seq<char>, bool), OutcomeView>::empty());
        }
        r
    }

    /// Look a fingerprint up: the stored outcome if one exists, else `None`.
    pub fn lookup(&self, fp: &Fingerprint) -> (r: Option<&EvaluationOutcome>)
        requires
            self.wf(),
        ensures
            match r {
                Some(o) => self@.contains_key(fp@) && outcome_view(o) == self@[fp@],
                None => !self@.contains_key(fp@),
            },
    {
        let n = self.entries.len();
        let mut i: usize = 0;
        while i < n
            invariant
                self.wf(),
                i <= n,
                n == self.entries@.len(),
                forall|k: int| 0 <= k < i ==> self.entries@[k].0@ != fp@,
            decreases n - i,
        {
            if self.entries[i].0.matches(fp) {
                proof {
                    lemma_entry_in_map(self.entries@, i as int);
                }
                return Some(&self.entries[i].1);
            }
            i = i + 1;
        }
        proof {
            lemma_absent_key(self.entries@, fp@);
        }
        None
    }

    /// Store an outcome under a fingerprint, write-once: if the fingerprint
    /// already holds an outcome, the cache is unchanged.
    pub fn store(&mut self, fp: Fingerprint, o: EvaluationOutcome)
        requires
            old(self).wf(),
        ensures
            final(self).wf(),
            final(self)@ == if old(self)@.contains_key(fp@) {
                old(self)@
            } else {
                old(self)@.insert(fp@, outcome_view(&o))
            },
    {
        let n = self.entries.len();
        let mut i: usize = 0;
        while i < n
            invariant
                self == old(self),
                self.wf(),
                i <= n,
                n == self.entries@.len(),
                forall|k: int| 0 <= k < i ==> self.entries@[k].0@ != fp@,
            decreases n - i,
        {
            if self.entries[i].0.matches(&fp) {
                proof {
                    lemma_entry_in_map(self.entries@, i as int);
                }
                return ;
            }
            i = i + 1;
        }
        proof {
            lemma_absent_key(self.entries@, fp@);
        }
        let ghost before = self.entries@;
        self.entries.push((fp, o));
        proof {
            assert(self.entries@.drop_last() =~= before);
            assert(final(self)@ =~= old(self)@.insert(fp@, outcome_view(&o)));
        }
    }
}

} // verus!
