//! Skill identifiers and the sparse mapping from skill to trained level.
//! A skill that is absent from the mapping is at the lowest tier by
//! convention, so looking one up never fails.

use vstd::prelude::*;
use crate::dice::SkillLevel;

verus! {

/// A skill identifier.
#[derive(Clone, Copy, Debug, PartialEq, Eq, Hash, Structural)]
pub enum Skill {
    Climbing,
    Swimming,
    Digging,
    Fighting,
    Notice,
}

/// A sparse skill-to-level mapping. Each skill is stored at most once; a
/// skill with no entry is at the lowest tier.
#[derive(Clone, Debug)]
pub struct Skills {
    entries: Vec<(Skill, SkillLevel)>,
}

impl Skills {
    /// Well-formedness: no skill is stored twice.
    pub closed spec fn wf(self) -> bool {
        forall|i: int, j: int|
            0 <= i < j < self.entries@.len() ==> (#[trigger] self.entries@[i]).0 != (
            #[trigger] self.entries@[j]).0
    }

    /// Whether the skill has an explicit entry.
    pub closed spec fn spec_contains(self, s: Skill) -> bool {
        exists|i: int| 0 <= i < self.entries@.len() && (#[trigger] self.entries@[i]).0 == s
    }

    /// The trained level, or the lowest tier when the skill is absent.
    pub closed spec fn spec_get(self, s: Skill) -> SkillLevel {
        if self.spec_contains(s) {
            let i = choose|i: int|
                0 <= i < self.entries@.len() && (#[trigger] self.entries@[i]).0 == s;
            self.entries@[i].1
        } else {
            SkillLevel::D4_2
        }
    }

    /// The entry at a given index fixes what the whole mapping answers for
    /// that key, because keys are unique.
    proof fn lemma_entry_determines_get(self, i: int)
        requires
            self.wf(),
            0 <= i < self.entries@.len(),
        ensures
            self.spec_contains(self.entries@[i].0),
            self.spec_get(self.entries@[i].0) == self.entries@[i].1,
    {
        let key = self.entries@[i].0;
        assert(self.spec_contains(key));
        let k = choose|k: int|
            0 <= k < self.entries@.len() && (#[trigger] self.entries@[k]).0 == key;
        if k < i {
            assert(self.entries@[k].0 != self.entries@[i].0);
        } else if i < k {
            assert(self.entries@[i].0 != self.entries@[k].0);
        }
    }

    /// An empty mapping: every skill is at the lowest tier.
    pub fn new() -> (r: Skills)
        ensures
            r.wf(),
            forall|s: Skill| !r.spec_contains(s),
            forall|s: Skill| r.spec_get(s) == SkillLevel::D4_2,
    {
        Skills { entries: Vec::new() }
    }

    /// Looks the skill up; an absent skill answers the lowest tier.
    pub fn get(&self, s: Skill) -> (r: SkillLevel)
        requires
            self.wf(),
        ensures
            r == self.spec_get(s),
    {
        let n = self.entries.len();
        let mut i: usize = 0;
        while i < n
            invariant
                self.wf(),
                n == self.entries@.len(),
                i <= n,
                forall|j: int| 0 <= j < i ==> (#[trigger] self.entries@[j]).0 != s,
            decreases n - i,
        {
            if self.entries[i].0 == s {
                proof {
                    self.lemma_entry_determines_get(i as int);
                }
                return self.entries[i].1;
            }
            i = i + 1;
        }
        SkillLevel::D4_2
    }

    /// Sets the skill's level, inserting or overwriting its entry; every
    /// other skill keeps its answer.
    pub fn insert(&mut self, s: Skill, level: SkillLevel)
        requires
            old(self).wf(),
        ensures
            final(self).wf(),
            final(self).spec_contains(s),
            final(self).spec_get(s) == level,
            forall|t: Skill| t != s ==> final(self).spec_contains(t) == old(self).spec_contains(t),
            forall|t: Skill| t != s ==> final(self).spec_get(t) == old(self).spec_get(t),
    {
        let n = self.entries.len();
        let mut i: usize = 0;
        while i < n
            invariant
                old(self).wf(),
                self.entries@ == old(self).entries@,
                n == self.entries@.len(),
                i <= n,
                forall|j: int| 0 <= j < i ==> (#[trigger] self.entries@[j]).0 != s,
            decreases n - i,
        {
            if self.entries[i].0 == s {
                self.entries.set(i, (s, level));
                proof {
                    assert forall|j: int|
                        0 <= j < self.entries@.len() implies (#[trigger] self.entries@[j]).0 == old(
                        self,
                    ).entries@[j].0 by {}
                    assert(self.wf());
                    self.lemma_entry_determines_get(i as int);
                    assert forall|t: Skill|
                        t != s implies self.spec_contains(t) == old(self).spec_contains(t)
                        && self.spec_get(t) == old(self).spec_get(t) by {
                        self.lemma_same_answers(*old(self), t, i as int);
                    }
                }
                return ;
            }
            i = i + 1;
        }
        self.entries.push((s, level));
        proof {
            assert(self.entries@ == old(self).entries@.push((s, level)));
            assert forall|a: int, b: int|
                0 <= a < b < self.entries@.len() implies (#[trigger] self.entries@[a]).0 != (
            #[trigger] self.entries@[b]).0 by {
                if b == self.entries@.len() - 1 {
                    assert(self.entries@[a] == old(self).entries@[a]);
                } else {
                    assert(self.entries@[a] == old(self).entries@[a]);
                    assert(self.entries@[b] == old(self).entries@[b]);
                }
            }
            self.lemma_entry_determines_get(self.entries@.len() - 1);
            assert forall|t: Skill|
                t != s implies self.spec_contains(t) == old(self).spec_contains(t)
                && self.spec_get(t) == old(self).spec_get(t) by {
                self.lemma_same_answers_after_push(*old(self), t);
            }
        }
    }

    /// Two well-formed mappings whose entries agree everywhere except for
    /// one key answer alike for every other key.
    proof fn lemma_same_answers(self, other: Skills, t: Skill, i: int)
        requires
            self.wf(),
            other.wf(),
            self.entries@.len() == other.entries@.len(),
            0 <= i < self.entries@.len(),
            forall|j: int|
                0 <= j < self.entries@.len() && j != i ==> self.entries@[j] == other.entries@[j],
            t != self.entries@[i].0,
            t != other.entries@[i].0,
        ensures
            self.spec_contains(t) == other.spec_contains(t),
            self.spec_get(t) == other.spec_get(t),
    {
        if self.spec_contains(t) {
            let k = choose|k: int|
                0 <= k < self.entries@.len() && (#[trigger] self.entries@[k]).0 == t;
            assert(k != i);
            assert(other.entries@[k].0 == t);
            assert(other.spec_contains(t));
            other.lemma_entry_determines_get(k);
            self.lemma_entry_determines_get(k);
        }
        if other.spec_contains(t) {
            let k = choose|k: int|
                0 <= k < other.entries@.len() && (#[trigger] other.entries@[k]).0 == t;
            assert(k != i);
            assert(self.entries@[k].0 == t);
            assert(self.spec_contains(t));
        }
    }

    /// Extending a mapping by one new key leaves every other key's answer
    /// unchanged.
    proof fn lemma_same_answers_after_push(self, other: Skills, t: Skill)
        requires
            self.wf(),
            other.wf(),
            self.entries@.len() == other.entries@.len() + 1,
            forall|j: int| 0 <= j < other.entries@.len() ==> self.entries@[j] == other.entries@[j],
            t != self.entries@[self.entries@.len() - 1].0,
        ensures
            self.spec_contains(t) == other.spec_contains(t),
            self.spec_get(t) == other.spec_get(t),
    {
        if self.spec_contains(t) {
            let k = choose|k: int|
                0 <= k < self.entries@.len() && (#[trigger] self.entries@[k]).0 == t;
            assert(k != self.entries@.len() - 1);
            assert(other.entries@[k].0 == t);
            assert(other.spec_contains(t));
            other.lemma_entry_determines_get(k);
            self.lemma_entry_determines_get(k);
        }
        if other.spec_contains(t) {
            let k = choose|k: int|
                0 <= k < other.entries@.len() && (#[trigger] other.entries@[k]).0 == t;
            assert(self.entries@[k].0 == t);
            assert(self.spec_contains(t));
        }
    }

    /// How many skills have an explicit entry.
    pub closed spec fn spec_len(self) -> nat {
        self.entries@.len()
    }

    /// How many skills are explicitly trained.
    pub fn len(&self) -> (r: usize)
        ensures
            r == self.spec_len(),
    {
        self.entries.len()
    }
}

} // verus!
