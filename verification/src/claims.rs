//! Claim sets: which producers currently assert one boolean condition.

use vstd::prelude::*;

verus! {

/// Opaque, stable token identifying one logical producer.
///
/// Two calls from the same producer carry equal tokens; calls from
/// different producers carry unequal tokens. The registry never
/// interprets the token beyond comparing it for equality.
#[derive(Clone, Copy, PartialEq, Eq, Structural, Debug, Hash)]
pub struct ClaimantId(pub u64);

/// Whether at least one claimant is in the set.
pub open spec fn occupied(s: Set<ClaimantId>) -> bool {
    exists|a: ClaimantId| s.contains(a)
}

/// The set of claimant identities currently asserting one condition.
///
/// Insertion is idempotent and removal of an absent claimant is a no-op,
/// so uncoordinated producers may assert and retract defensively without
/// knowing about each other.
pub struct ClaimSet {
    members: Vec<ClaimantId>,
}

impl View for ClaimSet {
    type V = Set<ClaimantId>;

    closed spec fn view(&self) -> Set<ClaimantId> {
        Set::new(|a: ClaimantId| self.members@.contains(a))
    }
}

impl ClaimSet {
    /// The members vector holds each claimant at most once.
    pub closed spec fn wf(&self) -> bool {
        forall|i: int, j: int|
            0 <= i < j < self.members@.len() ==> self.members@[i] != self.members@[j]
    }

    /// An empty claim set: nobody asserts the condition yet.
    pub fn new() -> (r: ClaimSet)
        ensures
            r.wf(),
            r@ == Set::<ClaimantId>::empty(),
    {
        let r = ClaimSet { members: Vec::new() };
        proof {
            assert(r@ =~= Set::<ClaimantId>::empty());
        }
        r
    }

    /// Whether `a` currently asserts the condition.
    pub fn contains(&self, a: ClaimantId) -> (r: bool)
        ensures
            r == self@.contains(a),
    {
        let mut i: usize = 0;
        while i < self.members.len()
            invariant
                0 <= i <= self.members@.len(),
                forall|j: int| 0 <= j < i ==> self.members@[j] != a,
            decreases self.members@.len() - i,
        {
            if self.members[i] == a {
                proof {
                    assert(self.members@.contains(a)) by {
                        assert(self.members@[i as int] == a);
                    }
                }
                return true;
            }
            i += 1;
        }
        proof {
            assert(!self.members@.contains(a));
        }
        false
    }

    /// Whether no claimant asserts the condition.
    pub fn is_empty(&self) -> (r: bool)
        ensures
            r == !occupied(self@),
    {
        let r = self.members.len() == 0;
        proof {
            if self.members@.len() > 0 {
                assert(self.members@.contains(self.members@[0]));
                assert(self@.contains(self.members@[0]));
            } else {
                assert(forall|a: ClaimantId| !self.members@.contains(a));
            }
        }
        r
    }

    /// Adds `a` to the set; asserting twice has no additional effect.
    pub fn insert(&mut self, a: ClaimantId)
        requires
            old(self).wf(),
        ensures
            final(self).wf(),
            final(self)@ == old(self)@.insert(a),
    {
        if !self.contains(a) {
            let ghost before = self.members@;
            self.members.push(a);
            proof {
                assert forall|x: ClaimantId| self@.contains(x) <==> old(self)@.insert(a).contains(x) by {
                    if self.members@.contains(x) {
                        let k = choose|k: int| 0 <= k < self.members@.len() && self.members@[k] == x;
                        if k < before.len() {
                            assert(before[k] == x);
                            assert(before.contains(x));
                        } else {
                            assert(x == a);
                        }
                    }
                    if before.contains(x) {
                        let k = choose|k: int| 0 <= k < before.len() && before[k] == x;
                        assert(self.members@[k] == x);
                        assert(self.members@.contains(x));
                    }
                    if x == a {
                        assert(self.members@[before.len() as int] == a);
                        assert(self.members@.contains(a));
                    }
                }
                assert(self@ =~= old(self)@.insert(a));
            }
        } else {
            proof {
                assert(self@ =~= old(self)@.insert(a));
            }
        }
    }

    /// Removes `a` from the set; a no-op when `a` never asserted.
    pub fn remove(&mut self, a: ClaimantId)
        requires
            old(self).wf(),
        ensures
            final(self).wf(),
            final(self)@ == old(self)@.remove(a),
    {
        let ghost before = self.members@;
        let mut i: usize = 0;
        while i < self.members.len()
            invariant
                0 <= i <= self.members@.len(),
                self.members@ == before,
                old(self).wf(),
                old(self).members@ == before,
                forall|j: int| 0 <= j < i ==> self.members@[j] != a,
            decreases self.members@.len() - i,
        {
            if self.members[i] == a {
                self.members.remove(i);
                proof {
                    lemma_remove_one(before, i as int, self.members@, a);
                    assert(self@ =~= old(self)@.remove(a));
                }
                return;
            }
            i += 1;
        }
        proof {
            assert(!before.contains(a));
            assert(self@ =~= old(self)@.remove(a));
        }
    }
}

/// Removing the one index holding `a` from a duplicate-free vector
/// removes exactly `a` from the abstract set.
proof fn lemma_remove_one(before: Seq<ClaimantId>, i: int, after: Seq<ClaimantId>, a: ClaimantId)
    requires
        forall|k: int, l: int| 0 <= k < l < before.len() ==> before[k] != before[l],
        0 <= i < before.len(),
        before[i] == a,
        after == before.remove(i),
    ensures
        forall|x: ClaimantId| after.contains(x) <==> (before.contains(x) && x != a),
        forall|k: int, l: int| 0 <= k < l < after.len() ==> after[k] != after[l],
{
    assert forall|x: ClaimantId| after.contains(x) <==> (before.contains(x) && x != a) by {
        if after.contains(x) {
            let k = choose|k: int| 0 <= k < after.len() && after[k] == x;
            if k < i {
                assert(before[k] == x);
                assert(x != a);
                assert(before.contains(x));
            } else {
                assert(before[k + 1] == x);
                assert(x != a);
                assert(before.contains(x));
            }
        }
        if before.contains(x) && x != a {
            let k = choose|k: int| 0 <= k < before.len() && before[k] == x;
            if k < i {
                assert(after[k] == x);
                assert(after.contains(x));
            } else {
                assert(k > i);
                assert(after[k - 1] == x);
                assert(after.contains(x));
            }
        }
    }
    assert forall|k: int, l: int| 0 <= k < l < after.len() implies after[k] != after[l] by {
        let bk: int = if k < i { k } else { k + 1 };
        let bl: int = if l < i { l } else { l + 1 };
        assert(after[k] == before[bk]);
        assert(after[l] == before[bl]);
    }
}

} // verus!
