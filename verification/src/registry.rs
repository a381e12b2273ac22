//! Per-entity claim registry with a precedence-resolved, edge-triggered
//! derived output.

use vstd::prelude::*;

use crate::claims::{occupied, ClaimSet, ClaimantId};

verus! {

/// A named boolean condition tracked by the registry.
///
/// Each condition is an independent axis: producers assert or retract it
/// without coordinating with one another.
#[derive(Clone, Copy, PartialEq, Eq, Structural, Debug)]
pub enum Condition {
    /// Some producer wants the crosshair hidden entirely.
    ForceHidden,
    /// Some producer prefers the alternate (square) crosshair glyph.
    PreferAltIcon,
}

/// Which crosshair glyph the derived state selects.
#[derive(Clone, Copy, PartialEq, Eq, Structural, Debug)]
pub enum IconGlyph {
    Dot,
    Square,
}

/// Whether the crosshair is shown at all.
#[derive(Clone, Copy, PartialEq, Eq, Structural, Debug)]
pub enum IconVisibility {
    Visible,
    Hidden,
}

/// The precedence-resolved output of the registry for one tick.
#[derive(Clone, Copy, PartialEq, Eq, Structural, Debug)]
pub struct DerivedState {
    pub glyph: IconGlyph,
    pub visibility: IconVisibility,
}

/// The fixed precedence cascade over the active conditions:
/// force-hidden (highest) beats prefer-alternate-icon beats the default
/// dot-and-visible state. The result depends only on which conditions are
/// active, never on the order in which they were asserted.
pub open spec fn cascade(force_hidden_active: bool, prefer_alt_active: bool) -> DerivedState {
    DerivedState {
        glyph: if prefer_alt_active {
            IconGlyph::Square
        } else {
            IconGlyph::Dot
        },
        visibility: if force_hidden_active {
            IconVisibility::Hidden
        } else {
            IconVisibility::Visible
        },
    }
}

/// The derived state of a registry when nothing is asserted.
pub open spec fn default_derived() -> DerivedState {
    cascade(false, false)
}

/// Per-entity store of conditions, each backed by the set of claimant
/// identities currently asserting it.
///
/// The registry also keeps the derived value of the previous tick so that
/// [`ClaimRegistry::derive`] can fire a change notification exactly when
/// the derived value differs from it (edge-triggered, not level-triggered).
pub struct ClaimRegistry {
    force_hidden: ClaimSet,
    prefer_alt_icon: ClaimSet,
    last_derived: DerivedState,
}

impl ClaimRegistry {
    /// Both claim sets hold each claimant at most once.
    pub closed spec fn wf(&self) -> bool {
        self.force_hidden.wf() && self.prefer_alt_icon.wf()
    }

    /// The set of claimants currently asserting `c`.
    pub closed spec fn claims(&self, c: Condition) -> Set<ClaimantId> {
        match c {
            Condition::ForceHidden => self.force_hidden@,
            Condition::PreferAltIcon => self.prefer_alt_icon@,
        }
    }

    /// Whether `c` is active: at least one claimant asserts it.
    pub open spec fn active(&self, c: Condition) -> bool {
        occupied(self.claims(c))
    }

    /// The precedence-resolved derived state of the current claims.
    pub open spec fn derived(&self) -> DerivedState {
        cascade(self.active(Condition::ForceHidden), self.active(Condition::PreferAltIcon))
    }

    /// The derived value recorded by the most recent [`ClaimRegistry::derive`]
    /// call (the configured default before the first one).
    pub closed spec fn prior(&self) -> DerivedState {
        self.last_derived
    }

    /// A fresh registry: no condition has any claimant, and the recorded
    /// prior derived value is the default.
    pub fn new() -> (r: ClaimRegistry)
        ensures
            r.wf(),
            forall|c: Condition| r.claims(c) == Set::<ClaimantId>::empty(),
            r.prior() == default_derived(),
    {
        ClaimRegistry {
            force_hidden: ClaimSet::new(),
            prefer_alt_icon: ClaimSet::new(),
            last_derived: DerivedState { glyph: IconGlyph::Dot, visibility: IconVisibility::Visible },
        }
    }

    /// Adds `who` to the set of claimants asserting `c`.
    ///
    /// Always succeeds; asserting the same claimant twice has no
    /// additional effect, and no other condition or bookkeeping changes.
    pub fn assert_claim(&mut self, c: Condition, who: ClaimantId)
        requires
            old(self).wf(),
        ensures
            final(self).wf(),
            final(self).claims(c) == old(self).claims(c).insert(who),
            forall|d: Condition| d != c ==> final(self).claims(d) == old(self).claims(d),
            final(self).prior() == old(self).prior(),
    {
        match c {
            Condition::ForceHidden => self.force_hidden.insert(who),
            Condition::PreferAltIcon => self.prefer_alt_icon.insert(who),
        }
    }

    /// Removes `who` from the set of claimants asserting `c`.
    ///
    /// A no-op, never an error, when `who` does not currently assert `c`:
    /// producers may retract defensively without having asserted.
    pub fn retract_claim(&mut self, c: Condition, who: ClaimantId)
        requires
            old(self).wf(),
        ensures
            final(self).wf(),
            final(self).claims(c) == old(self).claims(c).remove(who),
            forall|d: Condition| d != c ==> final(self).claims(d) == old(self).claims(d),
            final(self).prior() == old(self).prior(),
    {
        match c {
            Condition::ForceHidden => self.force_hidden.remove(who),
            Condition::PreferAltIcon => self.prefer_alt_icon.remove(who),
        }
    }

    /// Mirrors a producer's boolean signal into its claim: asserts `c`
    /// for `who` when `active` holds, retracts it otherwise.
    ///
    /// This is the shape every polling producer uses each tick, so both
    /// directions are idempotent and never an error.
    pub fn set_claim(&mut self, c: Condition, who: ClaimantId, active: bool)
        requires
            old(self).wf(),
        ensures
            final(self).wf(),
            final(self).claims(c) == (if active {
                old(self).claims(c).insert(who)
            } else {
                old(self).claims(c).remove(who)
            }),
            forall|d: Condition| d != c ==> final(self).claims(d) == old(self).claims(d),
            final(self).prior() == old(self).prior(),
    {
        if active {
            self.assert_claim(c, who);
        } else {
            self.retract_claim(c, who);
        }
    }

    /// Whether `c` is active: its claim set is non-empty.
    pub fn is_active(&self, c: Condition) -> (r: bool)
        ensures
            r == self.active(c),
    {
        match c {
            Condition::ForceHidden => !self.force_hidden.is_empty(),
            Condition::PreferAltIcon => !self.prefer_alt_icon.is_empty(),
        }
    }

    /// The precedence-resolved derived state of the current claims,
    /// without touching the edge-trigger bookkeeping.
    pub fn derived_value(&self) -> (r: DerivedState)
        ensures
            r == self.derived(),
    {
        DerivedState {
            glyph: if self.prefer_alt_icon.is_empty() {
                IconGlyph::Dot
            } else {
                IconGlyph::Square
            },
            visibility: if self.force_hidden.is_empty() {
                IconVisibility::Visible
            } else {
                IconVisibility::Hidden
            },
        }
    }

    /// Applies the precedence cascade over all tracked conditions and
    /// records the result.
    ///
    /// Returns the change notification owed to consumers this tick:
    /// `Some(new)` exactly when the derived value differs from the one the
    /// previous `derive` call recorded, `None` otherwise. The claims
    /// themselves are never changed by deriving.
    pub fn derive(&mut self) -> (r: Option<DerivedState>)
        requires
            old(self).wf(),
        ensures
            final(self).wf(),
            forall|c: Condition| final(self).claims(c) == old(self).claims(c),
            final(self).prior() == old(self).derived(),
            r == (if old(self).derived() != old(self).prior() {
                Some(old(self).derived())
            } else {
                None::<DerivedState>
            }),
    {
        let current = self.derived_value();
        let changed = current != self.last_derived;
        self.last_derived = current;
        if changed {
            Some(current)
        } else {
            None
        }
    }
}

/// Law: asserting the same claimant on the same condition twice leaves
/// the claim set — and hence whether the condition is active — exactly as
/// one assertion does.
pub proof fn lemma_assert_idempotent(s: Set<ClaimantId>, a: ClaimantId)
    ensures
        s.insert(a).insert(a) == s.insert(a),
        occupied(s.insert(a).insert(a)) == occupied(s.insert(a)),
{
    assert(s.insert(a).insert(a) =~= s.insert(a));
}

/// Law: retracting a claimant that never asserted the condition leaves
/// the claim set unchanged.
pub proof fn lemma_defensive_retract(s: Set<ClaimantId>, a: ClaimantId)
    requires
        !s.contains(a),
    ensures
        s.remove(a) == s,
{
    assert(s.remove(a) =~= s);
}

/// Law: with claimants `a != b` both asserting a condition that nobody
/// else asserts, retracting `a` leaves the condition active (for `b`
/// still holds it), and then retracting `b` deactivates it.
pub proof fn lemma_multi_producer_overlap(a: ClaimantId, b: ClaimantId)
    requires
        a != b,
    ensures
        occupied(Set::<ClaimantId>::empty().insert(a).insert(b).remove(a)),
        !occupied(Set::<ClaimantId>::empty().insert(a).insert(b).remove(a).remove(b)),
{
    let two = Set::<ClaimantId>::empty().insert(a).insert(b);
    assert(two.remove(a).contains(b));
    assert(two.remove(a).remove(b) =~= Set::<ClaimantId>::empty());
    assert(forall|x: ClaimantId| !two.remove(a).remove(b).contains(x));
}

/// Law: whenever the force-hidden condition is active, the derived state
/// reports the crosshair hidden, whatever the other conditions say and in
/// whatever order the claims were asserted.
pub proof fn lemma_force_hidden_wins(r: ClaimRegistry)
    requires
        r.active(Condition::ForceHidden),
    ensures
        r.derived().visibility == IconVisibility::Hidden,
{
}

/// Law: the derived state depends only on which conditions are active,
/// so any interleaving or ordering of assertions that activates the same
/// conditions derives the same value.
pub proof fn lemma_derived_depends_only_on_activity(r1: ClaimRegistry, r2: ClaimRegistry)
    requires
        forall|c: Condition| r1.active(c) == r2.active(c),
    ensures
        r1.derived() == r2.derived(),
{
    assert(r1.active(Condition::ForceHidden) == r2.active(Condition::ForceHidden));
    assert(r1.active(Condition::PreferAltIcon) == r2.active(Condition::PreferAltIcon));
}

/// Law: deriving is edge-triggered. `before` is a registry as some
/// `derive` call found it and `after` the state that call left behind:
/// the claims untouched and the prior value set to the derived one. As
/// long as the claims then stay as they are, `after` derives a value
/// equal to its recorded prior, so by the contract of
/// [`ClaimRegistry::derive`] the next call returns `None`: repeated
/// deriving without a claim change never notifies twice.
pub proof fn lemma_derive_edge_triggered(before: ClaimRegistry, after: ClaimRegistry)
    requires
        forall|c: Condition| after.claims(c) == before.claims(c),
        after.prior() == before.derived(),
    ensures
        after.derived() == after.prior(),
{
    assert(forall|c: Condition| after.active(c) == before.active(c));
    lemma_derived_depends_only_on_activity(after, before);
}

} // verus!
