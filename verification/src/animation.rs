//! Animation intent and the directive engine: a continuously recomputed
//! discrete intent is compared against the previously committed one and
//! turned into an edge-triggered transition directive.

use vstd::prelude::*;

verus! {

/// A per-tick snapshot of the physics/controller signals the intent is
/// computed from. Velocities and magnitudes are fixed-point integers in
/// whatever unit the embedding simulation uses; the mapping only compares
/// them against zero.
#[derive(Clone, Copy, PartialEq, Eq, Structural, Debug)]
pub struct MotionSignals {
    /// Whether the character controller currently stands on the ground.
    pub grounded: bool,
    /// Whether the controller is in an active jump phase.
    pub jump_active: bool,
    /// Signed vertical velocity; positive is upward.
    pub vertical_velocity: i64,
    /// Magnitude of the directional movement input, zero when idle.
    pub input_magnitude: u64,
}

/// Which animation should conceptually be playing.
///
/// `Moving` carries the input magnitude that produced it; transition
/// decisions ignore the payload and compare variants only (see
/// [`same_variant`]).
#[derive(Clone, Copy, PartialEq, Eq, Structural, Debug)]
pub enum Intent {
    Idle,
    Moving { speed: u64 },
    Jumping,
    Falling,
}

/// The total mapping from a signal snapshot to one intent:
/// an active jump phase wins, then being airborne (rising counts as
/// jumping, sinking as falling), then directional input, then idle.
pub open spec fn intent_of(s: MotionSignals) -> Intent {
    if s.jump_active {
        Intent::Jumping
    } else if !s.grounded {
        if s.vertical_velocity > 0 {
            Intent::Jumping
        } else {
            Intent::Falling
        }
    } else if s.input_magnitude > 0 {
        (Intent::Moving { speed: s.input_magnitude })
    } else {
        Intent::Idle
    }
}

/// Computes the intent for one snapshot of signals.
///
/// Total over every signal combination: each maps to exactly one intent
/// and the call never fails.
pub fn compute_intent(s: &MotionSignals) -> (r: Intent)
    ensures
        r == intent_of(*s),
{
    if s.jump_active {
        Intent::Jumping
    } else if !s.grounded {
        if s.vertical_velocity > 0 {
            Intent::Jumping
        } else {
            Intent::Falling
        }
    } else if s.input_magnitude > 0 {
        Intent::Moving { speed: s.input_magnitude }
    } else {
        Intent::Idle
    }
}

/// Equality for transition purposes: variant tags only, any payload on
/// either value is ignored.
pub open spec fn same_variant(a: Intent, b: Intent) -> bool {
    match (a, b) {
        (Intent::Idle, Intent::Idle) => true,
        (Intent::Moving { speed: _ }, Intent::Moving { speed: _ }) => true,
        (Intent::Jumping, Intent::Jumping) => true,
        (Intent::Falling, Intent::Falling) => true,
        _ => false,
    }
}

/// Compares two intents by variant tag alone, deliberately not by `==`,
/// which would also compare the payload.
pub fn variants_match(a: &Intent, b: &Intent) -> (r: bool)
    ensures
        r == same_variant(*a, *b),
{
    match (a, b) {
        (Intent::Idle, Intent::Idle) => true,
        (Intent::Moving { speed: _ }, Intent::Moving { speed: _ }) => true,
        (Intent::Jumping, Intent::Jumping) => true,
        (Intent::Falling, Intent::Falling) => true,
        _ => false,
    }
}

/// The engine's per-tick output: either nothing changed, or the intent
/// changed this tick and a cross-fade is owed.
#[derive(Clone, Copy, PartialEq, Eq, Structural, Debug)]
pub enum Directive {
    /// The intent kept its variant; consumers do nothing.
    Maintain,
    /// The intent changed variant this tick.
    Alter { previous: Intent, next: Intent },
}

/// The retained intent after one update: unchanged when the new intent
/// has the same variant, otherwise the new intent.
pub open spec fn step(prev: Intent, intent: Intent) -> Intent {
    if same_variant(prev, intent) {
        prev
    } else {
        intent
    }
}

/// The directive one update returns for retained intent `prev` and newly
/// computed `intent`.
pub open spec fn directive_of(prev: Intent, intent: Intent) -> Directive {
    if same_variant(prev, intent) {
        Directive::Maintain
    } else {
        (Directive::Alter { previous: prev, next: intent })
    }
}

/// Retains the previously committed intent of one entity and converts
/// each newly computed intent into a directive.
pub struct DirectiveEngine {
    retained: Intent,
}

impl DirectiveEngine {
    /// The intent committed most recently (the configured initial intent
    /// before the first `update` that alters it).
    pub closed spec fn retained_spec(&self) -> Intent {
        self.retained
    }

    /// A fresh engine holding the configured initial intent.
    pub fn new(initial: Intent) -> (r: DirectiveEngine)
        ensures
            r.retained_spec() == initial,
    {
        DirectiveEngine { retained: initial }
    }

    /// Reads the currently retained intent.
    pub fn retained(&self) -> (r: Intent)
        ensures
            r == self.retained_spec(),
    {
        self.retained
    }

    /// Compares the freshly computed `intent` against the retained one,
    /// by variant identity only.
    ///
    /// Same variant: returns `Maintain` and mutates nothing, payload
    /// differences included. Different variant: returns `Alter` carrying
    /// the old and the new intent, and commits `intent` before returning,
    /// so the next tick compares against the freshly committed value.
    pub fn update(&mut self, intent: Intent) -> (r: Directive)
        ensures
            final(self).retained_spec() == step(old(self).retained_spec(), intent),
            r == directive_of(old(self).retained_spec(), intent),
    {
        if variants_match(&self.retained, &intent) {
            Directive::Maintain
        } else {
            let previous = self.retained;
            self.retained = intent;
            Directive::Alter { previous, next: intent }
        }
    }
}

/// Law: a stable intent is absorbed. When the computed intent keeps the
/// variant of the retained one, the update yields `Maintain` and leaves
/// the retained intent untouched, so any number of consecutive such
/// updates all yield `Maintain` and start no cross-fade.
pub proof fn lemma_maintain_is_stable(prev: Intent, intent: Intent)
    requires
        same_variant(prev, intent),
    ensures
        directive_of(prev, intent) == Directive::Maintain,
        step(prev, intent) == prev,
        directive_of(step(prev, intent), intent) == Directive::Maintain,
{
}

/// Law: every real change is reported exactly once. When the computed
/// intent changes variant, the update yields `Alter` carrying the old and
/// the new intent and commits the new one, so a sequence of computed
/// intents yields one `Alter` per variant change and `Maintain`
/// everywhere else.
pub proof fn lemma_alter_reports_each_change(prev: Intent, intent: Intent)
    requires
        !same_variant(prev, intent),
    ensures
        directive_of(prev, intent) == (Directive::Alter { previous: prev, next: intent }),
        step(prev, intent) == intent,
{
}

} // verus!
