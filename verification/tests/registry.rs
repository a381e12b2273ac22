use reactive_state::claims::ClaimantId;
use reactive_state::registry::{
    ClaimRegistry, Condition, DerivedState, IconGlyph, IconVisibility,
};

fn derived(glyph: IconGlyph, visibility: IconVisibility) -> DerivedState {
    DerivedState { glyph, visibility }
}

#[test]
fn assert_is_idempotent() {
    let mut once = ClaimRegistry::new();
    once.assert_claim(Condition::PreferAltIcon, ClaimantId(1));

    let mut twice = ClaimRegistry::new();
    twice.assert_claim(Condition::PreferAltIcon, ClaimantId(1));
    twice.assert_claim(Condition::PreferAltIcon, ClaimantId(1));

    assert_eq!(
        once.is_active(Condition::PreferAltIcon),
        twice.is_active(Condition::PreferAltIcon)
    );
    assert!(twice.is_active(Condition::PreferAltIcon));
    assert_eq!(once.derive(), twice.derive());
}

#[test]
fn defensive_retract_is_a_no_op() {
    let mut r = ClaimRegistry::new();
    r.retract_claim(Condition::ForceHidden, ClaimantId(1));
    assert!(!r.is_active(Condition::ForceHidden));
    assert!(!r.is_active(Condition::PreferAltIcon));
    assert_eq!(r.derive(), None);

    let mut held = ClaimRegistry::new();
    held.assert_claim(Condition::ForceHidden, ClaimantId(2));
    held.retract_claim(Condition::ForceHidden, ClaimantId(1));
    assert!(held.is_active(Condition::ForceHidden));
}

#[test]
fn overlapping_producers_hold_the_condition() {
    let mut r = ClaimRegistry::new();
    r.assert_claim(Condition::PreferAltIcon, ClaimantId(1));
    r.assert_claim(Condition::PreferAltIcon, ClaimantId(2));
    r.retract_claim(Condition::PreferAltIcon, ClaimantId(1));
    assert!(r.is_active(Condition::PreferAltIcon));
    r.retract_claim(Condition::PreferAltIcon, ClaimantId(2));
    assert!(!r.is_active(Condition::PreferAltIcon));
}

#[test]
fn notifications_are_edge_triggered() {
    let mut r = ClaimRegistry::new();
    let mut notifications = Vec::new();

    r.assert_claim(Condition::PreferAltIcon, ClaimantId(1));
    notifications.extend(r.derive());
    r.assert_claim(Condition::PreferAltIcon, ClaimantId(2));
    notifications.extend(r.derive());
    r.retract_claim(Condition::PreferAltIcon, ClaimantId(1));
    notifications.extend(r.derive());
    r.retract_claim(Condition::PreferAltIcon, ClaimantId(2));
    notifications.extend(r.derive());

    assert_eq!(
        notifications,
        vec![
            derived(IconGlyph::Square, IconVisibility::Visible),
            derived(IconGlyph::Dot, IconVisibility::Visible),
        ]
    );
}

#[test]
fn force_hidden_wins_in_either_order() {
    let mut first = ClaimRegistry::new();
    first.assert_claim(Condition::ForceHidden, ClaimantId(1));
    first.assert_claim(Condition::PreferAltIcon, ClaimantId(2));
    assert_eq!(
        first.derived_value(),
        derived(IconGlyph::Square, IconVisibility::Hidden)
    );
    assert_eq!(
        first.derive(),
        Some(derived(IconGlyph::Square, IconVisibility::Hidden))
    );

    let mut second = ClaimRegistry::new();
    second.assert_claim(Condition::PreferAltIcon, ClaimantId(2));
    second.assert_claim(Condition::ForceHidden, ClaimantId(1));
    assert_eq!(
        second.derive(),
        Some(derived(IconGlyph::Square, IconVisibility::Hidden))
    );
}

#[test]
fn fresh_registry_owes_no_notification() {
    let mut r = ClaimRegistry::new();
    assert_eq!(r.derive(), None);
    assert_eq!(r.derive(), None);
}
