use reactive_state::animation::{
    compute_intent, Directive, DirectiveEngine, Intent, MotionSignals,
};

fn signals(
    grounded: bool,
    jump_active: bool,
    vertical_velocity: i64,
    input_magnitude: u64,
) -> MotionSignals {
    MotionSignals { grounded, jump_active, vertical_velocity, input_magnitude }
}

#[test]
fn intent_covers_every_signal_shape() {
    assert_eq!(compute_intent(&signals(true, true, 0, 0)), Intent::Jumping);
    assert_eq!(compute_intent(&signals(false, false, 4, 0)), Intent::Jumping);
    assert_eq!(compute_intent(&signals(false, false, -4, 7)), Intent::Falling);
    assert_eq!(compute_intent(&signals(false, false, 0, 0)), Intent::Falling);
    assert_eq!(
        compute_intent(&signals(true, false, 0, 9)),
        Intent::Moving { speed: 9 }
    );
    assert_eq!(compute_intent(&signals(true, false, 0, 0)), Intent::Idle);
}

#[test]
fn stable_intent_yields_maintain() {
    let mut engine = DirectiveEngine::new(Intent::Idle);
    assert_eq!(engine.update(Intent::Idle), Directive::Maintain);
    assert_eq!(engine.update(Intent::Idle), Directive::Maintain);
    assert_eq!(engine.retained(), Intent::Idle);
}

#[test]
fn each_change_yields_one_alter() {
    let mut engine = DirectiveEngine::new(Intent::Idle);
    let directives = vec![
        engine.update(Intent::Idle),
        engine.update(Intent::Moving { speed: 5 }),
        engine.update(Intent::Idle),
    ];
    assert_eq!(
        directives,
        vec![
            Directive::Maintain,
            Directive::Alter {
                previous: Intent::Idle,
                next: Intent::Moving { speed: 5 },
            },
            Directive::Alter {
                previous: Intent::Moving { speed: 5 },
                next: Intent::Idle,
            },
        ]
    );
}

#[test]
fn payload_differences_do_not_alter() {
    let mut engine = DirectiveEngine::new(Intent::Moving { speed: 3 });
    assert_eq!(engine.update(Intent::Moving { speed: 8 }), Directive::Maintain);
    assert_eq!(engine.retained(), Intent::Moving { speed: 3 });
}

#[test]
fn alter_commits_before_returning() {
    let mut engine = DirectiveEngine::new(Intent::Idle);
    let d = engine.update(Intent::Falling);
    assert_eq!(
        d,
        Directive::Alter { previous: Intent::Idle, next: Intent::Falling }
    );
    assert_eq!(engine.retained(), Intent::Falling);
    assert_eq!(engine.update(Intent::Falling), Directive::Maintain);
}
