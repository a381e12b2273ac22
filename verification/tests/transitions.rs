use reactive_state::animation::{Directive, Intent};
use reactive_state::transitions::{
    intent_kind, react, ConfigError, CrossFade, IntentKind, LoopPolicy, TransitionConfig,
    TransitionParams,
};

fn params(blend_millis: u64, policy: LoopPolicy) -> TransitionParams {
    TransitionParams { blend_millis, policy }
}

fn full_config() -> TransitionConfig {
    let mut config = TransitionConfig::new();
    config.set(IntentKind::Idle, params(200, LoopPolicy::Repeat));
    config.set(IntentKind::Moving, params(150, LoopPolicy::Repeat));
    config.set(IntentKind::Jumping, params(80, LoopPolicy::Once));
    config.set(IntentKind::Falling, params(120, LoopPolicy::Once));
    config
}

#[test]
fn complete_config_validates() {
    assert_eq!(full_config().validate(), Ok(()));
}

#[test]
fn missing_entry_fails_validation() {
    let mut config = TransitionConfig::new();
    config.set(IntentKind::Idle, params(200, LoopPolicy::Repeat));
    config.set(IntentKind::Moving, params(150, LoopPolicy::Repeat));
    config.set(IntentKind::Falling, params(120, LoopPolicy::Once));
    assert_eq!(
        config.validate(),
        Err(ConfigError { missing: IntentKind::Jumping })
    );
}

#[test]
fn empty_config_reports_first_missing_kind() {
    assert_eq!(
        TransitionConfig::new().validate(),
        Err(ConfigError { missing: IntentKind::Idle })
    );
}

#[test]
fn set_replaces_an_earlier_entry() {
    let mut config = full_config();
    config.set(IntentKind::Idle, params(40, LoopPolicy::Once));
    assert_eq!(config.validate(), Ok(()));
    assert_eq!(config.lookup(IntentKind::Idle), params(40, LoopPolicy::Once));
    assert_eq!(config.lookup(IntentKind::Moving), params(150, LoopPolicy::Repeat));
}

#[test]
fn lookup_returns_the_configured_entry() {
    let config = full_config();
    assert_eq!(config.lookup(IntentKind::Jumping), params(80, LoopPolicy::Once));
    assert_eq!(config.lookup(IntentKind::Falling), params(120, LoopPolicy::Once));
}

#[test]
fn intent_kind_strips_the_payload() {
    assert_eq!(intent_kind(&Intent::Moving { speed: 17 }), IntentKind::Moving);
    assert_eq!(intent_kind(&Intent::Idle), IntentKind::Idle);
}

#[test]
fn maintain_triggers_no_reaction() {
    assert_eq!(react(&Directive::Maintain, &full_config()), None);
}

#[test]
fn alter_starts_the_configured_cross_fade() {
    let config = full_config();
    let directive = Directive::Alter {
        previous: Intent::Idle,
        next: Intent::Moving { speed: 5 },
    };
    assert_eq!(
        react(&directive, &config),
        Some(CrossFade {
            target: IntentKind::Moving,
            params: params(150, LoopPolicy::Repeat),
        })
    );
}
