//! Static transition configuration: blend duration and loop policy per
//! intent, validated once at startup so that per-tick lookups never fail.

use vstd::prelude::*;

use crate::animation::{Directive, Intent};

verus! {

/// The variant tag of an [`Intent`], with any payload stripped: the key
/// the transition configuration is indexed by.
#[derive(Clone, Copy, PartialEq, Eq, Structural, Debug)]
pub enum IntentKind {
    Idle,
    Moving,
    Jumping,
    Falling,
}

/// The variant tag of `i`.
pub open spec fn kind_of(i: Intent) -> IntentKind {
    match i {
        Intent::Idle => IntentKind::Idle,
        Intent::Moving { speed: _ } => IntentKind::Moving,
        Intent::Jumping => IntentKind::Jumping,
        Intent::Falling => IntentKind::Falling,
    }
}

/// Strips the payload off an intent, leaving its variant tag.
pub fn intent_kind(i: &Intent) -> (r: IntentKind)
    ensures
        r == kind_of(*i),
{
    match i {
        Intent::Idle => IntentKind::Idle,
        Intent::Moving { speed: _ } => IntentKind::Moving,
        Intent::Jumping => IntentKind::Jumping,
        Intent::Falling => IntentKind::Falling,
    }
}

/// Whether the clip a transition fades into repeats indefinitely or
/// plays once.
#[derive(Clone, Copy, PartialEq, Eq, Structural, Debug)]
pub enum LoopPolicy {
    Repeat,
    Once,
}

/// How to enter one intent's clip: cross-fade duration and loop policy.
#[derive(Clone, Copy, PartialEq, Eq, Structural, Debug)]
pub struct TransitionParams {
    pub blend_millis: u64,
    pub policy: LoopPolicy,
}

/// The fatal startup-time configuration error: the transition
/// configuration has no entry for an intent the system may produce.
#[derive(Clone, Copy, PartialEq, Eq, Structural, Debug)]
pub struct ConfigError {
    pub missing: IntentKind,
}

/// Mapping from intent kind to transition parameters, populated entry by
/// entry by the embedding configuration system and validated once before
/// the simulation loop begins.
pub struct TransitionConfig {
    idle: Option<TransitionParams>,
    moving: Option<TransitionParams>,
    jumping: Option<TransitionParams>,
    falling: Option<TransitionParams>,
}

impl TransitionConfig {
    /// The configured parameters for `k`, if any.
    pub closed spec fn entry(&self, k: IntentKind) -> Option<TransitionParams> {
        match k {
            IntentKind::Idle => self.idle,
            IntentKind::Moving => self.moving,
            IntentKind::Jumping => self.jumping,
            IntentKind::Falling => self.falling,
        }
    }

    /// Whether every intent kind has an entry.
    pub open spec fn complete(&self) -> bool {
        forall|k: IntentKind| self.entry(k) is Some
    }

    /// An empty configuration with no entries.
    pub fn new() -> (r: TransitionConfig)
        ensures
            forall|k: IntentKind| r.entry(k) is None,
    {
        TransitionConfig { idle: None, moving: None, jumping: None, falling: None }
    }

    /// Sets the entry for `k`, replacing any earlier one; no other entry
    /// changes.
    pub fn set(&mut self, k: IntentKind, params: TransitionParams)
        ensures
            final(self).entry(k) == Some(params),
            forall|j: IntentKind| j != k ==> final(self).entry(j) == old(self).entry(j),
    {
        match k {
            IntentKind::Idle => self.idle = Some(params),
            IntentKind::Moving => self.moving = Some(params),
            IntentKind::Jumping => self.jumping = Some(params),
            IntentKind::Falling => self.falling = Some(params),
        }
    }

    /// Looks the parameters for `k` up; total once validation has passed.
    pub fn lookup(&self, k: IntentKind) -> (r: TransitionParams)
        requires
            self.complete(),
        ensures
            self.entry(k) == Some(r),
    {
        match k {
            IntentKind::Idle => self.idle.unwrap(),
            IntentKind::Moving => self.moving.unwrap(),
            IntentKind::Jumping => self.jumping.unwrap(),
            IntentKind::Falling => self.falling.unwrap(),
        }
    }

    /// Startup validation: walks the full intent enumeration against the
    /// configuration once.
    ///
    /// Returns `Ok` exactly when every intent kind has an entry;
    /// otherwise the error names the first missing kind in enumeration
    /// order, and no tick may run.
    pub fn validate(&self) -> (r: Result<(), ConfigError>)
        ensures
            r == (if self.complete() {
                Ok::<(), ConfigError>(())
            } else {
                Err::<(), ConfigError>(ConfigError { missing: first_missing(*self) })
            }),
            r is Err ==> self.entry(first_missing(*self)) is None,
    {
        if self.idle.is_none() {
            Err(ConfigError { missing: IntentKind::Idle })
        } else if self.moving.is_none() {
            Err(ConfigError { missing: IntentKind::Moving })
        } else if self.jumping.is_none() {
            Err(ConfigError { missing: IntentKind::Jumping })
        } else if self.falling.is_none() {
            Err(ConfigError { missing: IntentKind::Falling })
        } else {
            proof {
                assert forall|k: IntentKind| self.entry(k) is Some by {
                    match k {
                        IntentKind::Idle => assert(self.entry(k) == self.idle),
                        IntentKind::Moving => assert(self.entry(k) == self.moving),
                        IntentKind::Jumping => assert(self.entry(k) == self.jumping),
                        IntentKind::Falling => assert(self.entry(k) == self.falling),
                    }
                }
            }
            Ok(())
        }
    }
}

/// The first intent kind, in enumeration order, that the configuration
/// has no entry for. Only meaningful when the configuration is not
/// complete.
pub open spec fn first_missing(c: TransitionConfig) -> IntentKind {
    if c.entry(IntentKind::Idle) is None {
        IntentKind::Idle
    } else if c.entry(IntentKind::Moving) is None {
        IntentKind::Moving
    } else if c.entry(IntentKind::Jumping) is None {
        IntentKind::Jumping
    } else {
        IntentKind::Falling
    }
}

/// The cross-fade a consumer starts in reaction to an `Alter` directive:
/// the target clip's kind and its configured transition parameters.
#[derive(Clone, Copy, PartialEq, Eq, Structural, Debug)]
pub struct CrossFade {
    pub target: IntentKind,
    pub params: TransitionParams,
}

/// The consumer reaction owed to one directive: nothing for `Maintain`,
/// the configured cross-fade into the new intent's clip for `Alter`.
pub open spec fn reaction_of(d: Directive, c: TransitionConfig) -> Option<CrossFade> {
    match d {
        Directive::Maintain => None,
        Directive::Alter { previous: _, next } => Some(
            (CrossFade { target: kind_of(next), params: c.entry(kind_of(next)).unwrap() }),
        ),
    }
}

/// Converts one directive into the consumer action it owes.
///
/// `Maintain` triggers nothing; `Alter` looks the new intent up in the
/// validated configuration and yields the cross-fade to start. The
/// lookup cannot fail once [`TransitionConfig::validate`] has passed.
pub fn react(d: &Directive, config: &TransitionConfig) -> (r: Option<CrossFade>)
    requires
        config.complete(),
    ensures
        r == reaction_of(*d, *config),
{
    match d {
        Directive::Maintain => None,
        Directive::Alter { previous: _, next } => {
            let kind = intent_kind(next);
            let params = config.lookup(kind);
            Some(CrossFade { target: kind, params })
        },
    }
}

} // verus!
