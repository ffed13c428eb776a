//! Policy guard: channel allow-list, guild scoping, membership-cache
//! freshness, and the banned-role deny-list.

use vstd::prelude::*;

verus! {

use crate::config::Config;
use crate::text::contains_u64;
use crate::text::has_banned_role;
use crate::text::spec_has_banned_role;

/// Why an event was denied.
#[derive(PartialEq, Eq, Structural, Clone, Copy, Debug)]
pub enum DenyReason {
    /// Message-triggered execution outside the allow-listed channels;
    /// the message is ignored without a trace.
    ChannelNotAllowed,
    /// An explicitly invoked interaction outside the guild; ignored.
    NotInGuild,
    /// The invoker's member record is not cached yet. A soft,
    /// recoverable denial: the user is told to retry.
    NotCached,
    /// The member holds a banned role. Denied silently by design, so
    /// that banned users get no signal.
    Banned,
}

/// The guard's verdict on one event.
#[derive(PartialEq, Eq, Structural, Clone, Copy, Debug)]
pub enum Authorization {
    Allow,
    Deny(DenyReason),
}

/// How the event was triggered: a free-text message in a channel, or an
/// explicit interaction (slash command, button, modal).
#[derive(PartialEq, Eq, Structural, Clone, Copy, Debug)]
pub enum TriggerKind {
    Message,
    Interaction,
}

/// Authorization input derived from one event: the trigger kind, the
/// origin channel, guild scoping, and the invoker's role set as the
/// cache (or the message itself) knows it — `None` when no member data
/// is available.
pub struct AuthorizationContext {
    pub trigger: TriggerKind,
    pub channel_id: u64,
    pub in_guild: bool,
    pub member_roles: Option<Vec<u64>>,
}

/// The guard's decision. Message-triggered execution requires an
/// allow-listed channel; interactions require guild scope and a cached
/// member record; and in both cases a member holding a banned role is
/// denied. A message without member data passes the role check, since
/// there is no role set to test.
pub open spec fn spec_authorize(ctx: AuthorizationContext, cfg: Config) -> Authorization {
    if ctx.trigger == TriggerKind::Message && !cfg.channels@.contains(ctx.channel_id) {
        Authorization::Deny(DenyReason::ChannelNotAllowed)
    } else if ctx.trigger == TriggerKind::Interaction && !ctx.in_guild {
        Authorization::Deny(DenyReason::NotInGuild)
    } else if ctx.trigger == TriggerKind::Interaction && ctx.member_roles is None {
        Authorization::Deny(DenyReason::NotCached)
    } else if ctx.member_roles matches Some(roles) && spec_has_banned_role(
        roles@,
        cfg.banned_roles@,
    ) {
        Authorization::Deny(DenyReason::Banned)
    } else {
        Authorization::Allow
    }
}

/// Decides whether an event may proceed, exactly as [`spec_authorize`]
/// states.
pub fn authorize(ctx: &AuthorizationContext, cfg: &Config) -> (r: Authorization)
    ensures
        r == spec_authorize(*ctx, *cfg),
{
    match ctx.trigger {
        TriggerKind::Message => {
            if !contains_u64(&cfg.channels, ctx.channel_id) {
                return Authorization::Deny(DenyReason::ChannelNotAllowed);
            }
        },
        TriggerKind::Interaction => {
            if !ctx.in_guild {
                return Authorization::Deny(DenyReason::NotInGuild);
            }
            if ctx.member_roles.is_none() {
                return Authorization::Deny(DenyReason::NotCached);
            }
        },
    }
    match &ctx.member_roles {
        Some(roles) => {
            if has_banned_role(roles, &cfg.banned_roles) {
                return Authorization::Deny(DenyReason::Banned);
            }
        },
        None => {},
    }
    Authorization::Allow
}

/// Whether a denial is communicated to the user. Only `NotCached` is:
/// the user can recover by sending a message first. `Banned` in
/// particular is silent by design, and unlisted channels and
/// out-of-guild invocations are simply ignored.
pub fn deny_is_visible(reason: DenyReason) -> (r: bool)
    ensures
        r == (reason == DenyReason::NotCached),
{
    match reason {
        DenyReason::NotCached => true,
        _ => false,
    }
}

} // verus!
