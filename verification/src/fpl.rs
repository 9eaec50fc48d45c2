//! The registry: the global configuration and the users' records, which the
//! reward engine reads and never writes.

use vstd::prelude::*;
use vstd::utf8::encode_utf8;
use crate::address::Address;
use crate::clock::current_time;
use crate::errors::ErrorCode;
use crate::errors::Failure;
use crate::state::FplGlobalState;
use crate::state::FplUser;

verus! {

/// The greatest length of a user's external id, in bytes.
pub const MAX_FPL_ID_LEN: usize = 20;

/// The global configuration asked for.
#[derive(Clone, Debug, PartialEq, Eq)]
pub struct FplGlobalParams {
    pub current_gameweek: u8,
    pub season_start: i64,
    pub season_end: i64,
    pub api_url: String,
}

/// What creating the global configuration works on: the caller, the record
/// that becomes the configuration, and the bump of its address.
#[derive(Clone, Debug, PartialEq, Eq)]
pub struct InitializeFplGlobal {
    pub admin: Address,
    pub global_state: FplGlobalState,
    pub bump: u8,
}

/// Creates the global configuration as asked for, owned by the caller.
pub fn initialize_fpl_global(
    ctx: &mut InitializeFplGlobal,
    params: FplGlobalParams,
) -> (r: Result<(), ErrorCode>)
    ensures
        r is Ok,
        *final(ctx) == (InitializeFplGlobal {
            global_state: FplGlobalState {
                admin: old(ctx).admin,
                current_gameweek: params.current_gameweek,
                season_start: params.season_start,
                season_end: params.season_end,
                api_url: params.api_url,
                bump: old(ctx).bump,
            },
            ..*old(ctx)
        }),
{
    ctx.global_state.admin = ctx.admin;
    ctx.global_state.current_gameweek = params.current_gameweek;
    ctx.global_state.season_start = params.season_start;
    ctx.global_state.season_end = params.season_end;
    ctx.global_state.api_url = params.api_url;
    ctx.global_state.bump = ctx.bump;
    Ok(())
}

/// What registering a user works on: the caller, the record that becomes
/// the user's, and the bump of its address.
#[derive(Clone, Debug, PartialEq, Eq)]
pub struct RegisterFplUser {
    pub user: Address,
    pub fpl_user: FplUser,
    pub bump: u8,
}

/// Whether an external id is well formed: between 1 and 20 bytes long in
/// UTF-8, the encoding of a `String`.
pub open spec fn is_fpl_id(fpl_id: String) -> bool {
    1 <= encode_utf8(fpl_id@).len() <= MAX_FPL_ID_LEN
}

/// The record of a user registered at `now`: the caller's, with the id, no
/// team data and no score.
pub open spec fn is_registered(
    record: FplUser,
    ctx: RegisterFplUser,
    fpl_id: String,
    now: i64,
) -> bool {
    &&& record.authority == ctx.user
    &&& record.fpl_id == fpl_id
    &&& record.team_data@ == Seq::<u8>::empty()
    &&& record.weekly_score == 0
    &&& record.total_score == 0
    &&& record.last_updated == now
    &&& record.bump == ctx.bump
}

/// Tells whether an external id is well formed.
fn accepts_id(fpl_id: &String) -> (r: bool)
    ensures
        r == is_fpl_id(*fpl_id),
{
    let length: usize = fpl_id.as_str().as_bytes().len();
    1 <= length && length <= MAX_FPL_ID_LEN
}

/// Registers a caller whose id is well formed.
fn apply_register(ctx: &mut RegisterFplUser, fpl_id: String, now: i64)
    ensures
        final(ctx).user == old(ctx).user,
        final(ctx).bump == old(ctx).bump,
        is_registered(final(ctx).fpl_user, *old(ctx), fpl_id, now),
{
    ctx.fpl_user.authority = ctx.user;
    ctx.fpl_user.fpl_id = fpl_id;
    ctx.fpl_user.team_data = Vec::new();
    ctx.fpl_user.weekly_score = 0;
    ctx.fpl_user.total_score = 0;
    ctx.fpl_user.last_updated = now;
    ctx.fpl_user.bump = ctx.bump;
}

/// Registers the caller under the external id `fpl_id` at `now`.
///
/// An empty id, or one longer than 20 bytes, is refused with `InvalidFplId`,
/// and nothing changes. Otherwise the record is the caller's, holds the id,
/// no team data and no score, and was last updated at `now`.
pub fn register_fpl_user_at(
    ctx: &mut RegisterFplUser,
    fpl_id: String,
    now: i64,
) -> (r: Result<(), ErrorCode>)
    ensures
        r is Err <==> !is_fpl_id(fpl_id),
        match r {
            Ok(_) => {
                &&& final(ctx).user == old(ctx).user
                &&& final(ctx).bump == old(ctx).bump
                &&& is_registered(final(ctx).fpl_user, *old(ctx), fpl_id, now)
            },
            Err(e) => e == ErrorCode::InvalidFplId && *final(ctx) == *old(ctx),
        },
{
    if !accepts_id(&fpl_id) {
        return Err(ErrorCode::InvalidFplId);
    }
    apply_register(ctx, fpl_id, now);
    Ok(())
}

/// Registers the caller under the external id `fpl_id` at the runtime's
/// time.
///
/// An id that is not well formed is refused with `InvalidFplId`. Otherwise
/// the caller is registered as `register_fpl_user_at` registers it at the
/// time the runtime's clock gave, which the record holds as its last update;
/// where the runtime gives no time, the call fails with `ClockUnavailable`.
/// Nothing changes unless the caller is registered.
pub fn register_fpl_user(ctx: &mut RegisterFplUser, fpl_id: String) -> (r: Result<(), Failure>)
    ensures
        r is Err ==> *final(ctx) == *old(ctx),
        !is_fpl_id(fpl_id) ==> r == Err::<(), Failure>(Failure::Rejected(ErrorCode::InvalidFplId)),
        is_fpl_id(fpl_id) ==> match r {
            Ok(_) => {
                &&& final(ctx).user == old(ctx).user
                &&& final(ctx).bump == old(ctx).bump
                &&& is_registered(
                    final(ctx).fpl_user,
                    *old(ctx),
                    fpl_id,
                    final(ctx).fpl_user.last_updated,
                )
            },
            Err(f) => f == Failure::ClockUnavailable,
        },
{
    if !accepts_id(&fpl_id) {
        return Err(Failure::Rejected(ErrorCode::InvalidFplId));
    }
    match current_time() {
        Ok(now) => {
            apply_register(ctx, fpl_id, now);
            Ok(())
        },
        Err(f) => Err(f),
    }
}

} // verus!
