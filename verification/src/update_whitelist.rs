//! Allow-list maintenance.

use vstd::prelude::*;

use crate::constants::MAX_CREATORS;
use crate::errors::FortuneXError;
use crate::state::{AccountId, GlobalState};

verus! {

/// Adds (`is_add`) or removes a creator from the registry's allow-list.
///
/// Only the registry's authority may call.  Adding a present member fails,
/// as does removing an absent one or growing past `MAX_CREATORS`.
pub fn update_whitelist(
    global: &mut GlobalState,
    authority: AccountId,
    creator: AccountId,
    is_add: bool,
) -> (r: Result<(), FortuneXError>)
    requires
        old(global).wf(),
    ensures
        final(global).wf(),
        final(global).same_config(*old(global)),
        r is Err ==> *final(global) == *old(global),
        authority != old(global).authority ==> r == Err::<(), FortuneXError>(
            FortuneXError::Unauthorized,
        ),
        authority == old(global).authority && is_add ==> {
            &&& r is Ok <==> (!old(global).creators_whitelist@.contains(creator) && old(
                global,
            ).creators_whitelist@.len() < MAX_CREATORS)
            &&& r is Ok ==> final(global).creators_whitelist@ == old(
                global,
            ).creators_whitelist@.push(creator)
            &&& old(global).creators_whitelist@.contains(creator) ==> r == Err::<(), FortuneXError>(
                FortuneXError::CreatorAlreadyWhitelisted,
            )
            &&& !old(global).creators_whitelist@.contains(creator) && old(
                global,
            ).creators_whitelist@.len() >= MAX_CREATORS ==> r == Err::<(), FortuneXError>(
                FortuneXError::WhitelistFull,
            )
        },
        authority == old(global).authority && !is_add ==> {
            &&& r is Ok <==> old(global).creators_whitelist@.contains(creator)
            &&& r is Ok ==> final(global).creators_whitelist@ == old(
                global,
            ).creators_whitelist@.remove_value(creator)
            &&& !old(global).creators_whitelist@.contains(creator) ==> r == Err::<(), FortuneXError>(
                FortuneXError::CreatorNotWhitelisted,
            )
        },
{
    if authority != global.authority {
        return Err(FortuneXError::Unauthorized);
    }
    if is_add {
        global.add_creator(creator)
    } else {
        global.remove_creator(&creator)
    }
}

} // verus!
