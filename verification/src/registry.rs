use vstd::prelude::*;
use crate::accounts::CreateMemeRegistry;
use crate::address::Address;
use crate::error::MemeError;
use crate::events::MemeRegistryCreated;
use crate::state::MemeRegistry;

verus! {

/// The time at which a campaign created at `now` stops taking contributions.
pub open spec fn window_end(ctx: CreateMemeRegistry, now: i64) -> int {
    now + ctx.state.fund_duration
}

/// The record of a campaign created at `now` by the caller: empty, without a token, and
/// open for the configured duration.
pub open spec fn new_registry(ctx: CreateMemeRegistry, meme_id: [u8; 16], now: i64) -> MemeRegistry {
    MemeRegistry {
        meme_id,
        total_funds: 0,
        start_time: now,
        end_time: window_end(ctx, now) as i64,
        authority: ctx.authority,
        contributor_count: 0,
        mint: Address::spec_unset(),
        unclaimed_rewards: 0,
        claimed_count: 0,
    }
}

/// Creates the campaign `meme_id` at the time `now`, with the caller as its creator. Any
/// caller may create a campaign. The operation is rejected, and changes nothing, only
/// where the end of the window does not fit in 64 bits.
///
/// The campaign record is the one that the ledger has just created for `meme_id`:
/// whatever it held is overwritten, and that there is one record for each identifier is
/// the ledger's doing.
pub fn create_meme_registry(ctx: &mut CreateMemeRegistry, meme_id: [u8; 16], now: i64) -> (r: Result<
    MemeRegistryCreated,
    MemeError,
>)
    ensures
        if i64::MIN <= window_end(*old(ctx), now) <= i64::MAX {
            &&& *final(ctx) == (CreateMemeRegistry {
                registry: new_registry(*old(ctx), meme_id, now),
                ..*old(ctx)
            })
            &&& r == Ok::<MemeRegistryCreated, MemeError>(
                MemeRegistryCreated {
                    meme_id,
                    start_time: now,
                    end_time: window_end(*old(ctx), now) as i64,
                },
            )
            &&& !final(ctx).registry.is_started()
            &&& old(ctx).state.fund_duration >= 0 ==> final(ctx).registry.wf()
        } else {
            &&& *final(ctx) == *old(ctx)
            &&& r == Err::<MemeRegistryCreated, MemeError>(MemeError::ArithmeticOverflow)
        },
{
    let end_time = match now.checked_add(ctx.state.fund_duration) {
        Some(t) => t,
        None => { return Err(MemeError::ArithmeticOverflow); },
    };
    ctx.registry = MemeRegistry {
        meme_id,
        total_funds: 0,
        start_time: now,
        end_time,
        authority: ctx.authority,
        contributor_count: 0,
        mint: Address::unset(),
        unclaimed_rewards: 0,
        claimed_count: 0,
    };
    Ok(MemeRegistryCreated { meme_id, start_time: now, end_time })
}

} // verus!
