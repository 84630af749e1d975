//! Creation of a lottery pool.

use vstd::prelude::*;

use crate::constants::DEFAULT_COMMISSION_BPS;
use crate::enums::PoolStatus;
use crate::errors::FortuneXError;
use crate::state::{AccountId, GlobalState, LotteryPool};

verus! {

/// Creates a new pool under the registry, for an allow-listed creator.
///
/// The ticket price must be positive, the capacity bounds must satisfy
/// `0 < min_tickets <= max_tickets`, and the draw interval must be
/// positive, so that rescheduling an undersubscribed draw always moves its
/// time strictly forward.  The pool takes the next id from the
/// registry's counter, opens empty and `Active`, and schedules its first
/// draw one interval from now.  The arithmetic for the schedule and the
/// counter must stay within 64 bits or the creation is refused whole.
pub fn initialize_pool(
    global: &mut GlobalState,
    creator: AccountId,
    ticket_price: u64,
    min_tickets: u64,
    max_tickets: u64,
    draw_interval: u64,
    now: u64,
) -> (r: Result<LotteryPool, FortuneXError>)
    requires
        old(global).wf(),
    ensures
        final(global).wf(),
        r is Ok <==> (ticket_price > 0 && max_tickets > 0 && 0 < min_tickets <= max_tickets
            && draw_interval >= 1 && old(global).creators_whitelist@.contains(creator) && now
            + draw_interval <= u64::MAX && old(global).pools_count < u64::MAX),
        ticket_price == 0 ==> r == Err::<LotteryPool, FortuneXError>(
            FortuneXError::InvalidTicketPrice,
        ),
        ticket_price > 0 && max_tickets == 0 ==> r == Err::<LotteryPool, FortuneXError>(
            FortuneXError::InvalidMaxTickets,
        ),
        ticket_price > 0 && max_tickets > 0 && !(0 < min_tickets <= max_tickets) ==> r == Err::<
            LotteryPool,
            FortuneXError,
        >(FortuneXError::InvalidMinMaxTickets),
        ticket_price > 0 && max_tickets > 0 && 0 < min_tickets <= max_tickets && draw_interval
            == 0 ==> r == Err::<LotteryPool, FortuneXError>(FortuneXError::InvalidDrawInterval),
        ticket_price > 0 && max_tickets > 0 && 0 < min_tickets <= max_tickets && draw_interval >= 1
            && !old(global).creators_whitelist@.contains(creator) ==> r == Err::<
            LotteryPool,
            FortuneXError,
        >(FortuneXError::CreatorNotWhitelisted),
        ticket_price > 0 && max_tickets > 0 && 0 < min_tickets <= max_tickets && draw_interval >= 1
            && old(global).creators_whitelist@.contains(creator) && (now + draw_interval > u64::MAX
            || old(global).pools_count == u64::MAX) ==> r == Err::<LotteryPool, FortuneXError>(
            FortuneXError::Overflow,
        ),
        r is Err ==> *final(global) == *old(global),
        r is Ok ==> final(global).pools_count == old(global).pools_count + 1,
        final(global).authority == old(global).authority,
        final(global).platform_wallet == old(global).platform_wallet,
        final(global).usdc_mint == old(global).usdc_mint,
        final(global).platform_fee_bps == old(global).platform_fee_bps,
        final(global).bonus_pool_fee_bps == old(global).bonus_pool_fee_bps,
        final(global).creators_whitelist@ == old(global).creators_whitelist@,
        r matches Ok(p) ==> {
            &&& p.wf()
            &&& p.pool_id == old(global).pools_count
            &&& p.status is Active
            &&& p.prize_pool == 0
            &&& p.ticket_price == ticket_price
            &&& p.tickets_sold@.len() == 0
            &&& p.min_tickets == min_tickets
            &&& p.max_tickets == max_tickets
            &&& p.draw_interval == draw_interval
            &&& p.draw_time == now + draw_interval
            &&& p.created_at == now
            &&& p.winner is None
            &&& p.commission_bps == DEFAULT_COMMISSION_BPS
            &&& p.creator == creator
            &&& p.cancelled_tickets@.len() == 0
        },
{
    if ticket_price == 0 {
        return Err(FortuneXError::InvalidTicketPrice);
    }
    if max_tickets == 0 {
        return Err(FortuneXError::InvalidMaxTickets);
    }
    if min_tickets == 0 || min_tickets > max_tickets {
        return Err(FortuneXError::InvalidMinMaxTickets);
    }
    if draw_interval == 0 {
        return Err(FortuneXError::InvalidDrawInterval);
    }
    if !global.is_creator_whitelisted(&creator) {
        return Err(FortuneXError::CreatorNotWhitelisted);
    }
    if draw_interval > u64::MAX - now || global.pools_count == u64::MAX {
        return Err(FortuneXError::Overflow);
    }
    let pool = LotteryPool {
        pool_id: global.pools_count,
        status: PoolStatus::Active,
        prize_pool: 0,
        ticket_price,
        tickets_sold: Vec::new(),
        min_tickets,
        max_tickets,
        draw_interval,
        draw_time: now + draw_interval,
        created_at: now,
        winner: None,
        commission_bps: DEFAULT_COMMISSION_BPS,
        creator,
        cancelled_tickets: Vec::new(),
    };
    global.pools_count = global.pools_count + 1;
    Ok(pool)
}

} // verus!
