//! Settlement: winner selection and the four-way split of the prize pool.

use vstd::prelude::*;

use crate::enums::PoolStatus;
use crate::errors::FortuneXError;
use crate::fees::{fee_amount, spec_fee};
use crate::state::{AccountId, DrawHistory, GlobalState, LotteryPool};
use vstd::bytes::{
    lemma_auto_spec_u64_to_from_le_bytes, spec_u64_from_le_bytes, spec_u64_to_le_bytes,
    u64_from_le_bytes, u64_to_le_bytes,
};
use vstd::slice::slice_subrange;

verus! {

/// The 32 seed bytes a draw is computed from: the host's slot counter, the
/// pool's id, the slot counter again, and the pool's creation time, each
/// written as 8 little-endian bytes.  Low-entropy by design and recorded
/// in the draw history, so every selection can be audited and replayed.
pub open spec fn spec_seed(slot: u64, pool_id: u64, created_at: u64) -> Seq<u8> {
    spec_u64_to_le_bytes(slot) + spec_u64_to_le_bytes(pool_id) + spec_u64_to_le_bytes(slot)
        + spec_u64_to_le_bytes(created_at)
}

/// The index selection rule: the first 8 seed bytes read as a little-endian
/// integer, reduced modulo the roster size.
pub open spec fn spec_select(seed: Seq<u8>, roster_size: u64) -> int
    recommends
        seed.len() >= 8,
        roster_size > 0,
{
    (spec_u64_from_le_bytes(seed.subrange(0, 8)) as int) % (roster_size as int)
}

/// The roster index a draw on `pool` would pick at slot `slot`.
pub open spec fn spec_winning_index(pool: LotteryPool, slot: u64) -> int {
    spec_select(
        spec_seed(slot, pool.pool_id, pool.created_at),
        pool.tickets_sold@.len() as u64,
    )
}

/// Winner selection is deterministic: identical seed bytes and identical
/// roster sizes always yield the identical winning index.
pub proof fn lemma_select_deterministic(seed1: Seq<u8>, seed2: Seq<u8>, n1: u64, n2: u64)
    requires
        seed1 == seed2,
        n1 == n2,
    ensures
        spec_select(seed1, n1) == spec_select(seed2, n2),
{
}

/// Builds the seed bytes for a draw; see [`spec_seed`].
pub fn build_seed(slot: u64, pool_id: u64, created_at: u64) -> (s: Vec<u8>)
    ensures
        s@ == spec_seed(slot, pool_id, created_at),
        s@.len() == 32,
{
    proof {
        lemma_auto_spec_u64_to_from_le_bytes();
    }
    let mut s = u64_to_le_bytes(slot);
    let mut b = u64_to_le_bytes(pool_id);
    s.append(&mut b);
    let mut c = u64_to_le_bytes(slot);
    s.append(&mut c);
    let mut d = u64_to_le_bytes(created_at);
    s.append(&mut d);
    s
}

/// Picks the winning roster index from a seed; see [`spec_select`].
pub fn select_winner(seed: &Vec<u8>, roster_size: u64) -> (r: u64)
    requires
        seed@.len() >= 8,
        roster_size > 0,
    ensures
        r == spec_select(seed@, roster_size),
        r < roster_size,
{
    let first = slice_subrange(seed.as_slice(), 0, 8);
    let v = u64_from_le_bytes(first);
    v % roster_size
}

/// How a successful settlement attempt ended.
#[derive(Clone, Debug, PartialEq, Eq)]
pub enum DrawOutcome {
    /// Too few tickets sold: the draw time moved forward and nothing else
    /// changed.  A retry, not a failure.
    Rescheduled { next_draw_time: u64 },
    /// The pool completed; the host must apply the plan's four transfers
    /// and persist the history record as one atomic unit.
    Settled(SettlementPlan),
}

/// The four-way split of the prize pool, every share computed from the
/// same original total, plus the audit record of the draw.
#[derive(Clone, Debug, PartialEq, Eq)]
pub struct SettlementPlan {
    /// The identity that won.
    pub winner: AccountId,
    /// The roster index that won.
    pub winning_ticket: u64,
    /// Where the winner's share goes: the supplied destination at the
    /// winning index, checked against its canonical payout address.
    pub winner_destination: AccountId,
    /// The prize total less the three fees.
    pub winner_prize: u64,
    /// The platform's share, to the registry's platform wallet.
    pub platform_fee: u64,
    /// The bonus reserve's share.
    pub bonus_pool_fee: u64,
    /// The creator's share, to the pool's creator.
    pub commission: u64,
    /// The immutable record of this draw.
    pub history: DrawHistory,
}

/// Attempts to settle `pool`: picks a winner and plans the payout.
///
/// Settlement is cooperative: anyone may attempt it, and the outcome never
/// depends on who does.  The pool must not already be completed, and its
/// draw time must have arrived.  Short of the minimum
/// ticket count the draw is rescheduled one interval ahead and nothing
/// else changes.  Otherwise `destinations` must list one payout account
/// per roster entry, in roster order, and the one at the winning index
/// must match `canonical` — the canonical payout address of each roster
/// entry for the registry's unit of account, as resolved by the host.  The
/// three fees are each taken from the original prize total; if together
/// they would exceed it, the whole settlement is refused.  On success the
/// pool completes, the winner is recorded, and the returned plan tells the
/// host exactly what to transfer, atomically: the winner's share to the
/// checked destination, the platform fee to the platform wallet, the bonus
/// fee to the bonus reserve, and the commission to the pool's creator.
pub fn draw_winner(
    global: &GlobalState,
    pool: &mut LotteryPool,
    destinations: &Vec<AccountId>,
    canonical: &Vec<AccountId>,
    now: u64,
    slot: u64,
) -> (r: Result<DrawOutcome, FortuneXError>)
    requires
        global.wf(),
        old(pool).wf(),
        canonical@.len() == old(pool).tickets_sold@.len(),
    ensures
        final(pool).wf(),
        final(pool).same_config(*old(pool)),
        final(pool).tickets_sold@ == old(pool).tickets_sold@,
        final(pool).cancelled_tickets@ == old(pool).cancelled_tickets@,
        final(pool).prize_pool == old(pool).prize_pool,
        r is Err ==> *final(pool) == *old(pool),
        r is Ok <==> (!(old(pool).status is Completed) && now >= old(pool).draw_time && ((old(pool).tickets_sold@.len()
            < old(pool).min_tickets && now + old(pool).draw_interval <= u64::MAX) || (old(
            pool,
        ).tickets_sold@.len() >= old(pool).min_tickets && destinations@.len() == old(
            pool,
        ).tickets_sold@.len() && destinations@[spec_winning_index(*old(pool), slot)]
            == canonical@[spec_winning_index(*old(pool), slot)] && spec_fee(
            old(pool).prize_pool as int,
            global.platform_fee_bps as int,
        ) + spec_fee(old(pool).prize_pool as int, global.bonus_pool_fee_bps as int) + spec_fee(
            old(pool).prize_pool as int,
            old(pool).commission_bps as int,
        ) <= old(pool).prize_pool))),
        old(pool).status is Completed ==> r == Err::<DrawOutcome, FortuneXError>(
            FortuneXError::PoolDrawCompleted,
        ),
        !(old(pool).status is Completed) && now < old(pool).draw_time ==> r == Err::<
            DrawOutcome,
            FortuneXError,
        >(FortuneXError::DrawTimeNotReached),
        !(old(pool).status is Completed) && now >= old(pool).draw_time && old(
            pool,
        ).tickets_sold@.len() < old(pool).min_tickets && now + old(pool).draw_interval > u64::MAX
            ==> r == Err::<DrawOutcome, FortuneXError>(FortuneXError::Overflow),
        !(old(pool).status is Completed) && now >= old(pool).draw_time && old(
            pool,
        ).tickets_sold@.len() >= old(pool).min_tickets && destinations@.len() != old(
            pool,
        ).tickets_sold@.len() ==> r == Err::<DrawOutcome, FortuneXError>(
            FortuneXError::InvalidRemainingAccountsCount,
        ),
        !(old(pool).status is Completed) && now >= old(pool).draw_time && old(
            pool,
        ).tickets_sold@.len() >= old(pool).min_tickets && destinations@.len() == old(
            pool,
        ).tickets_sold@.len() && destinations@[spec_winning_index(*old(pool), slot)]
            != canonical@[spec_winning_index(*old(pool), slot)] ==> r == Err::<
            DrawOutcome,
            FortuneXError,
        >(FortuneXError::InvalidWinnerTokenAccount),
        !(old(pool).status is Completed) && now >= old(pool).draw_time && old(
            pool,
        ).tickets_sold@.len() >= old(pool).min_tickets && destinations@.len() == old(
            pool,
        ).tickets_sold@.len() && destinations@[spec_winning_index(*old(pool), slot)]
            == canonical@[spec_winning_index(*old(pool), slot)] && spec_fee(
            old(pool).prize_pool as int,
            global.platform_fee_bps as int,
        ) + spec_fee(old(pool).prize_pool as int, global.bonus_pool_fee_bps as int) + spec_fee(
            old(pool).prize_pool as int,
            old(pool).commission_bps as int,
        ) > old(pool).prize_pool ==> r == Err::<DrawOutcome, FortuneXError>(FortuneXError::Overflow),
        r matches Ok(DrawOutcome::Rescheduled { next_draw_time }) ==> {
            &&& old(pool).tickets_sold@.len() < old(pool).min_tickets
            &&& next_draw_time == now + old(pool).draw_interval
            &&& final(pool).draw_time == now + old(pool).draw_interval
            &&& final(pool).status == old(pool).status
            &&& final(pool).winner == old(pool).winner
            &&& final(pool).draw_time > old(pool).draw_time
        },
        r matches Ok(DrawOutcome::Settled(plan)) ==> {
            &&& old(pool).tickets_sold@.len() >= old(pool).min_tickets
            &&& plan.winning_ticket == spec_winning_index(*old(pool), slot)
            &&& plan.winner == old(pool).tickets_sold@[plan.winning_ticket as int]
            &&& plan.winner_destination == destinations@[plan.winning_ticket as int]
            &&& plan.platform_fee == spec_fee(
                old(pool).prize_pool as int,
                global.platform_fee_bps as int,
            )
            &&& plan.bonus_pool_fee == spec_fee(
                old(pool).prize_pool as int,
                global.bonus_pool_fee_bps as int,
            )
            &&& plan.commission == spec_fee(
                old(pool).prize_pool as int,
                old(pool).commission_bps as int,
            )
            &&& plan.winner_prize + plan.platform_fee + plan.bonus_pool_fee + plan.commission
                == old(pool).prize_pool
            &&& final(pool).status is Completed
            &&& final(pool).winner == Some(plan.winner)
            &&& final(pool).draw_time == old(pool).draw_time
            &&& plan.history.pool_id == old(pool).pool_id
            &&& plan.history.winner == plan.winner
            &&& plan.history.prize_amount == plan.winner_prize
            &&& plan.history.total_tickets == old(pool).tickets_sold@.len()
            &&& plan.history.draw_timestamp == now
            &&& plan.history.winning_ticket == plan.winning_ticket
            &&& plan.history.random_seed@ == spec_seed(slot, old(pool).pool_id, old(pool).created_at)
        },
{
    if matches!(pool.status, PoolStatus::Completed) {
        return Err(FortuneXError::PoolDrawCompleted);
    }
    if now < pool.draw_time {
        return Err(FortuneXError::DrawTimeNotReached);
    }
    let roster_len: u64 = pool.tickets_sold.len() as u64;
    if roster_len < pool.min_tickets {
        if pool.draw_interval > u64::MAX - now {
            return Err(FortuneXError::Overflow);
        }
        pool.draw_time = now + pool.draw_interval;
        return Ok(DrawOutcome::Rescheduled { next_draw_time: pool.draw_time });
    }
    if destinations.len() != pool.tickets_sold.len() {
        return Err(FortuneXError::InvalidRemainingAccountsCount);
    }
    let seed = build_seed(slot, pool.pool_id, pool.created_at);
    let winning_ticket = select_winner(&seed, roster_len);
    let winner_index = winning_ticket as usize;
    let winner = pool.tickets_sold[winner_index];
    if destinations[winner_index] != canonical[winner_index] {
        return Err(FortuneXError::InvalidWinnerTokenAccount);
    }
    let total_prize = pool.prize_pool;
    let platform_fee = fee_amount(total_prize, global.platform_fee_bps);
    let bonus_pool_fee = fee_amount(total_prize, global.bonus_pool_fee_bps);
    let commission = fee_amount(total_prize, pool.commission_bps);
    let fees_sum: u128 = platform_fee as u128 + bonus_pool_fee as u128 + commission as u128;
    if fees_sum > total_prize as u128 {
        return Err(FortuneXError::Overflow);
    }
    let winner_prize = total_prize - platform_fee - bonus_pool_fee - commission;
    pool.status = PoolStatus::Completed;
    pool.winner = Some(winner);
    let history = DrawHistory {
        pool_id: pool.pool_id,
        winner,
        prize_amount: winner_prize,
        total_tickets: roster_len,
        draw_timestamp: now,
        winning_ticket,
        random_seed: seed,
    };
    let plan = SettlementPlan {
        winner,
        winning_ticket,
        winner_destination: destinations[winner_index],
        winner_prize,
        platform_fee,
        bonus_pool_fee,
        commission,
        history,
    };
    Ok(DrawOutcome::Settled(plan))
}

} // verus!
