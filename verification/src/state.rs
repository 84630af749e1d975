//! Persistent state of the lottery: the global registry, the pools, the
//! per-user ticket ledgers, and the immutable draw records.
//!
//! Each type carries a well-formedness predicate stating the invariants the
//! operations establish and preserve; `holder_matches_pool` ties a user's
//! ticket ledger to the pool it belongs to.

use vstd::prelude::*;

use crate::constants::{
    BPS_DENOMINATOR, MAX_BONUS_POOL_FEE_BPS, MAX_CREATORS, MAX_PLATFORM_FEE_BPS,
    MAX_TICKETS_PER_USER,
};
use crate::enums::PoolStatus;
use crate::errors::FortuneXError;
use crate::roster::{contains_account, count_of, find_first_account};

verus! {

/// Identity of an account on the hosting ledger: a user, a wallet, a unit
/// of account, or a payout destination.  The core never inspects it beyond
/// equality; resolving identities to storage is the host's concern.
#[derive(Clone, Copy, Debug, PartialEq, Eq, Hash, Structural)]
pub struct AccountId(pub u64);

/// One purchased ticket as recorded in its owner's ledger.
#[derive(Clone, Copy, Debug, PartialEq, Eq, Structural)]
pub struct TicketDetails {
    /// Number assigned from the pool's running issue count; never reused.
    pub ticket_number: u64,
    /// What the ticket cost when bought, always the pool's ticket price.
    pub amount_paid: u64,
    /// When the ticket was bought.
    pub timestamp: u64,
}

/// Process-wide configuration: the controlling authority, payout wallets,
/// fee rates, the pool counter, and the allow-list of pool creators.
#[derive(Clone, Debug, PartialEq, Eq)]
pub struct GlobalState {
    /// Only this identity may change the registry.
    pub authority: AccountId,
    /// Destination of platform fees.
    pub platform_wallet: AccountId,
    /// The single fungible unit of account all pools settle in.
    pub usdc_mint: AccountId,
    /// Platform share of each settlement, in basis points.
    pub platform_fee_bps: u16,
    /// Bonus-reserve share of each settlement, in basis points.
    pub bonus_pool_fee_bps: u16,
    /// How many pools have been created; the next pool's id.
    pub pools_count: u64,
    /// Identities allowed to create pools; unique, at most `MAX_CREATORS`.
    pub creators_whitelist: Vec<AccountId>,
}

impl GlobalState {
    /// Registry invariant: fee rates within their caps, allow-list bounded
    /// and free of duplicates.
    pub open spec fn wf(self) -> bool {
        &&& self.platform_fee_bps <= MAX_PLATFORM_FEE_BPS
        &&& self.bonus_pool_fee_bps <= MAX_BONUS_POOL_FEE_BPS
        &&& self.creators_whitelist@.len() <= MAX_CREATORS
        &&& forall|i: int, j: int|
            0 <= i < j < self.creators_whitelist@.len() ==> self.creators_whitelist@[i]
                != self.creators_whitelist@[j]
    }

    /// Everything of the registry except the allow-list: what allow-list
    /// updates leave untouched.
    pub open spec fn same_config(self, other: GlobalState) -> bool {
        &&& self.authority == other.authority
        &&& self.platform_wallet == other.platform_wallet
        &&& self.usdc_mint == other.usdc_mint
        &&& self.platform_fee_bps == other.platform_fee_bps
        &&& self.bonus_pool_fee_bps == other.bonus_pool_fee_bps
        &&& self.pools_count == other.pools_count
    }

    /// A platform fee rate is acceptable only up to `MAX_PLATFORM_FEE_BPS`.
    pub fn validate_platform_fee_bps(bps: u16) -> (r: Result<(), FortuneXError>)
        ensures
            r is Ok <==> bps <= MAX_PLATFORM_FEE_BPS,
            r is Err ==> r == Err::<(), FortuneXError>(FortuneXError::InvalidPlatformFee),
    {
        if bps <= MAX_PLATFORM_FEE_BPS {
            Ok(())
        } else {
            Err(FortuneXError::InvalidPlatformFee)
        }
    }

    /// A bonus-pool fee rate is acceptable only up to `MAX_BONUS_POOL_FEE_BPS`.
    pub fn validate_bonus_pool_fee_bps(bps: u16) -> (r: Result<(), FortuneXError>)
        ensures
            r is Ok <==> bps <= MAX_BONUS_POOL_FEE_BPS,
            r is Err ==> r == Err::<(), FortuneXError>(FortuneXError::InvalidBonusPoolFee),
    {
        if bps <= MAX_BONUS_POOL_FEE_BPS {
            Ok(())
        } else {
            Err(FortuneXError::InvalidBonusPoolFee)
        }
    }

    /// Whether `creator` may create pools.
    pub fn is_creator_whitelisted(&self, creator: &AccountId) -> (r: bool)
        ensures
            r == self.creators_whitelist@.contains(*creator),
    {
        contains_account(&self.creators_whitelist, *creator)
    }

    /// Adds a creator to the allow-list; refuses duplicates and refuses to
    /// grow past `MAX_CREATORS`.
    pub fn add_creator(&mut self, creator: AccountId) -> (r: Result<(), FortuneXError>)
        requires
            old(self).wf(),
        ensures
            final(self).wf(),
            r is Ok <==> (!old(self).creators_whitelist@.contains(creator) && old(
                self,
            ).creators_whitelist@.len() < MAX_CREATORS),
            final(self).same_config(*old(self)),
            r is Ok ==> final(self).creators_whitelist@ == old(self).creators_whitelist@.push(
                creator,
            ),
            r == Err::<(), FortuneXError>(FortuneXError::CreatorAlreadyWhitelisted) <==> old(
                self,
            ).creators_whitelist@.contains(creator),
            r == Err::<(), FortuneXError>(FortuneXError::WhitelistFull) <==> (!old(
                self,
            ).creators_whitelist@.contains(creator) && old(self).creators_whitelist@.len()
                >= MAX_CREATORS),
            r is Err ==> *final(self) == *old(self),
    {
        if contains_account(&self.creators_whitelist, creator) {
            return Err(FortuneXError::CreatorAlreadyWhitelisted);
        }
        if self.creators_whitelist.len() >= MAX_CREATORS {
            return Err(FortuneXError::WhitelistFull);
        }
        self.creators_whitelist.push(creator);
        Ok(())
    }

    /// Removes a creator from the allow-list; refuses a non-member.
    pub fn remove_creator(&mut self, creator: &AccountId) -> (r: Result<(), FortuneXError>)
        requires
            old(self).wf(),
        ensures
            final(self).wf(),
            final(self).same_config(*old(self)),
            r is Ok <==> old(self).creators_whitelist@.contains(*creator),
            r is Ok ==> final(self).creators_whitelist@ == old(
                self,
            ).creators_whitelist@.remove_value(*creator),
            r is Err ==> r == Err::<(), FortuneXError>(FortuneXError::CreatorNotWhitelisted)
                && *final(self) == *old(self),
    {
        match find_first_account(&self.creators_whitelist, *creator) {
            Some(pos) => {
                proof {
                    let s = self.creators_whitelist@;
                    s.index_of_first_ensures(*creator);
                    assert(s.contains(*creator));
                    let k = s.index_of_first(*creator).unwrap();
                    assert(k == pos as int) by {
                        if k < pos as int {
                            assert(s[k] == *creator);
                        }
                        if k > pos as int {
                            assert(s[pos as int] == *creator);
                        }
                    }
                }
                self.creators_whitelist.remove(pos);
                Ok(())
            },
            None => {
                proof {
                    let s = self.creators_whitelist@;
                    if s.contains(*creator) {
                        let j = choose|j: int| 0 <= j < s.len() && s[j] == *creator;
                    }
                    s.index_of_first_ensures(*creator);
                }
                Err(FortuneXError::CreatorNotWhitelisted)
            },
        }
    }
}

/// One lottery round: a fixed ticket price, capacity bounds, the roster of
/// sold tickets, the accumulated prize, and the draw schedule.
#[derive(Clone, Debug, PartialEq, Eq)]
pub struct LotteryPool {
    /// Assigned from the registry's `pools_count` at creation; immutable.
    pub pool_id: u64,
    /// Lifecycle state; see [`PoolStatus`].
    pub status: PoolStatus,
    /// Sum of `amount_paid` over all currently unretired tickets.
    pub prize_pool: u64,
    /// Price of each ticket; positive, immutable.
    pub ticket_price: u64,
    /// One entry per unretired ticket: the identity that bought it.
    pub tickets_sold: Vec<AccountId>,
    /// Fewest sold tickets a draw will settle with.
    pub min_tickets: u64,
    /// Capacity; `tickets_sold` never grows past it.
    pub max_tickets: u64,
    /// Seconds between draw attempts; used to push `draw_time` forward.
    pub draw_interval: u64,
    /// Next instant a settlement attempt is allowed.
    pub draw_time: u64,
    /// When the pool was created; seed material for the draw.
    pub created_at: u64,
    /// The winning identity, set exactly once when the pool completes.
    pub winner: Option<AccountId>,
    /// Creator's commission per settlement, in basis points.
    pub commission_bps: u16,
    /// The identity that created the pool; receives the commission.
    pub creator: AccountId,
    /// Numbers of cancelled tickets; retired, never reassigned.
    pub cancelled_tickets: Vec<u64>,
}

impl LotteryPool {
    /// How many ticket numbers this pool has ever issued.  Cancellation
    /// moves a ticket from the roster to `cancelled_tickets`, so the total
    /// never decreases and freshly issued numbers are never reused.
    pub open spec fn issued_count(self) -> int {
        self.tickets_sold@.len() + self.cancelled_tickets@.len() as int
    }

    /// The immutable configuration of a pool: what purchase, cancellation
    /// and drawing leave untouched.
    pub open spec fn same_config(self, other: LotteryPool) -> bool {
        &&& self.pool_id == other.pool_id
        &&& self.ticket_price == other.ticket_price
        &&& self.min_tickets == other.min_tickets
        &&& self.max_tickets == other.max_tickets
        &&& self.draw_interval == other.draw_interval
        &&& self.created_at == other.created_at
        &&& self.commission_bps == other.commission_bps
        &&& self.creator == other.creator
    }

    /// Pool invariant.
    ///
    /// The configuration bounds are immutable, with a positive draw
    /// interval so rescheduling always moves the draw time forward; the
    /// status matches the
    /// roster against capacity; the prize is exactly one ticket price per
    /// unretired ticket until the pool completes; the winner is recorded
    /// exactly when the pool completes; and cancelled numbers are distinct
    /// numbers the pool has actually issued.
    pub open spec fn wf(self) -> bool {
        &&& self.ticket_price > 0
        &&& 0 < self.min_tickets <= self.max_tickets
        &&& self.draw_interval >= 1
        &&& self.commission_bps <= BPS_DENOMINATOR
        &&& self.tickets_sold@.len() <= self.max_tickets
        &&& (self.status is Active ==> self.tickets_sold@.len() < self.max_tickets)
        &&& (self.status is PoolFull ==> self.tickets_sold@.len() == self.max_tickets)
        &&& (!(self.status is Completed) ==> self.prize_pool == self.tickets_sold@.len()
            * self.ticket_price)
        &&& (self.winner is Some <==> self.status is Completed)
        &&& (forall|i: int|
            0 <= i < self.cancelled_tickets@.len() ==> (#[trigger] self.cancelled_tickets@[i])
                < self.issued_count())
        &&& (forall|i: int, j: int|
            0 <= i < j < self.cancelled_tickets@.len() ==> self.cancelled_tickets@[i]
                != self.cancelled_tickets@[j])
    }
}

/// A pool whose roster has reached capacity is marked `PoolFull` as long
/// as it has not completed: the lifecycle invariant leaves no other status
/// for a full roster.  Cancellation's contract gives the companion fact,
/// that cancelling any ticket from a full pool returns it to `Active`.
pub proof fn lemma_full_pool_status(pool: LotteryPool)
    requires
        pool.wf(),
        !(pool.status is Completed),
        pool.tickets_sold@.len() == pool.max_tickets,
    ensures
        pool.status is PoolFull,
{
}

/// A user's ticket ledger within one pool: created on first purchase,
/// emptied (and reclaimable) by cancellation.
#[derive(Clone, Debug, PartialEq, Eq)]
pub struct UserTicket {
    /// The owner of every ticket listed here.
    pub user: AccountId,
    /// The pool the tickets belong to.
    pub pool_id: u64,
    /// The owner's unretired tickets, in order of purchase.
    pub tickets: Vec<TicketDetails>,
}

impl UserTicket {
    /// A fresh, empty ledger for `user` in pool `pool_id`, made when the
    /// user first buys into the pool.
    pub fn new(user: AccountId, pool_id: u64) -> (r: UserTicket)
        ensures
            r.user == user,
            r.pool_id == pool_id,
            r.tickets@.len() == 0,
    {
        UserTicket { user, pool_id, tickets: Vec::new() }
    }
}

/// Consistency of a user's ledger with its pool: the ledger belongs to the
/// pool; it holds at most `MAX_TICKETS_PER_USER` tickets, and no more than
/// the roster lists for the user;
/// every held ticket was paid at the pool's price, carries a number the
/// pool has issued and not retired, and no number is held twice.
pub open spec fn holder_matches_pool(holder: UserTicket, pool: LotteryPool) -> bool {
    &&& holder.pool_id == pool.pool_id
    &&& holder.tickets@.len() <= MAX_TICKETS_PER_USER
    &&& holder.tickets@.len() <= count_of(pool.tickets_sold@, holder.user)
    &&& (forall|i: int|
        0 <= i < holder.tickets@.len() ==> (#[trigger] holder.tickets@[i]).amount_paid
            == pool.ticket_price)
    &&& (forall|i: int|
        0 <= i < holder.tickets@.len() ==> (#[trigger] holder.tickets@[i]).ticket_number
            < pool.issued_count())
    &&& (forall|i: int|
        0 <= i < holder.tickets@.len() ==> !pool.cancelled_tickets@.contains(
            (#[trigger] holder.tickets@[i]).ticket_number,
        ))
    &&& (forall|i: int, j: int|
        0 <= i < j < holder.tickets@.len() ==> holder.tickets@[i].ticket_number
            != holder.tickets@[j].ticket_number)
}

/// Immutable record of a completed draw, kept for auditing: everything
/// needed to recompute the selection and check the payout.
#[derive(Clone, Debug, PartialEq, Eq)]
pub struct DrawHistory {
    /// The pool this draw settled.
    pub pool_id: u64,
    /// Who won.
    pub winner: AccountId,
    /// What the winner was paid, after all fees.
    pub prize_amount: u64,
    /// Roster size at draw time.
    pub total_tickets: u64,
    /// When the draw happened.
    pub draw_timestamp: u64,
    /// Index into the roster that won.
    pub winning_ticket: u64,
    /// The 32 raw seed bytes the selection was computed from.
    pub random_seed: Vec<u8>,
}

} // verus!
