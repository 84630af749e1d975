//! Ticket cancellation and refund.

use vstd::prelude::*;

use crate::enums::PoolStatus;
use crate::errors::FortuneXError;
use crate::fees::{fee_amount, spec_fee};
use crate::roster::{
    find_first_account, lemma_count_contains, lemma_count_le_len, lemma_count_remove,
};
use crate::state::{holder_matches_pool, GlobalState, LotteryPool, TicketDetails, UserTicket};
use vstd::arithmetic::mul::lemma_mul_inequality;

verus! {

/// What a cancellation settles: the ticket's original payment, split into
/// the platform's cancellation fee and the holder's refund.  The fee is
/// carved out of the pooled funds, not charged on top, so the two parts
/// always sum to the original payment.
#[derive(Clone, Copy, Debug, PartialEq, Eq, Structural)]
pub struct CancelReceipt {
    /// What the ticket originally cost; the prize pool shrinks by this.
    pub amount_paid: u64,
    /// The platform's share, `fee(amount_paid, platform_fee_bps)`.
    pub cancellation_fee: u64,
    /// What the holder gets back: the payment less the fee.
    pub refund_amount: u64,
}

/// Whether `holder`'s ledger lists a ticket numbered `n`.
pub open spec fn holds_ticket(holder: UserTicket, n: u64) -> bool {
    exists|i: int| 0 <= i < holder.tickets@.len() && holder.tickets@[i].ticket_number == n
}

/// Finds the first ledger entry with ticket number `n`.
fn find_ticket(tickets: &Vec<TicketDetails>, n: u64) -> (r: Option<usize>)
    ensures
        match r {
            Some(i) => {
                &&& i < tickets@.len()
                &&& tickets@[i as int].ticket_number == n
                &&& forall|j: int| 0 <= j < i ==> tickets@[j].ticket_number != n
            },
            None => forall|j: int| 0 <= j < tickets@.len() ==> tickets@[j].ticket_number != n,
        },
{
    let mut i: usize = 0;
    while i < tickets.len()
        invariant
            i <= tickets@.len(),
            forall|j: int| 0 <= j < i ==> tickets@[j].ticket_number != n,
        decreases tickets@.len() - i,
    {
        if tickets[i].ticket_number == n {
            return Some(i);
        }
        i = i + 1;
    }
    None
}

/// Cancels the ticket numbered `ticket_number` held by the owner of
/// `user_ticket`, as long as the pool has not completed.
///
/// The ticket leaves the holder's ledger, its number is retired, one
/// occurrence of the holder leaves the roster (the oldest), and the prize
/// pool shrinks by the ticket's full original payment.  The host is
/// expected to pay the returned refund to the holder and the returned fee
/// to the platform wallet, which together account for exactly that
/// payment.  A full pool that loses a ticket reopens as `Active`.
pub fn cancel_ticket(
    global: &GlobalState,
    pool: &mut LotteryPool,
    user_ticket: &mut UserTicket,
    ticket_number: u64,
) -> (r: Result<CancelReceipt, FortuneXError>)
    requires
        global.wf(),
        old(pool).wf(),
        holder_matches_pool(*old(user_ticket), *old(pool)),
    ensures
        final(pool).wf(),
        holder_matches_pool(*final(user_ticket), *final(pool)),
        final(user_ticket).user == old(user_ticket).user,
        final(user_ticket).pool_id == old(user_ticket).pool_id,
        final(pool).same_config(*old(pool)),
        final(pool).draw_time == old(pool).draw_time,
        final(pool).winner == old(pool).winner,
        r is Ok <==> (!(old(pool).status is Completed) && holds_ticket(
            *old(user_ticket),
            ticket_number,
        )),
        old(pool).status is Completed ==> r == Err::<CancelReceipt, FortuneXError>(
            FortuneXError::PoolNotActive,
        ),
        !(old(pool).status is Completed) && !holds_ticket(*old(user_ticket), ticket_number) ==> r
            == Err::<CancelReceipt, FortuneXError>(FortuneXError::TicketNotFound),
        r is Err ==> *final(pool) == *old(pool) && *final(user_ticket) == *old(user_ticket),
        r matches Ok(receipt) ==> {
            &&& receipt.amount_paid == old(pool).ticket_price
            &&& receipt.cancellation_fee == spec_fee(
                receipt.amount_paid as int,
                global.platform_fee_bps as int,
            )
            &&& receipt.refund_amount + receipt.cancellation_fee == receipt.amount_paid
            &&& final(pool).prize_pool == old(pool).prize_pool - receipt.amount_paid
            &&& exists|i: int|
                0 <= i < old(user_ticket).tickets@.len() && old(
                    user_ticket,
                ).tickets@[i].ticket_number == ticket_number && final(user_ticket).tickets@ == old(
                    user_ticket,
                ).tickets@.remove(i)
            &&& final(user_ticket).tickets@.len() == old(user_ticket).tickets@.len() - 1
            &&& final(pool).tickets_sold@ == old(pool).tickets_sold@.remove_value(
                old(user_ticket).user,
            )
            &&& final(pool).tickets_sold@.len() == old(pool).tickets_sold@.len() - 1
            &&& final(pool).cancelled_tickets@ == old(pool).cancelled_tickets@.push(ticket_number)
            &&& final(pool).status == (if old(pool).status is PoolFull {
                PoolStatus::Active
            } else {
                old(pool).status
            })
            &&& final(pool).issued_count() == old(pool).issued_count()
        },
{
    if matches!(pool.status, PoolStatus::Completed) {
        return Err(FortuneXError::PoolNotActive);
    }
    let idx = match find_ticket(&user_ticket.tickets, ticket_number) {
        Some(i) => i,
        None => {
            return Err(FortuneXError::TicketNotFound);
        },
    };
    let cancelled_ticket = user_ticket.tickets[idx];
    let amount_paid = cancelled_ticket.amount_paid;
    let cancellation_fee = fee_amount(amount_paid, global.platform_fee_bps);
    let refund_amount = amount_paid - cancellation_fee;
    let user = user_ticket.user;
    let ghost tickets0 = user_ticket.tickets@;
    let ghost sold0 = pool.tickets_sold@;
    let ghost cancelled0 = pool.cancelled_tickets@;
    proof {
        lemma_count_le_len(sold0, user);
        lemma_count_contains(sold0, user);
    }
    user_ticket.tickets.remove(idx);
    let pos = match find_first_account(&pool.tickets_sold, user) {
        Some(p) => p,
        None => {
            proof {
                let j = choose|j: int| 0 <= j < sold0.len() && sold0[j] == user;
                assert(false);
            }
            return Err(FortuneXError::TicketNotFound);
        },
    };
    proof {
        sold0.index_of_first_ensures(user);
        let k = sold0.index_of_first(user).unwrap();
        assert(k == pos as int) by {
            if k < pos as int {
                assert(sold0[k] == user);
            }
            if k > pos as int {
                assert(sold0[pos as int] == user);
            }
        }
        lemma_count_remove(sold0, pos as int, user);
        lemma_mul_inequality(1, sold0.len() as int, pool.ticket_price as int);
    }
    pool.tickets_sold.remove(pos);
    pool.prize_pool = pool.prize_pool - amount_paid;
    pool.cancelled_tickets.push(ticket_number);
    if matches!(pool.status, PoolStatus::PoolFull) {
        pool.status = PoolStatus::Active;
    }
    proof {
        let len0 = sold0.len() as int;
        let price = pool.ticket_price;
        assert(len0 * price - price == (len0 - 1) * price) by (nonlinear_arith);
        tickets0.remove_ensures(idx as int);
        assert forall|a: int, b: int|
            0 <= a < b < user_ticket.tickets@.len() implies user_ticket.tickets@[a].ticket_number
            != user_ticket.tickets@[b].ticket_number by {
            let a0: int = if a < idx { a } else { a + 1 };
            let b0: int = if b < idx { b } else { b + 1 };
            assert(user_ticket.tickets@[a] == tickets0[a0]);
            assert(user_ticket.tickets@[b] == tickets0[b0]);
        }
        assert forall|a: int|
            0 <= a < user_ticket.tickets@.len() implies !pool.cancelled_tickets@.contains(
            (user_ticket.tickets@[a]).ticket_number,
        ) by {
            let a0: int = if a < idx { a } else { a + 1 };
            assert(user_ticket.tickets@[a] == tickets0[a0]);
            let m = tickets0[a0].ticket_number;
            assert(m != ticket_number);
            if pool.cancelled_tickets@.contains(m) {
                let k = choose|k: int|
                    0 <= k < pool.cancelled_tickets@.len() && pool.cancelled_tickets@[k] == m;
                assert(pool.cancelled_tickets@[k] == cancelled0.push(ticket_number)[k]);
                if k < cancelled0.len() {
                    assert(cancelled0.contains(m));
                }
            }
        }
        assert forall|a: int|
            0 <= a < user_ticket.tickets@.len() implies (#[trigger] user_ticket.tickets@[a]).amount_paid
            == pool.ticket_price && user_ticket.tickets@[a].ticket_number < pool.issued_count() by {
            let a0: int = if a < idx { a } else { a + 1 };
            assert(user_ticket.tickets@[a] == tickets0[a0]);
        }
        assert forall|a: int, b: int|
            0 <= a < b < pool.cancelled_tickets@.len() implies pool.cancelled_tickets@[a]
            != pool.cancelled_tickets@[b] by {
            if b < cancelled0.len() {
                assert(pool.cancelled_tickets@[a] == cancelled0[a]);
                assert(pool.cancelled_tickets@[b] == cancelled0[b]);
            } else {
                assert(pool.cancelled_tickets@[b] == ticket_number);
                assert(pool.cancelled_tickets@[a] == cancelled0[a]);
                if cancelled0[a] == ticket_number {
                    assert(cancelled0.contains(ticket_number));
                }
            }
        }
        assert(pool.tickets_sold@ == sold0.remove_value(user));
    }
    Ok(CancelReceipt { amount_paid, cancellation_fee, refund_amount })
}

} // verus!
