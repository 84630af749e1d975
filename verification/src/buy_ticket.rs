//! Ticket purchase.

use vstd::prelude::*;

use crate::constants::MAX_TICKETS_PER_USER;
use crate::enums::PoolStatus;
use crate::errors::FortuneXError;
use crate::roster::{count_of, lemma_count_push};
use crate::state::{holder_matches_pool, LotteryPool, TicketDetails, UserTicket};
use vstd::arithmetic::mul::lemma_mul_inequality;

verus! {

/// The tickets a purchase of `quantity` tickets appends to the buyer's
/// ledger when the pool has issued `start` numbers so far: consecutively
/// numbered from `start`, each paid at `price`, each stamped `now`.
pub open spec fn issued_batch(start: int, quantity: int, price: u64, now: u64) -> Seq<
    TicketDetails,
> {
    Seq::new(
        quantity as nat,
        |i: int|
            TicketDetails { ticket_number: (start + i) as u64, amount_paid: price, timestamp: now },
    )
}

/// A number the pool has not issued yet is fresh: it is not retired, and no
/// ledger consistent with the pool holds it.  Together with the purchase
/// contract — new tickets are numbered from the issue count, which never
/// decreases — this means ticket numbers are never reused, even after
/// intervening cancellations.
pub proof fn lemma_ticket_number_fresh(pool: LotteryPool, holder: UserTicket, n: u64)
    requires
        pool.wf(),
        holder_matches_pool(holder, pool),
        n >= pool.issued_count(),
    ensures
        !pool.cancelled_tickets@.contains(n),
        forall|i: int| 0 <= i < holder.tickets@.len() ==> holder.tickets@[i].ticket_number != n,
{
    if pool.cancelled_tickets@.contains(n) {
        let k = choose|k: int|
            0 <= k < pool.cancelled_tickets@.len() && pool.cancelled_tickets@[k] == n;
    }
    assert forall|i: int| 0 <= i < holder.tickets@.len() implies holder.tickets@[i].ticket_number
        != n by {
        assert(holder.tickets@[i].ticket_number < pool.issued_count());
    }
}

/// Buys `quantity` tickets in `pool` for the owner of `user_ticket`.
///
/// The pool must be `Active` with room for the whole batch, the batch must
/// not push the buyer's ledger past `MAX_TICKETS_PER_USER`, and the payer's
/// balance must cover `quantity` tickets at the pool's price; the host is
/// expected to move exactly the returned total from the payer into the
/// pool's vault.  On success the batch is appended to the buyer's ledger
/// with consecutive, never-reused ticket numbers, the buyer is listed once
/// per ticket on the roster, the prize grows by the total paid, and the
/// pool becomes `PoolFull` exactly when the batch reaches capacity.  Any
/// amount that would not fit in 64 bits refuses the purchase whole.
#[verifier::loop_isolation(false)]
pub fn buy_ticket(
    pool: &mut LotteryPool,
    user_ticket: &mut UserTicket,
    quantity: u64,
    payer_balance: u64,
    now: u64,
) -> (r: Result<u64, FortuneXError>)
    requires
        old(pool).wf(),
        holder_matches_pool(*old(user_ticket), *old(pool)),
    ensures
        final(pool).wf(),
        holder_matches_pool(*final(user_ticket), *final(pool)),
        final(user_ticket).user == old(user_ticket).user,
        final(user_ticket).pool_id == old(user_ticket).pool_id,
        final(pool).same_config(*old(pool)),
        final(pool).draw_time == old(pool).draw_time,
        final(pool).winner == old(pool).winner,
        final(pool).cancelled_tickets@ == old(pool).cancelled_tickets@,
        r is Ok <==> (quantity > 0 && old(pool).status is Active && old(
            pool,
        ).tickets_sold@.len() + quantity <= old(pool).max_tickets && old(
            user_ticket,
        ).tickets@.len() + quantity <= MAX_TICKETS_PER_USER && old(pool).ticket_price
            * quantity <= u64::MAX && old(pool).prize_pool + old(pool).ticket_price * quantity
            <= u64::MAX && old(pool).issued_count() + quantity <= u64::MAX && payer_balance >= old(
            pool,
        ).ticket_price * quantity),
        r is Err ==> *final(pool) == *old(pool) && *final(user_ticket) == *old(user_ticket),
        quantity == 0 ==> r == Err::<u64, FortuneXError>(FortuneXError::InvalidTicketQuantity),
        quantity > 0 && !(old(pool).status is Active) ==> r == Err::<u64, FortuneXError>(
            FortuneXError::PoolNotActive,
        ),
        quantity > 0 && old(pool).status is Active && old(pool).tickets_sold@.len()
            + quantity > old(pool).max_tickets ==> r == Err::<u64, FortuneXError>(
            FortuneXError::PoolFull,
        ),
        quantity > 0 && old(pool).status is Active && old(pool).tickets_sold@.len()
            + quantity <= old(pool).max_tickets && old(user_ticket).tickets@.len() + quantity
            > MAX_TICKETS_PER_USER ==> r == Err::<u64, FortuneXError>(
            FortuneXError::InvalidTicketQuantity,
        ),
        quantity > 0 && old(pool).status is Active && old(pool).tickets_sold@.len()
            + quantity <= old(pool).max_tickets && old(user_ticket).tickets@.len() + quantity
            <= MAX_TICKETS_PER_USER && (old(pool).ticket_price * quantity > u64::MAX
            || old(pool).prize_pool + old(pool).ticket_price * quantity > u64::MAX || old(
            pool,
        ).issued_count() + quantity > u64::MAX) ==> r == Err::<u64, FortuneXError>(
            FortuneXError::Overflow,
        ),
        quantity > 0 && old(pool).status is Active && old(pool).tickets_sold@.len()
            + quantity <= old(pool).max_tickets && old(user_ticket).tickets@.len() + quantity
            <= MAX_TICKETS_PER_USER && old(pool).ticket_price * quantity <= u64::MAX
            && old(pool).prize_pool + old(pool).ticket_price * quantity <= u64::MAX && old(
            pool,
        ).issued_count() + quantity <= u64::MAX && payer_balance < old(pool).ticket_price * quantity
            ==> r == Err::<u64, FortuneXError>(FortuneXError::InsufficientFunds),
        r matches Ok(total) ==> {
            &&& total == old(pool).ticket_price * quantity
            &&& final(pool).tickets_sold@ == old(pool).tickets_sold@ + Seq::new(
                quantity as nat,
                |i: int| old(user_ticket).user,
            )
            &&& final(user_ticket).tickets@ == old(user_ticket).tickets@ + issued_batch(
                old(pool).issued_count(),
                quantity as int,
                old(pool).ticket_price,
                now,
            )
            &&& final(pool).prize_pool == old(pool).prize_pool + total
            &&& final(pool).status == (if old(pool).tickets_sold@.len() + quantity == old(
                pool,
            ).max_tickets {
                PoolStatus::PoolFull
            } else {
                PoolStatus::Active
            })
            &&& final(pool).issued_count() == old(pool).issued_count() + quantity
        },
{
    if quantity == 0 {
        return Err(FortuneXError::InvalidTicketQuantity);
    }
    if !matches!(pool.status, PoolStatus::Active) {
        return Err(FortuneXError::PoolNotActive);
    }
    let sold_len: u64 = pool.tickets_sold.len() as u64;
    let cancelled_len: u64 = pool.cancelled_tickets.len() as u64;
    if quantity > pool.max_tickets || sold_len > pool.max_tickets - quantity {
        return Err(FortuneXError::PoolFull);
    }
    let held: u64 = user_ticket.tickets.len() as u64;
    if quantity > MAX_TICKETS_PER_USER || held > MAX_TICKETS_PER_USER - quantity {
        return Err(FortuneXError::InvalidTicketQuantity);
    }
    let price = pool.ticket_price;
    proof {
        assert((price as int) * (quantity as int) <= (u64::MAX as int) * (u64::MAX as int))
            by (nonlinear_arith)
            requires
                price <= u64::MAX,
                quantity <= u64::MAX,
        ;
    }
    let wide_total: u128 = (price as u128) * (quantity as u128);
    if wide_total > u64::MAX as u128 {
        return Err(FortuneXError::Overflow);
    }
    let total: u64 = wide_total as u64;
    if total > u64::MAX - pool.prize_pool {
        return Err(FortuneXError::Overflow);
    }
    if (sold_len as u128) + (cancelled_len as u128) + (quantity as u128) > u64::MAX as u128 {
        return Err(FortuneXError::Overflow);
    }
    if payer_balance < total {
        return Err(FortuneXError::InsufficientFunds);
    }
    proof {
        assert(quantity * price == price * quantity) by (nonlinear_arith);
        assert(total == quantity * price);
    }
    let user = user_ticket.user;
    let ghost sold0 = pool.tickets_sold@;
    let ghost tickets0 = user_ticket.tickets@;
    let ghost prize0 = pool.prize_pool;
    let ghost issued0 = pool.issued_count();
    let ghost count0 = count_of(sold0, user);
    let mut i: u64 = 0;
    while i < quantity
        invariant
            i <= quantity,
            prize0 + quantity * price <= u64::MAX,
            pool.tickets_sold@ == sold0 + Seq::new(i as nat, |j: int| user),
            user_ticket.tickets@ == tickets0 + issued_batch(issued0, i as int, price, now),
            pool.prize_pool == prize0 + i * price,
            count_of(pool.tickets_sold@, user) == count0 + i,
            pool.status == old(pool).status,
            pool.cancelled_tickets@ == old(pool).cancelled_tickets@,
            pool.same_config(*old(pool)),
            pool.draw_time == old(pool).draw_time,
            pool.winner == old(pool).winner,
            user_ticket.user == old(user_ticket).user,
            user_ticket.pool_id == old(user_ticket).pool_id,
        decreases quantity - i,
    {
        proof {
            lemma_mul_inequality(i + 1, quantity as int, price as int);
            assert((i + 1) * price == i * price + price) by (nonlinear_arith);
        }
        let number: u64 = pool.tickets_sold.len() as u64 + cancelled_len;
        let ticket = TicketDetails { ticket_number: number, amount_paid: price, timestamp: now };
        user_ticket.tickets.push(ticket);
        proof {
            lemma_count_push(pool.tickets_sold@, user, user);
            assert(tickets0 + issued_batch(issued0, i + 1, price, now) =~= (tickets0
                + issued_batch(issued0, i as int, price, now)).push(ticket));
            assert(sold0 + Seq::new((i + 1) as nat, |j: int| user) =~= (sold0 + Seq::new(
                i as nat,
                |j: int| user,
            )).push(user));
        }
        pool.tickets_sold.push(user);
        pool.prize_pool = pool.prize_pool + price;
        i = i + 1;
    }
    if pool.tickets_sold.len() as u64 == pool.max_tickets {
        pool.status = PoolStatus::PoolFull;
    }
    proof {
        let len0 = sold0.len() as int;
        assert((len0 + quantity) * price == len0 * price + quantity * price) by (nonlinear_arith);
        assert forall|a: int, b: int|
            0 <= a < b < user_ticket.tickets@.len() implies user_ticket.tickets@[a].ticket_number
            != user_ticket.tickets@[b].ticket_number by {
            if b >= tickets0.len() {
                assert(user_ticket.tickets@[b].ticket_number == issued0 + (b - tickets0.len()));
                if a < tickets0.len() {
                    assert(user_ticket.tickets@[a].ticket_number < issued0);
                }
            }
        }
        assert forall|a: int|
            0 <= a < user_ticket.tickets@.len() implies !pool.cancelled_tickets@.contains(
            (user_ticket.tickets@[a]).ticket_number,
        ) by {
            if a >= tickets0.len() {
                let n = user_ticket.tickets@[a].ticket_number;
                assert(n >= issued0);
                if pool.cancelled_tickets@.contains(n) {
                    let k = choose|k: int|
                        0 <= k < pool.cancelled_tickets@.len() && pool.cancelled_tickets@[k] == n;
                    assert(pool.cancelled_tickets@[k] < issued0);
                }
            }
        }
    }
    Ok(total)
}

} // verus!
