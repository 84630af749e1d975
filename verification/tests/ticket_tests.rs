use fortunex::{
    buy_ticket, cancel_ticket, initialize, initialize_pool, AccountId, FortuneXError, GlobalState,
    LotteryPool, PoolStatus, UserTicket,
};

const PRICE: u64 = 10_000_000;

fn registry() -> GlobalState {
    initialize(AccountId(1), AccountId(2), AccountId(3), 100, 100).unwrap()
}

fn pool(g: &mut GlobalState, min: u64, max: u64) -> LotteryPool {
    initialize_pool(g, AccountId(1), PRICE, min, max, 3600, 1_000).unwrap()
}

#[test]
fn initialize_pool_sets_fields() {
    let mut g = registry();
    let p = pool(&mut g, 2, 10);
    assert_eq!(p.pool_id, 0);
    assert_eq!(p.status, PoolStatus::Active);
    assert_eq!(p.prize_pool, 0);
    assert_eq!(p.ticket_price, PRICE);
    assert_eq!(p.min_tickets, 2);
    assert_eq!(p.max_tickets, 10);
    assert_eq!(p.draw_interval, 3600);
    assert_eq!(p.draw_time, 4_600);
    assert_eq!(p.created_at, 1_000);
    assert_eq!(p.winner, None);
    assert_eq!(p.commission_bps, 0);
    assert_eq!(p.creator, AccountId(1));
    assert!(p.tickets_sold.is_empty());
    assert!(p.cancelled_tickets.is_empty());
    assert_eq!(g.pools_count, 1);
    let p2 = pool(&mut g, 2, 10);
    assert_eq!(p2.pool_id, 1);
    assert_eq!(g.pools_count, 2);
}

#[test]
fn initialize_pool_validation_errors() {
    let mut g = registry();
    assert_eq!(
        initialize_pool(&mut g, AccountId(1), 0, 1, 10, 3600, 0).unwrap_err(),
        FortuneXError::InvalidTicketPrice
    );
    assert_eq!(
        initialize_pool(&mut g, AccountId(1), PRICE, 1, 0, 3600, 0).unwrap_err(),
        FortuneXError::InvalidMaxTickets
    );
    assert_eq!(
        initialize_pool(&mut g, AccountId(1), PRICE, 11, 10, 3600, 0).unwrap_err(),
        FortuneXError::InvalidMinMaxTickets
    );
    assert_eq!(
        initialize_pool(&mut g, AccountId(1), PRICE, 0, 10, 3600, 0).unwrap_err(),
        FortuneXError::InvalidMinMaxTickets
    );
    assert_eq!(
        initialize_pool(&mut g, AccountId(1), PRICE, 1, 10, 0, 0).unwrap_err(),
        FortuneXError::InvalidDrawInterval
    );
    assert_eq!(
        initialize_pool(&mut g, AccountId(9), PRICE, 1, 10, 3600, 0).unwrap_err(),
        FortuneXError::CreatorNotWhitelisted
    );
    assert_eq!(
        initialize_pool(&mut g, AccountId(1), PRICE, 1, 10, u64::MAX, 1).unwrap_err(),
        FortuneXError::Overflow
    );
    assert_eq!(g.pools_count, 0);
}

#[test]
fn purchase_grows_prize_by_quantity_times_price() {
    let mut g = registry();
    let mut p = pool(&mut g, 2, 10);
    let user = AccountId(7);
    let mut ut = UserTicket::new(user, p.pool_id);
    let total = buy_ticket(&mut p, &mut ut, 3, 1_000_000_000, 2_000).unwrap();
    assert_eq!(total, 3 * PRICE);
    assert_eq!(p.prize_pool, 3 * PRICE);
    assert_eq!(p.tickets_sold, vec![user, user, user]);
    assert_eq!(p.status, PoolStatus::Active);
    assert_eq!(ut.tickets.len(), 3);
    for (i, t) in ut.tickets.iter().enumerate() {
        assert_eq!(t.ticket_number, i as u64);
        assert_eq!(t.amount_paid, PRICE);
        assert_eq!(t.timestamp, 2_000);
    }
}

#[test]
fn ticket_numbers_strictly_increase_and_are_never_reused() {
    let mut g = registry();
    let mut p = pool(&mut g, 2, 10);
    let user = AccountId(7);
    let mut ut = UserTicket::new(user, p.pool_id);
    buy_ticket(&mut p, &mut ut, 3, 1_000_000_000, 2_000).unwrap();
    // retire ticket 1, then buy again: the retired number must not come back
    cancel_ticket(&g, &mut p, &mut ut, 1).unwrap();
    buy_ticket(&mut p, &mut ut, 2, 1_000_000_000, 2_500).unwrap();
    let numbers: Vec<u64> = ut.tickets.iter().map(|t| t.ticket_number).collect();
    assert_eq!(numbers, vec![0, 2, 3, 4]);
    assert_eq!(p.cancelled_tickets, vec![1]);
}

#[test]
fn purchase_error_cases() {
    let mut g = registry();
    let mut p = pool(&mut g, 2, 4);
    let user = AccountId(7);
    let mut ut = UserTicket::new(user, p.pool_id);
    assert_eq!(
        buy_ticket(&mut p, &mut ut, 0, 1_000_000_000, 2_000).unwrap_err(),
        FortuneXError::InvalidTicketQuantity
    );
    assert_eq!(
        buy_ticket(&mut p, &mut ut, 5, 1_000_000_000, 2_000).unwrap_err(),
        FortuneXError::PoolFull
    );
    assert_eq!(
        buy_ticket(&mut p, &mut ut, 2, 2 * PRICE - 1, 2_000).unwrap_err(),
        FortuneXError::InsufficientFunds
    );
    assert_eq!(p.prize_pool, 0);
    assert!(ut.tickets.is_empty());
    // fill the pool; further purchases find it not active
    buy_ticket(&mut p, &mut ut, 4, 1_000_000_000, 2_000).unwrap();
    assert_eq!(p.status, PoolStatus::PoolFull);
    assert_eq!(
        buy_ticket(&mut p, &mut ut, 1, 1_000_000_000, 2_000).unwrap_err(),
        FortuneXError::PoolNotActive
    );
}

#[test]
fn purchase_overflow_is_refused() {
    let mut g = registry();
    let mut p = initialize_pool(&mut g, AccountId(1), u64::MAX, 1, 10, 3600, 0).unwrap();
    let user = AccountId(7);
    let mut ut = UserTicket::new(user, p.pool_id);
    assert_eq!(
        buy_ticket(&mut p, &mut ut, 2, u64::MAX, 2_000).unwrap_err(),
        FortuneXError::Overflow
    );
    assert_eq!(p.prize_pool, 0);
    // one ticket at the maximum price still fits exactly
    let total = buy_ticket(&mut p, &mut ut, 1, u64::MAX, 2_000).unwrap();
    assert_eq!(total, u64::MAX);
    assert_eq!(p.prize_pool, u64::MAX);
    // the pool now holds the largest representable prize; one more would overflow
    let mut ut2 = UserTicket::new(AccountId(8), p.pool_id);
    assert_eq!(
        buy_ticket(&mut p, &mut ut2, 1, u64::MAX, 2_000).unwrap_err(),
        FortuneXError::Overflow
    );
}

#[test]
fn cancellation_returns_payment_less_fee() {
    let mut g = registry();
    let mut p = pool(&mut g, 2, 10);
    let user = AccountId(7);
    let mut ut = UserTicket::new(user, p.pool_id);
    buy_ticket(&mut p, &mut ut, 2, 1_000_000_000, 2_000).unwrap();
    let receipt = cancel_ticket(&g, &mut p, &mut ut, 0).unwrap();
    assert_eq!(receipt.amount_paid, PRICE);
    assert_eq!(receipt.cancellation_fee, 100_000);
    assert_eq!(receipt.refund_amount, 9_900_000);
    assert_eq!(receipt.refund_amount + receipt.cancellation_fee, receipt.amount_paid);
    // the prize shrinks by the full original payment, not the net refund
    assert_eq!(p.prize_pool, PRICE);
    assert_eq!(p.tickets_sold, vec![user]);
    assert_eq!(p.cancelled_tickets, vec![0]);
    assert_eq!(ut.tickets.len(), 1);
    assert_eq!(ut.tickets[0].ticket_number, 1);
}

#[test]
fn cancelling_unfills_a_full_pool() {
    let mut g = registry();
    let mut p = pool(&mut g, 1, 3);
    let user = AccountId(7);
    let mut ut = UserTicket::new(user, p.pool_id);
    buy_ticket(&mut p, &mut ut, 3, 1_000_000_000, 2_000).unwrap();
    assert_eq!(p.status, PoolStatus::PoolFull);
    cancel_ticket(&g, &mut p, &mut ut, 2).unwrap();
    assert_eq!(p.status, PoolStatus::Active);
    assert_eq!(p.tickets_sold.len(), 2);
    // room again: buying works and fills the pool once more
    buy_ticket(&mut p, &mut ut, 1, 1_000_000_000, 2_500).unwrap();
    assert_eq!(p.status, PoolStatus::PoolFull);
}

#[test]
fn cancel_unknown_ticket_fails() {
    let mut g = registry();
    let mut p = pool(&mut g, 2, 10);
    let user = AccountId(7);
    let mut ut = UserTicket::new(user, p.pool_id);
    buy_ticket(&mut p, &mut ut, 1, 1_000_000_000, 2_000).unwrap();
    assert_eq!(
        cancel_ticket(&g, &mut p, &mut ut, 5).unwrap_err(),
        FortuneXError::TicketNotFound
    );
    // cancelling the same ticket twice fails the second time
    cancel_ticket(&g, &mut p, &mut ut, 0).unwrap();
    assert_eq!(
        cancel_ticket(&g, &mut p, &mut ut, 0).unwrap_err(),
        FortuneXError::TicketNotFound
    );
    assert_eq!(p.prize_pool, 0);
}

#[test]
fn one_user_holds_at_most_one_hundred_tickets() {
    let mut g = registry();
    let mut p = initialize_pool(&mut g, AccountId(1), 10, 1, 500, 3600, 1_000).unwrap();
    let user = AccountId(7);
    let mut ut = UserTicket::new(user, p.pool_id);
    buy_ticket(&mut p, &mut ut, 100, 1_000_000_000, 2_000).unwrap();
    assert_eq!(ut.tickets.len(), 100);
    assert_eq!(
        buy_ticket(&mut p, &mut ut, 1, 1_000_000_000, 2_000).unwrap_err(),
        FortuneXError::InvalidTicketQuantity
    );
    // another user still has room, and a cancellation reopens the ledger
    let mut ut2 = UserTicket::new(AccountId(8), p.pool_id);
    buy_ticket(&mut p, &mut ut2, 1, 1_000_000_000, 2_000).unwrap();
    cancel_ticket(&g, &mut p, &mut ut, 0).unwrap();
    buy_ticket(&mut p, &mut ut, 1, 1_000_000_000, 2_500).unwrap();
    assert_eq!(ut.tickets.len(), 100);
}
