//! Pooled-lottery settlement and ledger-state core.
//!
//! Participants buy fixed-price tickets into a bounded pool; once the pool's
//! draw conditions are met, a deterministic selector picks a winning ticket
//! and the pooled funds are split between the winner, the platform, a bonus
//! reserve, and the pool's creator.  This crate owns the pool lifecycle state
//! machine, the per-user ticket ledger with cancellation refunds, the winner
//! selection algorithm, and the fee arithmetic.  Account storage, signature
//! checks, and the token transfers that move value between balances are left
//! to the surrounding host: every operation here works on plain values and
//! reports the exact transfers the host must apply.

pub mod buy_ticket;
pub mod cancel_ticket;
pub mod constants;
pub mod draw_winner;
pub mod enums;
pub mod errors;
pub mod fees;
pub mod initialize;
pub mod initialize_pool;
pub mod roster;
pub mod state;
pub mod update_global_state;
pub mod update_whitelist;

pub use buy_ticket::{buy_ticket, issued_batch, lemma_ticket_number_fresh};
pub use cancel_ticket::{cancel_ticket, holds_ticket, CancelReceipt};
pub use constants::{
    BPS_DENOMINATOR, DEFAULT_COMMISSION_BPS, MAX_BONUS_POOL_FEE_BPS, MAX_CREATORS,
    MAX_PLATFORM_FEE_BPS,
};
pub use draw_winner::{
    build_seed, draw_winner, lemma_select_deterministic, select_winner, spec_seed, spec_select,
    spec_winning_index, DrawOutcome, SettlementPlan,
};
pub use enums::PoolStatus;
pub use errors::FortuneXError;
pub use fees::{fee_amount, lemma_fee_monotonic, lemma_fee_within_total, spec_fee};
pub use initialize::initialize;
pub use initialize_pool::initialize_pool;
pub use roster::count_of;
pub use state::{
    holder_matches_pool, lemma_full_pool_status, AccountId, DrawHistory, GlobalState, LotteryPool, TicketDetails,
    UserTicket,
};
pub use update_global_state::{update_global_state, UpdateGlobalStateArgs};
pub use update_whitelist::update_whitelist;
