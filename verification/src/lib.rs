//! A custodial escrow ledger, verified.
//!
//! A sender deposits a fixed amount of one asset naming recipients with
//! percentage shares; a second step approves the release; the deposit is
//! then either claimed — split among the recipients by their shares — or,
//! once the deadline has passed, refunded to the sender. The library is
//! the state machine alone: record lifecycle, authorization checks
//! against an already-authenticated caller, deadline arithmetic, and the
//! split-payout computation, with the whole behaviour stated in the
//! contracts. Moving real value, persisting records durably, publishing
//! notifications to observers and authenticating principals are a host
//! shell's work: the ledger hands it payout instructions and a
//! notification log, and is verified for every outcome of those
//! collaborators.

mod data;
mod events;
mod payout;
mod record;
mod ledger;
mod laws;

pub use data::{
    EscrowData, Error, STATUS_PENDING, STATUS_APPROVED, STATUS_CLAIMED, STATUS_REFUNDED,
    sum_pcts, total_pct, spec_is_recipient, record_wf, same_data, with_status,
    total_percentage, is_recipient, copy_pairs, copy_record,
};
pub use events::{EscrowEvent, created, approved, split_claimed, claimed, refunded};
pub use payout::{
    share_of, sum_shares, sum_payouts, payouts_match, compute_share, lemma_share_bounds,
    lemma_payout_conservation,
};
pub use record::{
    create_allowed, approve_allowed, claim_allowed, refund_allowed,
    approve_check, claim_check, refund_check,
    new_record, approve_record, claim_record, refund_record,
};
pub use ledger::{
    Escrow, DataKey, StoreValue, created_ids, received_ids, entry_ids, claim_events_match,
};
pub use laws::{
    lemma_percentage_rule, lemma_identifier_monotonicity, lemma_state_ordering,
    lemma_deadline_gating, lemma_create_extends_indexes,
};
