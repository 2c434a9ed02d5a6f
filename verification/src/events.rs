//! Observable notifications, one per state change, in emission order. The
//! ledger appends them to its log; the host shell publishes them to
//! external indexers, fire-and-forget.

use vstd::prelude::*;

verus! {

/// One notification, tagged with the record's identifier and carrying the
/// principals and amounts involved.
#[derive(Debug)]
pub enum EscrowEvent {
    /// A record was created and its deposit taken into custody.
    Created { id: u64, sender: u64, amount: i128, deadline: u64 },
    /// The sender approved the release.
    Approved { id: u64, sender: u64 },
    /// One recipient's share of a claim was paid out.
    SplitClaimed { id: u64, recipient: u64, amount: i128 },
    /// A claim completed; carries every recipient paid.
    Claimed { id: u64, recipients: Vec<u64> },
    /// The deposit was returned to the sender.
    Refunded { id: u64, sender: u64 },
}

/// The notification recorded when a record is created.
pub fn created(id: u64, sender: u64, amount: i128, deadline: u64) -> (e: EscrowEvent)
    ensures
        e == (EscrowEvent::Created { id, sender, amount, deadline }),
{
    EscrowEvent::Created { id, sender, amount, deadline }
}

/// The notification recorded when a record is approved.
pub fn approved(id: u64, sender: u64) -> (e: EscrowEvent)
    ensures
        e == (EscrowEvent::Approved { id, sender }),
{
    EscrowEvent::Approved { id, sender }
}

/// The notification recorded for one recipient's share of a claim.
pub fn split_claimed(id: u64, recipient: u64, amount: i128) -> (e: EscrowEvent)
    ensures
        e == (EscrowEvent::SplitClaimed { id, recipient, amount }),
{
    EscrowEvent::SplitClaimed { id, recipient, amount }
}

/// The notification recorded when a claim completes.
pub fn claimed(id: u64, recipients: Vec<u64>) -> (e: EscrowEvent)
    ensures
        e == (EscrowEvent::Claimed { id, recipients }),
{
    EscrowEvent::Claimed { id, recipients }
}

/// The notification recorded when a deposit is refunded.
pub fn refunded(id: u64, sender: u64) -> (e: EscrowEvent)
    ensures
        e == (EscrowEvent::Refunded { id, sender }),
{
    EscrowEvent::Refunded { id, sender }
}

} // verus!
