//! The four transitions of one escrow record. Each is a total function
//! from the record, the already-authenticated caller and (where gated) the
//! current time to the next record state, an error, or payout
//! instructions; the host shell persists the record, moves the value and
//! publishes the notifications around these decisions.

use vstd::prelude::*;
use crate::data::{
    EscrowData, Error, STATUS_PENDING, STATUS_APPROVED, STATUS_CLAIMED, STATUS_REFUNDED,
    total_pct, spec_is_recipient, record_wf, with_status, total_percentage, is_recipient,
    lemma_pct_le_sum,
};
use crate::payout::{
    share_of, sum_payouts, sum_shares, payouts_match, compute_share,
    lemma_sum_payouts_matches, lemma_payout_conservation,
};

verus! {

/// What creation accepts: a positive amount, at least one recipient, and
/// percentages that sum to exactly 100.
pub open spec fn create_allowed(recipients: Seq<(u64, u32)>, amount: i128) -> bool {
    &&& amount > 0
    &&& recipients.len() > 0
    &&& total_pct(recipients) == 100
}

/// What approval admits: only the sender, only while the record is still
/// pending and unapproved.
pub open spec fn approve_allowed(d: EscrowData, caller: u64) -> bool {
    &&& caller == d.sender
    &&& d.status == STATUS_PENDING
    &&& !d.approved
}

/// The error approval reports, checked in order: authorization before
/// state.
pub open spec fn approve_check(d: EscrowData, caller: u64) -> Result<(), Error> {
    if caller != d.sender {
        Err(Error::Authorization)
    } else if !(d.status == STATUS_PENDING && !d.approved) {
        Err(Error::StateConflict)
    } else {
        Ok(())
    }
}

/// What a claim admits: any listed recipient, an approved record, and a
/// time no later than the deadline when one is set.
pub open spec fn claim_allowed(d: EscrowData, caller: u64, now: u64) -> bool {
    &&& spec_is_recipient(d.recipients@, caller)
    &&& d.approved
    &&& d.status == STATUS_APPROVED
    &&& (d.deadline == 0 || now <= d.deadline)
}

/// The error a claim reports, checked in order: membership, then state,
/// then the deadline gate.
pub open spec fn claim_check(d: EscrowData, caller: u64, now: u64) -> Result<(), Error> {
    if !spec_is_recipient(d.recipients@, caller) {
        Err(Error::Authorization)
    } else if !(d.approved && d.status == STATUS_APPROVED) {
        Err(Error::StateConflict)
    } else if !(d.deadline == 0 || now <= d.deadline) {
        Err(Error::StateConflict)
    } else {
        Ok(())
    }
}

/// What a refund admits: only the sender, only before the deposit left
/// custody, and only once the deadline has passed when one is set.
pub open spec fn refund_allowed(d: EscrowData, caller: u64, now: u64) -> bool {
    &&& caller == d.sender
    &&& (d.status == STATUS_PENDING || d.status == STATUS_APPROVED)
    &&& (d.deadline == 0 || now > d.deadline)
}

/// The error a refund reports, checked in order: authorization, then
/// state, then the deadline gate.
pub open spec fn refund_check(d: EscrowData, caller: u64, now: u64) -> Result<(), Error> {
    if caller != d.sender {
        Err(Error::Authorization)
    } else if !(d.status == STATUS_PENDING || d.status == STATUS_APPROVED) {
        Err(Error::StateConflict)
    } else if !(d.deadline == 0 || now > d.deadline) {
        Err(Error::StateConflict)
    } else {
        Ok(())
    }
}

/// Validate creation arguments and assemble the initial record: pending,
/// unapproved, holding exactly the given deposit.
pub fn new_record(
    sender: u64,
    recipients: Vec<(u64, u32)>,
    amount: i128,
    token: u64,
    created_at: u64,
    deadline: u64,
) -> (r: Result<EscrowData, Error>)
    ensures
        r is Ok <==> create_allowed(recipients@, amount),
        r matches Ok(d) ==> d == (EscrowData {
            sender,
            recipients,
            amount,
            token,
            created_at,
            deadline,
            approved: false,
            status: STATUS_PENDING,
        }) && record_wf(d),
        r is Err ==> r == Err::<EscrowData, Error>(Error::Validation),
{
    if amount <= 0 {
        return Err(Error::Validation);
    }
    if recipients.len() == 0 {
        return Err(Error::Validation);
    }
    let total = total_percentage(&recipients);
    if total != 100 {
        return Err(Error::Validation);
    }
    Ok(EscrowData {
        sender,
        recipients,
        amount,
        token,
        created_at,
        deadline,
        approved: false,
        status: STATUS_PENDING,
    })
}

/// Approve: sets the approval flag exactly once and moves the record from
/// Pending to Approved; anything else is refused and leaves the record as
/// it was.
pub fn approve_record(data: &mut EscrowData, caller: u64) -> (r: Result<(), Error>)
    requires
        record_wf(*old(data)),
    ensures
        record_wf(*final(data)),
        r == approve_check(*old(data), caller),
        r is Ok <==> approve_allowed(*old(data), caller),
        r is Ok ==> *final(data) == with_status(*old(data), true, STATUS_APPROVED),
        r is Err ==> *final(data) == *old(data),
{
    if caller != data.sender {
        return Err(Error::Authorization);
    }
    if !(data.status == STATUS_PENDING && !data.approved) {
        return Err(Error::StateConflict);
    }
    data.approved = true;
    data.status = STATUS_APPROVED;
    Ok(())
}

/// Claim: flips the record to Claimed before any payout instruction is
/// handed out (the double-claim guard) and returns one (recipient, share)
/// instruction per recipient in declaration order, each share the
/// truncating division `amount * percentage / 100`. The truncation
/// shortfall is in no instruction: it stays in custody.
pub fn claim_record(data: &mut EscrowData, caller: u64, now: u64) -> (r: Result<
    Vec<(u64, i128)>,
    Error,
>)
    requires
        record_wf(*old(data)),
    ensures
        record_wf(*final(data)),
        r is Ok <==> claim_allowed(*old(data), caller, now),
        r matches Ok(payouts) ==> {
            &&& *final(data) == with_status(*old(data), true, STATUS_CLAIMED)
            &&& payouts_match(old(data).amount, old(data).recipients@, payouts@)
            &&& sum_payouts(payouts@, payouts@.len() as int) == sum_shares(
                old(data).amount as int,
                old(data).recipients@,
                old(data).recipients@.len() as int,
            )
            &&& 0 <= sum_payouts(payouts@, payouts@.len() as int) <= old(data).amount
        },
        r matches Err(e) ==> claim_check(*old(data), caller, now) == Err::<(), Error>(e)
            && *final(data) == *old(data),
{
    if !is_recipient(&data.recipients, caller) {
        return Err(Error::Authorization);
    }
    if !(data.approved && data.status == STATUS_APPROVED) {
        return Err(Error::StateConflict);
    }
    if data.deadline > 0 && now > data.deadline {
        return Err(Error::StateConflict);
    }

    data.status = STATUS_CLAIMED;

    let amount = data.amount;
    let n = data.recipients.len();
    let mut payouts: Vec<(u64, i128)> = Vec::new();
    let mut i: usize = 0;
    while i < n
        invariant
            *data == with_status(*old(data), true, STATUS_CLAIMED),
            record_wf(*old(data)),
            amount == data.amount,
            amount > 0,
            n == data.recipients@.len(),
            i <= n,
            payouts@.len() == i,
            forall|k: int| 0 <= k < i ==> (#[trigger] payouts@[k]).0 == data.recipients@[k].0
                && payouts@[k].1 == share_of(amount as int, data.recipients@[k].1 as int),
        decreases n - i,
    {
        let (recipient, pct) = data.recipients[i];
        proof {
            lemma_pct_le_sum(data.recipients@, i as int, data.recipients@.len() as int);
        }
        let share = compute_share(amount, pct);
        payouts.push((recipient, share));
        i = i + 1;
    }
    proof {
        lemma_sum_payouts_matches(payouts@, amount as int, data.recipients@, n as int);
        lemma_payout_conservation(amount as int, data.recipients@);
    }
    Ok(payouts)
}

/// Refund: moves a record that has not yet paid out to Refunded, keeping
/// the approval flag as it was; the host shell then returns the full
/// deposit from custody to the sender.
pub fn refund_record(data: &mut EscrowData, caller: u64, now: u64) -> (r: Result<(), Error>)
    requires
        record_wf(*old(data)),
    ensures
        record_wf(*final(data)),
        r == refund_check(*old(data), caller, now),
        r is Ok <==> refund_allowed(*old(data), caller, now),
        r is Ok ==> *final(data) == with_status(*old(data), old(data).approved, STATUS_REFUNDED),
        r is Err ==> *final(data) == *old(data),
{
    if caller != data.sender {
        return Err(Error::Authorization);
    }
    if !(data.status == STATUS_PENDING || data.status == STATUS_APPROVED) {
        return Err(Error::StateConflict);
    }
    if !(data.deadline == 0 || now > data.deadline) {
        return Err(Error::StateConflict);
    }
    data.status = STATUS_REFUNDED;
    Ok(())
}

} // verus!
