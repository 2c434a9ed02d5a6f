//! The ledger's cross-cutting guarantees, each proved from the contracts
//! of the operations it speaks about: identifier monotonicity, the state
//! ordering of the transitions, and the deadline gate. Payout
//! conservation stands beside the arithmetic it is about, in `payout`.

use vstd::prelude::*;
use crate::data::{
    EscrowData, STATUS_PENDING, STATUS_APPROVED, STATUS_CLAIMED, STATUS_REFUNDED,
    spec_is_recipient,
};
use crate::record::{approve_allowed, claim_allowed, create_allowed, refund_allowed};
use crate::ledger::{Escrow, created_ids, entry_ids, received_ids};

verus! {

/// The percentage rule: with a positive amount, creation succeeds
/// exactly when the percentages sum to 100 — sums of 99 or 101 are
/// refused, and a sum of 100 already forces at least one recipient.
pub proof fn lemma_percentage_rule(recipients: Seq<(u64, u32)>, amount: i128)
    ensures
        create_allowed(recipients, amount) <==> amount > 0 && crate::data::total_pct(recipients)
            == 100,
{
    if recipients.len() == 0 {
        assert(crate::data::total_pct(recipients) == 0);
    }
}

/// The created-index over the first `n` records reads those records
/// alone.
proof fn lemma_created_ids_agree(s1: Seq<EscrowData>, s2: Seq<EscrowData>, user: u64, n: int)
    requires
        0 <= n <= s1.len(),
        n <= s2.len(),
        forall|k: int| 0 <= k < n ==> s1[k] == s2[k],
    ensures
        created_ids(s1, user, n) == created_ids(s2, user, n),
    decreases n,
{
    if n > 0 {
        lemma_created_ids_agree(s1, s2, user, n - 1);
    }
}

/// The received-index over the first `n` records reads those records
/// alone.
proof fn lemma_received_ids_agree(s1: Seq<EscrowData>, s2: Seq<EscrowData>, user: u64, n: int)
    requires
        0 <= n <= s1.len(),
        n <= s2.len(),
        forall|k: int| 0 <= k < n ==> s1[k] == s2[k],
    ensures
        received_ids(s1, user, n) == received_ids(s2, user, n),
    decreases n,
{
    if n > 0 {
        lemma_received_ids_agree(s1, s2, user, n - 1);
    }
}

/// Index maintenance: appending one record extends the indexes and
/// touches nothing else. The new identifier lands at the tail of its
/// sender's created-index, and at the tail of a principal's
/// received-index once per recipient entry naming that principal — a
/// principal listed twice in the record receives the identifier twice;
/// every other principal's indexes read unchanged.
pub proof fn lemma_create_extends_indexes(records: Seq<EscrowData>, rec: EscrowData, user: u64)
    ensures
        created_ids(records.push(rec), user, records.len() as int + 1) == (if rec.sender == user {
            created_ids(records, user, records.len() as int).push((records.len() + 1) as u64)
        } else {
            created_ids(records, user, records.len() as int)
        }),
        received_ids(records.push(rec), user, records.len() as int + 1) == received_ids(
            records,
            user,
            records.len() as int,
        ) + entry_ids(rec.recipients@, user, (records.len() + 1) as u64, rec.recipients@.len() as int),
{
    let n = records.len() as int;
    lemma_created_ids_agree(records.push(rec), records, user, n);
    lemma_received_ids_agree(records.push(rec), records, user, n);
    assert(records.push(rec)[n] == rec);
}

/// Identifier monotonicity: every successful create returns the
/// identifier one past the counter and advances the counter to it, so
/// consecutive successful creates return strictly increasing identifiers,
/// and the first create on a fresh ledger returns 1.
pub proof fn lemma_identifier_monotonicity(l0: Escrow, l1: Escrow, l2: Escrow, id1: u64, id2: u64)
    requires
        Escrow::created_step(l0, l1, id1),
        Escrow::created_step(l1, l2, id2),
    ensures
        id2 == id1 + 1,
        id1 < id2,
        l0.counter() == 0 ==> id1 == 1,
{
}

/// State ordering: approve is admitted only while the record is Pending
/// and unapproved; claim only while it is Approved with the approval flag
/// set; refund only while it is Pending or Approved. The terminal states
/// Claimed and Refunded admit no transition at all.
pub proof fn lemma_state_ordering(d: EscrowData, caller: u64, now: u64)
    ensures
        approve_allowed(d, caller) ==> d.status == STATUS_PENDING && !d.approved,
        claim_allowed(d, caller, now) ==> d.approved && d.status == STATUS_APPROVED,
        refund_allowed(d, caller, now) ==> d.status == STATUS_PENDING || d.status
            == STATUS_APPROVED,
        d.status == STATUS_CLAIMED || d.status == STATUS_REFUNDED ==> !approve_allowed(d, caller)
            && !claim_allowed(d, caller, now) && !refund_allowed(d, caller, now),
{
}

/// Deadline gating: once a deadline D > 0 is set, a claim in all other
/// respects admitted succeeds at any time up to D and at no later time,
/// and a refund in all other respects admitted succeeds at any time after
/// D and at no earlier time.
pub proof fn lemma_deadline_gating(d: EscrowData, caller: u64, now: u64)
    requires
        d.deadline > 0,
    ensures
        now <= d.deadline ==> (claim_allowed(d, caller, now) <==> spec_is_recipient(
            d.recipients@,
            caller,
        ) && d.approved && d.status == STATUS_APPROVED),
        now > d.deadline ==> !claim_allowed(d, caller, now),
        now > d.deadline ==> (refund_allowed(d, caller, now) <==> caller == d.sender && (d.status
            == STATUS_PENDING || d.status == STATUS_APPROVED)),
        now <= d.deadline ==> !refund_allowed(d, caller, now),
{
}

} // verus!
