//! The escrow record, the error categories, and the basic helpers on
//! recipient lists: percentage totals, membership, and copying.

use vstd::prelude::*;

verus! {

/// Status code of a record that was created and not yet approved.
pub const STATUS_PENDING: u32 = 0;

/// Status code of a record whose sender approved the release.
pub const STATUS_APPROVED: u32 = 1;

/// Status code of a record whose deposit was paid out to the recipients.
/// Terminal.
pub const STATUS_CLAIMED: u32 = 2;

/// Status code of a record whose deposit was returned to the sender.
/// Terminal.
pub const STATUS_REFUNDED: u32 = 3;

/// Why an operation was refused. Every refusal leaves the ledger exactly as
/// it was. Failures of the value-transfer collaborator never reach the
/// ledger: the host shell moves funds and aborts the whole call when a
/// transfer fails.
#[derive(Clone, Copy, Debug, PartialEq, Eq, Structural)]
pub enum Error {
    /// Rejected arguments at creation: a non-positive amount, an empty
    /// recipient list, or percentages that do not sum to exactly 100.
    Validation,
    /// The caller is not entitled to the operation: not the sender for
    /// approve or refund, not a listed recipient for claim.
    Authorization,
    /// The record's status, or its deadline gate, does not admit the
    /// transition.
    StateConflict,
    /// No record exists under the given identifier.
    NotFound,
}

/// One escrow record: the persisted unit of custody state for one deposit.
/// Principals and assets are carried as the 64-bit identifiers the host
/// shell resolves them to; the ledger only ever compares them.
pub struct EscrowData {
    /// Principal who funded the escrow; only this principal may approve or,
    /// once the deadline has passed, reclaim the deposit.
    pub sender: u64,
    /// Ordered, non-empty list of (principal, percentage) pairs whose
    /// percentages sum to exactly 100. Order fixes payout enumeration and
    /// carries no priority.
    pub recipients: Vec<(u64, u32)>,
    /// Total value deposited; positive, fixed for the record's lifetime.
    pub amount: i128,
    /// Identifier of the asset deposited; fixed for the record's lifetime.
    pub token: u64,
    /// Timestamp captured at creation; informational only.
    pub created_at: u64,
    /// Timestamp after which refund becomes permitted; 0 means no deadline:
    /// claim is never time-gated and refund is always time-permitted.
    pub deadline: u64,
    /// Set exactly once, by approve; never unset.
    pub approved: bool,
    /// One of the four status codes above.
    pub status: u32,
}

/// Sum of the percentages of the first `n` recipient entries.
pub open spec fn sum_pcts(s: Seq<(u64, u32)>, n: int) -> int
    decreases n,
{
    if n <= 0 {
        0
    } else {
        sum_pcts(s, n - 1) + s[n - 1].1
    }
}

/// Sum of all the percentages of a recipient list.
pub open spec fn total_pct(s: Seq<(u64, u32)>) -> int {
    sum_pcts(s, s.len() as int)
}

/// Whether `user` is named as a recipient.
pub open spec fn spec_is_recipient(s: Seq<(u64, u32)>, user: u64) -> bool {
    exists|j: int| 0 <= j < s.len() && s[j].0 == user
}

/// A structurally valid record: what creation establishes and every
/// transition preserves.
pub open spec fn record_wf(r: EscrowData) -> bool {
    &&& r.amount > 0
    &&& r.recipients@.len() > 0
    &&& total_pct(r.recipients@) == 100
    &&& r.status <= STATUS_REFUNDED
    &&& (r.status == STATUS_PENDING ==> !r.approved)
    &&& (r.status == STATUS_APPROVED || r.status == STATUS_CLAIMED ==> r.approved)
}

/// Field-for-field agreement of two records (recipient lists compared as
/// sequences).
pub open spec fn same_data(a: EscrowData, b: EscrowData) -> bool {
    &&& a.sender == b.sender
    &&& a.recipients@ == b.recipients@
    &&& a.amount == b.amount
    &&& a.token == b.token
    &&& a.created_at == b.created_at
    &&& a.deadline == b.deadline
    &&& a.approved == b.approved
    &&& a.status == b.status
}

/// `r` with its approval flag and status replaced, all else kept.
pub open spec fn with_status(r: EscrowData, approved: bool, status: u32) -> EscrowData {
    EscrowData {
        sender: r.sender,
        recipients: r.recipients,
        amount: r.amount,
        token: r.token,
        created_at: r.created_at,
        deadline: r.deadline,
        approved,
        status,
    }
}

/// Every percentage entry is bounded by the sum of the first `n`, the
/// entries being non-negative.
pub proof fn lemma_pct_le_sum(s: Seq<(u64, u32)>, j: int, n: int)
    requires
        0 <= j < n <= s.len(),
    ensures
        s[j].1 <= sum_pcts(s, n),
        sum_pcts(s, n) >= 0,
    decreases n,
{
    if j == n - 1 {
        lemma_sum_pcts_nonneg(s, n - 1);
    } else {
        lemma_pct_le_sum(s, j, n - 1);
    }
}

/// A sum of percentages is never negative.
pub proof fn lemma_sum_pcts_nonneg(s: Seq<(u64, u32)>, n: int)
    requires
        n <= s.len(),
    ensures
        sum_pcts(s, n) >= 0,
    decreases n,
{
    if n > 0 {
        lemma_sum_pcts_nonneg(s, n - 1);
    }
}

/// Total of the percentage shares, computed without overflow.
pub fn total_percentage(recipients: &Vec<(u64, u32)>) -> (t: u128)
    ensures
        t == total_pct(recipients@),
{
    let mut sum: u128 = 0;
    let mut i: usize = 0;
    while i < recipients.len()
        invariant
            0 <= i <= recipients@.len(),
            sum == sum_pcts(recipients@, i as int),
            sum <= (i as int) * (u32::MAX as int),
        decreases recipients@.len() - i,
    {
        sum = sum + (recipients[i].1 as u128);
        i = i + 1;
    }
    sum
}

/// Whether `user` is named as a recipient.
pub fn is_recipient(recipients: &Vec<(u64, u32)>, user: u64) -> (b: bool)
    ensures
        b == spec_is_recipient(recipients@, user),
{
    let mut i: usize = 0;
    while i < recipients.len()
        invariant
            0 <= i <= recipients@.len(),
            forall|j: int| 0 <= j < i ==> recipients@[j].0 != user,
        decreases recipients@.len() - i,
    {
        if recipients[i].0 == user {
            return true;
        }
        i = i + 1;
    }
    false
}

/// An element-for-element copy of a recipient list.
pub fn copy_pairs(pairs: &Vec<(u64, u32)>) -> (out: Vec<(u64, u32)>)
    ensures
        out@ == pairs@,
{
    let mut out: Vec<(u64, u32)> = Vec::new();
    let mut i: usize = 0;
    while i < pairs.len()
        invariant
            0 <= i <= pairs@.len(),
            out@ == pairs@.subrange(0, i as int),
        decreases pairs@.len() - i,
    {
        let p = pairs[i];
        out.push(p);
        proof {
            assert(pairs@.subrange(0, i + 1) =~= pairs@.subrange(0, i as int).push(pairs@[i as int]));
        }
        i = i + 1;
    }
    proof {
        assert(pairs@.subrange(0, pairs@.len() as int) =~= pairs@);
    }
    out
}

/// A field-for-field copy of a record.
pub fn copy_record(r: &EscrowData) -> (out: EscrowData)
    ensures
        same_data(out, *r),
{
    EscrowData {
        sender: r.sender,
        recipients: copy_pairs(&r.recipients),
        amount: r.amount,
        token: r.token,
        created_at: r.created_at,
        deadline: r.deadline,
        approved: r.approved,
        status: r.status,
    }
}

} // verus!
