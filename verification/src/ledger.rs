//! The escrow ledger: a keyed set of escrow records, the monotonic
//! identifier allocator, and the log of notifications emitted so far. The
//! ledger owns all record storage and mutates it only through the record
//! transitions; records are never deleted and stay readable as an audit
//! trail. Each operation is one atomic step with no internal suspension.

use vstd::prelude::*;
use crate::data::{
    EscrowData, Error, STATUS_PENDING, STATUS_APPROVED, STATUS_CLAIMED,
    record_wf, same_data, with_status, copy_record,
};
use crate::events::{EscrowEvent, created, approved, split_claimed, claimed, refunded};
use crate::record::{
    create_allowed, approve_allowed, claim_allowed, refund_allowed,
    approve_check, claim_check, refund_check,
    new_record, approve_record, claim_record, refund_record,
};
use crate::payout::{payouts_match, sum_payouts, sum_shares};

verus! {

/// Identifiers of the records among the first `n` whose sender is `user`,
/// in creation order; the record with identifier i sits at position i - 1.
pub open spec fn created_ids(records: Seq<EscrowData>, user: u64, n: int) -> Seq<u64>
    decreases n,
{
    if n <= 0 {
        Seq::empty()
    } else if records[n - 1].sender == user {
        created_ids(records, user, n - 1).push(n as u64)
    } else {
        created_ids(records, user, n - 1)
    }
}

/// `id` repeated once for each of the first `m` recipient entries naming
/// `user`: a principal listed twice in one record receives that record's
/// identifier twice.
pub open spec fn entry_ids(s: Seq<(u64, u32)>, user: u64, id: u64, m: int) -> Seq<u64>
    decreases m,
{
    if m <= 0 {
        Seq::empty()
    } else if s[m - 1].0 == user {
        entry_ids(s, user, id, m - 1).push(id)
    } else {
        entry_ids(s, user, id, m - 1)
    }
}

/// Identifiers of the records among the first `n` naming `user` as a
/// recipient, in creation order, appended once per recipient entry: a
/// record listing a principal in two entries contributes its identifier
/// twice.
pub open spec fn received_ids(records: Seq<EscrowData>, user: u64, n: int) -> Seq<u64>
    decreases n,
{
    if n <= 0 {
        Seq::empty()
    } else {
        received_ids(records, user, n - 1) + entry_ids(
            records[n - 1].recipients@,
            user,
            n as u64,
            records[n - 1].recipients@.len() as int,
        )
    }
}

/// The notifications a claim appends to the log: one split notification
/// per payout instruction, in payout order, then one aggregate claim
/// carrying the recipients paid, in the same order.
pub open spec fn claim_events_match(
    pre: Seq<EscrowEvent>,
    post: Seq<EscrowEvent>,
    id: u64,
    payouts: Seq<(u64, i128)>,
) -> bool {
    &&& post.len() == pre.len() + payouts.len() + 1
    &&& forall|k: int| 0 <= k < pre.len() ==> post[k] == pre[k]
    &&& forall|k: int| 0 <= k < payouts.len() ==> #[trigger] post[pre.len() + k]
        == (EscrowEvent::SplitClaimed { id, recipient: payouts[k].0, amount: payouts[k].1 })
    &&& (post[post.len() - 1] matches EscrowEvent::Claimed { id: eid, recipients: rs }
        && eid == id
        && rs@.len() == payouts.len()
        && (forall|k: int| 0 <= k < payouts.len() ==> #[trigger] rs@[k] == payouts[k].0))
}

/// One key per logical table of the persisted layout: a record by
/// identifier, the allocator counter, and the two reverse indexes by
/// principal.
pub enum DataKey {
    Escrow(u64),
    NextId,
    UserCreated(u64),
    UserReceived(u64),
}

/// The typed value stored under one key.
pub enum StoreValue {
    Record(EscrowData),
    Counter(u64),
    Ids(Vec<u64>),
}

/// The escrow ledger.
pub struct Escrow {
    next_id: u64,
    records: Vec<EscrowData>,
    events: Vec<EscrowEvent>,
}

impl Escrow {
    /// The identifier most recently issued; also the number of records.
    pub closed spec fn counter(&self) -> u64 {
        self.next_id
    }

    /// Every record ever created, in creation order.
    pub closed spec fn records_view(&self) -> Seq<EscrowData> {
        self.records@
    }

    /// The notifications emitted so far, oldest first.
    pub closed spec fn events_view(&self) -> Seq<EscrowEvent> {
        self.events@
    }

    /// Ledger validity: the counter counts the records, and every record
    /// is structurally valid.
    pub open spec fn wf(&self) -> bool {
        &&& self.records_view().len() == self.counter()
        &&& forall|i: int| 0 <= i < self.records_view().len()
            ==> record_wf(#[trigger] self.records_view()[i])
    }

    /// Whether an identifier names a record.
    pub open spec fn has_record(&self, id: u64) -> bool {
        1 <= id <= self.counter()
    }

    /// The record under `id`.
    pub open spec fn record(&self, id: u64) -> EscrowData
        recommends
            self.has_record(id),
    {
        self.records_view()[id - 1]
    }

    /// How a successful create relates the ledger states it steps
    /// between: the identifier returned is one past the counter, the
    /// counter advances to it, and exactly one record is appended.
    pub open spec fn created_step(pre: Escrow, post: Escrow, id: u64) -> bool {
        &&& id == pre.counter() + 1
        &&& post.counter() == id
        &&& post.records_view().len() == pre.records_view().len() + 1
    }

    /// Two ledger states that agree observably: same counter, same
    /// records, same notification log.
    pub open spec fn same_state(a: Escrow, b: Escrow) -> bool {
        &&& a.counter() == b.counter()
        &&& a.records_view() == b.records_view()
        &&& a.events_view() == b.events_view()
    }

    /// A fresh ledger: no identifier issued, no record, no notification.
    pub fn initialize() -> (l: Escrow)
        ensures
            l.wf(),
            l.counter() == 0,
            l.records_view().len() == 0,
            l.events_view().len() == 0,
    {
        Escrow { next_id: 0, records: Vec::new(), events: Vec::new() }
    }

    /// Allocate the next identifier: strictly increasing, never reused.
    fn next_id(&mut self) -> (id: u64)
        requires
            old(self).counter() < u64::MAX,
        ensures
            id == old(self).counter() + 1,
            final(self).counter() == id,
            final(self).records_view() == old(self).records_view(),
            final(self).events_view() == old(self).events_view(),
    {
        self.next_id = self.next_id + 1;
        self.next_id
    }

    /// Create: validate the arguments, allocate one identifier, append
    /// the pending record and the creation notification, and return the
    /// identifier. The host shell authenticates the sender and moves the
    /// deposit into custody before recording; under its abort semantics
    /// custody and record succeed or fail together.
    pub fn create(
        &mut self,
        sender: u64,
        recipients: Vec<(u64, u32)>,
        amount: i128,
        token: u64,
        created_at: u64,
        deadline: u64,
    ) -> (r: Result<u64, Error>)
        requires
            old(self).wf(),
            old(self).counter() < u64::MAX,
        ensures
            final(self).wf(),
            r is Ok <==> create_allowed(recipients@, amount),
            r matches Ok(id) ==> {
                &&& Self::created_step(*old(self), *final(self), id)
                &&& final(self).records_view() == old(self).records_view().push(
                    (EscrowData {
                        sender,
                        recipients,
                        amount,
                        token,
                        created_at,
                        deadline,
                        approved: false,
                        status: STATUS_PENDING,
                    }),
                )
                &&& final(self).events_view() == old(self).events_view().push(
                    (EscrowEvent::Created { id, sender, amount, deadline }),
                )
            },
            r is Err ==> Self::same_state(*final(self), *old(self)) && r == Err::<u64, Error>(
                Error::Validation,
            ),
    {
        let data = match new_record(sender, recipients, amount, token, created_at, deadline) {
            Ok(d) => d,
            Err(e) => {
                return Err(e);
            },
        };
        let id = self.next_id();
        self.records.push(data);
        self.events.push(created(id, sender, amount, deadline));
        Ok(id)
    }

    /// Approve: admitted only for the record's sender while the record is
    /// still pending; flips it to Approved and logs the approval.
    pub fn approve(&mut self, id: u64, caller: u64) -> (r: Result<(), Error>)
        requires
            old(self).wf(),
        ensures
            final(self).wf(),
            r is Ok <==> old(self).has_record(id) && approve_allowed(old(self).record(id), caller),
            r is Ok ==> {
                &&& final(self).counter() == old(self).counter()
                &&& final(self).records_view() == old(self).records_view().update(
                    id - 1,
                    with_status(old(self).record(id), true, STATUS_APPROVED),
                )
                &&& final(self).events_view() == old(self).events_view().push(
                    (EscrowEvent::Approved { id, sender: old(self).record(id).sender }),
                )
            },
            r is Err ==> Self::same_state(*final(self), *old(self)),
            r matches Err(e) ==> if !old(self).has_record(id) {
                e == Error::NotFound
            } else {
                approve_check(old(self).record(id), caller) == Err::<(), Error>(e)
            },
    {
        let n = self.records.len();
        if id == 0 || id > (n as u64) {
            return Err(Error::NotFound);
        }
        let idx = (id - 1) as usize;
        let sender = self.records[idx].sender;
        match approve_record(&mut self.records[idx], caller) {
            Ok(u) => {
                self.events.push(approved(id, sender));
                Ok(u)
            },
            Err(e) => {
                proof {
                    assert(self.records@ =~= old(self).records@);
                }
                Err(e)
            },
        }
    }

    /// Claim: admitted for any listed recipient of an approved record, no
    /// later than the deadline when one is set. Flips the record to
    /// Claimed before any payout instruction is handed out, logs one
    /// split notification per instruction and one aggregate claim, and
    /// returns the instructions the host shell is to perform from
    /// custody, in declaration order. The truncation shortfall is in no
    /// instruction and stays in custody. Should any single transfer fail,
    /// the shell aborts the whole call under the host's abort semantics,
    /// rolling back the flip and every earlier payout: a claim is never
    /// left partially paid.
    pub fn claim(&mut self, id: u64, caller: u64, now: u64) -> (r: Result<Vec<(u64, i128)>, Error>)
        requires
            old(self).wf(),
        ensures
            final(self).wf(),
            r is Ok <==> old(self).has_record(id)
                && claim_allowed(old(self).record(id), caller, now),
            r matches Ok(payouts) ==> {
                &&& final(self).counter() == old(self).counter()
                &&& final(self).records_view() == old(self).records_view().update(
                    id - 1,
                    with_status(old(self).record(id), true, STATUS_CLAIMED),
                )
                &&& payouts_match(
                    old(self).record(id).amount,
                    old(self).record(id).recipients@,
                    payouts@,
                )
                &&& sum_payouts(payouts@, payouts@.len() as int) == sum_shares(
                    old(self).record(id).amount as int,
                    old(self).record(id).recipients@,
                    old(self).record(id).recipients@.len() as int,
                )
                &&& 0 <= sum_payouts(payouts@, payouts@.len() as int) <= old(self).record(id).amount
                &&& claim_events_match(
                    old(self).events_view(),
                    final(self).events_view(),
                    id,
                    payouts@,
                )
            },
            r is Err ==> Self::same_state(*final(self), *old(self)),
            r matches Err(e) ==> if !old(self).has_record(id) {
                e == Error::NotFound
            } else {
                claim_check(old(self).record(id), caller, now) == Err::<(), Error>(e)
            },
    {
        let n = self.records.len();
        if id == 0 || id > (n as u64) {
            return Err(Error::NotFound);
        }
        let idx = (id - 1) as usize;
        let payouts = match claim_record(&mut self.records[idx], caller, now) {
            Ok(p) => p,
            Err(e) => {
                proof {
                    assert(self.records@ =~= old(self).records@);
                }
                return Err(e);
            },
        };
        let ghost mid_records = self.records@;
        let ghost pre_events = self.events@;
        let mut rlist: Vec<u64> = Vec::new();
        let mut i: usize = 0;
        while i < payouts.len()
            invariant
                i <= payouts@.len(),
                rlist@.len() == i,
                forall|k: int| 0 <= k < i ==> #[trigger] rlist@[k] == payouts@[k].0,
                self.records@ == mid_records,
                self.next_id == old(self).counter(),
                self.events@.len() == pre_events.len() + i,
                forall|k: int| 0 <= k < pre_events.len()
                    ==> #[trigger] self.events@[k] == pre_events[k],
                forall|k: int| 0 <= k < i ==> #[trigger] self.events@[pre_events.len() + k]
                    == (EscrowEvent::SplitClaimed {
                        id,
                        recipient: payouts@[k].0,
                        amount: payouts@[k].1,
                    }),
            decreases payouts@.len() - i,
        {
            let (recipient, share) = payouts[i];
            self.events.push(split_claimed(id, recipient, share));
            rlist.push(recipient);
            i = i + 1;
        }
        self.events.push(claimed(id, rlist));
        Ok(payouts)
    }

    /// Refund: admitted only for the record's sender while the deposit is
    /// still in custody, and only once the deadline has passed when one
    /// is set. Flips the record to Refunded and logs the refund; the host
    /// shell then returns the full deposit from custody to the sender.
    pub fn refund(&mut self, id: u64, caller: u64, now: u64) -> (r: Result<(), Error>)
        requires
            old(self).wf(),
        ensures
            final(self).wf(),
            r is Ok <==> old(self).has_record(id)
                && refund_allowed(old(self).record(id), caller, now),
            r is Ok ==> {
                &&& final(self).counter() == old(self).counter()
                &&& final(self).records_view() == old(self).records_view().update(
                    id - 1,
                    with_status(
                        old(self).record(id),
                        old(self).record(id).approved,
                        crate::data::STATUS_REFUNDED,
                    ),
                )
                &&& final(self).events_view() == old(self).events_view().push(
                    (EscrowEvent::Refunded { id, sender: old(self).record(id).sender }),
                )
            },
            r is Err ==> Self::same_state(*final(self), *old(self)),
            r matches Err(e) ==> if !old(self).has_record(id) {
                e == Error::NotFound
            } else {
                refund_check(old(self).record(id), caller, now) == Err::<(), Error>(e)
            },
    {
        let n = self.records.len();
        if id == 0 || id > (n as u64) {
            return Err(Error::NotFound);
        }
        let idx = (id - 1) as usize;
        let sender = self.records[idx].sender;
        match refund_record(&mut self.records[idx], caller, now) {
            Ok(u) => {
                self.events.push(refunded(id, sender));
                Ok(u)
            },
            Err(e) => {
                proof {
                    assert(self.records@ =~= old(self).records@);
                }
                Err(e)
            },
        }
    }

    /// Read one record; the copy agrees field for field with the stored
    /// record. Fails only when the identifier names none.
    pub fn get_escrow(&self, id: u64) -> (r: Result<EscrowData, Error>)
        requires
            self.wf(),
        ensures
            r is Ok <==> self.has_record(id),
            r matches Ok(d) ==> same_data(d, self.record(id)),
            r is Err ==> r == Err::<EscrowData, Error>(Error::NotFound),
    {
        let n = self.records.len();
        if id == 0 || id > (n as u64) {
            return Err(Error::NotFound);
        }
        let idx = (id - 1) as usize;
        Ok(copy_record(&self.records[idx]))
    }

    /// Number of notifications in the log.
    pub fn events_len(&self) -> (n: usize)
        ensures
            n == self.events_view().len(),
    {
        self.events.len()
    }

    /// Read one notification from the log, oldest first.
    pub fn event_at(&self, i: usize) -> (e: &EscrowEvent)
        requires
            i < self.events_view().len(),
        ensures
            *e == self.events_view()[i as int],
    {
        &self.events[i]
    }

    /// Identifiers of every record this principal created, in creation
    /// order; empty for a principal never seen.
    pub fn get_created_ids(&self, user: u64) -> (ids: Vec<u64>)
        ensures
            ids@ == created_ids(self.records_view(), user, self.records_view().len() as int),
    {
        let mut ids: Vec<u64> = Vec::new();
        let mut i: usize = 0;
        while i < self.records.len()
            invariant
                i <= self.records@.len(),
                ids@ == created_ids(self.records@, user, i as int),
            decreases self.records@.len() - i,
        {
            if self.records[i].sender == user {
                ids.push((i as u64) + 1);
            }
            i = i + 1;
        }
        ids
    }

    /// Read the value under one key of the persisted layout: the record
    /// under an identifier (absent when none was issued), the allocator
    /// counter, or a reverse index (empty for a principal never seen).
    pub fn get(&self, key: DataKey) -> (r: Option<StoreValue>)
        requires
            self.wf(),
        ensures
            key matches DataKey::Escrow(id) ==> (if self.has_record(id) {
                r matches Some(StoreValue::Record(d)) && same_data(d, self.record(id))
            } else {
                r is None
            }),
            key is NextId ==> (r matches Some(StoreValue::Counter(c)) && c == self.counter()),
            key matches DataKey::UserCreated(user) ==> (r matches Some(StoreValue::Ids(ids))
                && ids@ == created_ids(
                self.records_view(),
                user,
                self.records_view().len() as int,
            )),
            key matches DataKey::UserReceived(user) ==> (r matches Some(StoreValue::Ids(ids))
                && ids@ == received_ids(
                self.records_view(),
                user,
                self.records_view().len() as int,
            )),
    {
        match key {
            DataKey::Escrow(id) => match self.get_escrow(id) {
                Ok(d) => Some(StoreValue::Record(d)),
                Err(_) => None,
            },
            DataKey::NextId => Some(StoreValue::Counter(self.next_id)),
            DataKey::UserCreated(user) => Some(StoreValue::Ids(self.get_created_ids(user))),
            DataKey::UserReceived(user) => Some(StoreValue::Ids(self.get_received_ids(user))),
        }
    }

    /// Identifiers of every record naming this principal as a recipient,
    /// in creation order, once per recipient entry naming the principal;
    /// empty for a principal never seen.
    pub fn get_received_ids(&self, user: u64) -> (ids: Vec<u64>)
        ensures
            ids@ == received_ids(self.records_view(), user, self.records_view().len() as int),
    {
        let mut ids: Vec<u64> = Vec::new();
        let mut i: usize = 0;
        while i < self.records.len()
            invariant
                i <= self.records@.len(),
                ids@ == received_ids(self.records@, user, i as int),
            decreases self.records@.len() - i,
        {
            let id = (i as u64) + 1;
            let ghost before = ids@;
            let mut j: usize = 0;
            while j < self.records[i].recipients.len()
                invariant
                    i < self.records@.len(),
                    j <= self.records@[i as int].recipients@.len(),
                    id == i + 1,
                    before == received_ids(self.records@, user, i as int),
                    ids@ == before + entry_ids(
                        self.records@[i as int].recipients@,
                        user,
                        id,
                        j as int,
                    ),
                decreases self.records@[i as int].recipients@.len() - j,
            {
                if self.records[i].recipients[j].0 == user {
                    ids.push(id);
                    proof {
                        assert(ids@ =~= before + entry_ids(
                            self.records@[i as int].recipients@,
                            user,
                            id,
                            j + 1,
                        ));
                    }
                }
                j = j + 1;
            }
            i = i + 1;
        }
        ids
    }
}

} // verus!
