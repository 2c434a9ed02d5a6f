//! The end-to-end lifecycle scenarios, driven against the in-memory
//! ledger: balances are tracked by applying the payout instructions the
//! ledger returns, the way the host shell performs them.

use escrow_ledger::{DataKey, Escrow, EscrowEvent, Error, StoreValue, STATUS_PENDING,
    STATUS_APPROVED, STATUS_CLAIMED, STATUS_REFUNDED};

const SENDER: u64 = 1;
const RECIPIENT: u64 = 2;
const TOKEN: u64 = 7;

#[test]
fn test_create_and_get_escrow() {
    let mut ledger = Escrow::initialize();

    let recipients: Vec<(u64, u32)> = vec![(RECIPIENT, 100u32)];
    let id = ledger
        .create(SENDER, recipients, 1_000_000i128, TOKEN, 0, 0u64)
        .unwrap();

    assert_eq!(id, 1u64);

    let escrow = ledger.get_escrow(id).unwrap();
    assert_eq!(escrow.amount, 1_000_000i128);
    assert_eq!(escrow.sender, SENDER);
    assert_eq!(escrow.approved, false);
    assert_eq!(escrow.status, 0u32);
}

#[test]
fn test_create_approve_claim_single_recipient() {
    let mut ledger = Escrow::initialize();

    let recipients: Vec<(u64, u32)> = vec![(RECIPIENT, 100u32)];
    let id = ledger
        .create(SENDER, recipients, 1_000_000i128, TOKEN, 0, 0u64)
        .unwrap();
    ledger.approve(id, SENDER).unwrap();
    let payouts = ledger.claim(id, RECIPIENT, 0).unwrap();

    // the host shell moves each share out of custody
    let mut custody: i128 = 1_000_000;
    let mut recipient_balance: i128 = 0;
    for (who, share) in payouts {
        custody -= share;
        if who == RECIPIENT {
            recipient_balance += share;
        }
    }
    assert_eq!(recipient_balance, 1_000_000i128);
    assert_eq!(custody, 0i128);

    let data = ledger.get_escrow(id).unwrap();
    assert_eq!(data.status, 2u32);
}

#[test]
fn test_create_fails_on_invalid_percentage_sum() {
    let mut ledger = Escrow::initialize();

    let recipients: Vec<(u64, u32)> = vec![(RECIPIENT, 90u32)];
    let r = ledger.create(SENDER, recipients, 1_000_000i128, TOKEN, 0, 0u64);

    assert_eq!(r, Err(Error::Validation));
    // no record persisted, no payout owed
    assert!(matches!(ledger.get_escrow(1), Err(Error::NotFound)));
}

#[test]
fn percentage_sums_near_one_hundred_fail() {
    let mut ledger = Escrow::initialize();

    let low: Vec<(u64, u32)> = vec![(RECIPIENT, 60u32), (3, 39u32)];
    assert_eq!(
        ledger.create(SENDER, low, 500i128, TOKEN, 0, 0),
        Err(Error::Validation)
    );

    let high: Vec<(u64, u32)> = vec![(RECIPIENT, 60u32), (3, 41u32)];
    assert_eq!(
        ledger.create(SENDER, high, 500i128, TOKEN, 0, 0),
        Err(Error::Validation)
    );

    let exact: Vec<(u64, u32)> = vec![(RECIPIENT, 60u32), (3, 40u32)];
    assert_eq!(ledger.create(SENDER, exact, 500i128, TOKEN, 0, 0), Ok(1));
}

#[test]
fn create_rejects_bad_amount_and_empty_recipients() {
    let mut ledger = Escrow::initialize();

    let recipients: Vec<(u64, u32)> = vec![(RECIPIENT, 100u32)];
    assert_eq!(
        ledger.create(SENDER, recipients, 0i128, TOKEN, 0, 0),
        Err(Error::Validation)
    );
    assert_eq!(
        ledger.create(SENDER, vec![(RECIPIENT, 100u32)], -5i128, TOKEN, 0, 0),
        Err(Error::Validation)
    );
    assert_eq!(
        ledger.create(SENDER, Vec::new(), 100i128, TOKEN, 0, 0),
        Err(Error::Validation)
    );
}

#[test]
fn identifiers_increase_from_one() {
    let mut ledger = Escrow::initialize();

    let id1 = ledger
        .create(SENDER, vec![(RECIPIENT, 100u32)], 100i128, TOKEN, 0, 0)
        .unwrap();
    let id2 = ledger
        .create(SENDER, vec![(3, 100u32)], 200i128, TOKEN, 0, 0)
        .unwrap();
    let id3 = ledger
        .create(4, vec![(RECIPIENT, 100u32)], 300i128, TOKEN, 0, 0)
        .unwrap();

    assert_eq!(id1, 1);
    assert_eq!(id2, 2);
    assert_eq!(id3, 3);
}

#[test]
fn state_ordering_is_enforced() {
    let mut ledger = Escrow::initialize();
    let id = ledger
        .create(SENDER, vec![(RECIPIENT, 100u32)], 100i128, TOKEN, 0, 0)
        .unwrap();

    // claim before approval: state conflict
    assert_eq!(ledger.claim(id, RECIPIENT, 0), Err(Error::StateConflict));

    // approve by a stranger: authorization failure
    assert_eq!(ledger.approve(id, RECIPIENT), Err(Error::Authorization));

    ledger.approve(id, SENDER).unwrap();
    assert_eq!(ledger.get_escrow(id).unwrap().status, STATUS_APPROVED);

    // approve twice: state conflict
    assert_eq!(ledger.approve(id, SENDER), Err(Error::StateConflict));

    // claim by a stranger: authorization failure
    assert_eq!(ledger.claim(id, 9, 0), Err(Error::Authorization));

    ledger.claim(id, RECIPIENT, 0).unwrap();
    assert_eq!(ledger.get_escrow(id).unwrap().status, STATUS_CLAIMED);

    // every transition out of Claimed is refused
    assert_eq!(ledger.approve(id, SENDER), Err(Error::StateConflict));
    assert_eq!(ledger.claim(id, RECIPIENT, 0), Err(Error::StateConflict));
    assert_eq!(ledger.refund(id, SENDER, 0), Err(Error::StateConflict));

    // unknown identifiers are not found
    assert_eq!(ledger.approve(99, SENDER), Err(Error::NotFound));
    assert_eq!(ledger.claim(99, RECIPIENT, 0), Err(Error::NotFound));
    assert_eq!(ledger.refund(99, SENDER, 0), Err(Error::NotFound));
    assert!(matches!(ledger.get_escrow(99), Err(Error::NotFound)));
}

#[test]
fn deadline_gates_claim_and_refund() {
    let deadline: u64 = 100;

    // claim at now <= deadline succeeds
    let mut ledger = Escrow::initialize();
    let id = ledger
        .create(SENDER, vec![(RECIPIENT, 100u32)], 100i128, TOKEN, 0, deadline)
        .unwrap();
    ledger.approve(id, SENDER).unwrap();
    assert_eq!(ledger.refund(id, SENDER, 100), Err(Error::StateConflict));
    assert!(ledger.claim(id, RECIPIENT, 100).is_ok());

    // claim at now > deadline fails; refund then succeeds
    let mut ledger = Escrow::initialize();
    let id = ledger
        .create(SENDER, vec![(RECIPIENT, 100u32)], 100i128, TOKEN, 0, deadline)
        .unwrap();
    ledger.approve(id, SENDER).unwrap();
    assert_eq!(ledger.claim(id, RECIPIENT, 101), Err(Error::StateConflict));
    assert!(ledger.refund(id, SENDER, 101).is_ok());
    assert_eq!(ledger.get_escrow(id).unwrap().status, STATUS_REFUNDED);

    // with no deadline set, refund is never time-gated
    let mut ledger = Escrow::initialize();
    let id = ledger
        .create(SENDER, vec![(RECIPIENT, 100u32)], 100i128, TOKEN, 0, 0)
        .unwrap();
    assert!(ledger.refund(id, SENDER, 0).is_ok());
}

#[test]
fn refund_after_missed_deadline_blocks_claim() {
    let mut ledger = Escrow::initialize();
    let deadline: u64 = 50;
    let id = ledger
        .create(SENDER, vec![(RECIPIENT, 100u32)], 2_000i128, TOKEN, 0, deadline)
        .unwrap();

    // time passes the deadline with no approval; only the sender may refund
    assert_eq!(ledger.refund(id, RECIPIENT, 51), Err(Error::Authorization));
    ledger.refund(id, SENDER, 51).unwrap();

    let data = ledger.get_escrow(id).unwrap();
    assert_eq!(data.status, STATUS_REFUNDED);
    assert_eq!(data.amount, 2_000i128); // full deposit owed back to the sender

    // a later claim on the same record is a wrong-state failure
    assert_eq!(ledger.claim(id, RECIPIENT, 51), Err(Error::StateConflict));
    assert_eq!(ledger.claim(id, RECIPIENT, 10), Err(Error::StateConflict));
}

#[test]
fn shares_truncate_and_shortfall_stays_in_custody() {
    // 33/33/34 of 100: no shortfall
    let mut ledger = Escrow::initialize();
    let recipients: Vec<(u64, u32)> = vec![(2, 33u32), (3, 33u32), (4, 34u32)];
    let id = ledger.create(SENDER, recipients, 100i128, TOKEN, 0, 0).unwrap();
    ledger.approve(id, SENDER).unwrap();
    let payouts = ledger.claim(id, 3, 0).unwrap();
    assert_eq!(payouts, vec![(2, 33i128), (3, 33i128), (4, 34i128)]);

    // 33/33/34 of 10 truncates each share; the shortfall of 1 is not disbursed
    let mut ledger = Escrow::initialize();
    let recipients: Vec<(u64, u32)> = vec![(2, 33u32), (3, 33u32), (4, 34u32)];
    let id = ledger.create(SENDER, recipients, 10i128, TOKEN, 0, 0).unwrap();
    ledger.approve(id, SENDER).unwrap();
    let payouts = ledger.claim(id, 4, 0).unwrap();
    assert_eq!(payouts, vec![(2, 3i128), (3, 3i128), (4, 3i128)]);
    let disbursed: i128 = payouts.iter().map(|p| p.1).sum();
    assert!(disbursed <= 10);
    assert_eq!(10 - disbursed, 1); // retained in custody

    // a huge deposit splits without overflow
    let mut ledger = Escrow::initialize();
    let recipients: Vec<(u64, u32)> = vec![(2, 1u32), (3, 99u32)];
    let id = ledger
        .create(SENDER, recipients, i128::MAX, TOKEN, 0, 0)
        .unwrap();
    ledger.approve(id, SENDER).unwrap();
    let payouts = ledger.claim(id, 2, 0).unwrap();
    assert_eq!(payouts[0].1, i128::MAX / 100);
    let disbursed: i128 = payouts.iter().map(|p| p.1).sum();
    assert!(disbursed <= i128::MAX);
}

#[test]
fn indexes_list_records_in_creation_order() {
    let mut ledger = Escrow::initialize();
    ledger
        .create(SENDER, vec![(RECIPIENT, 100u32)], 100i128, TOKEN, 0, 0)
        .unwrap();
    ledger
        .create(3, vec![(RECIPIENT, 50u32), (4, 50u32)], 100i128, TOKEN, 0, 0)
        .unwrap();
    ledger
        .create(SENDER, vec![(4, 100u32)], 100i128, TOKEN, 0, 0)
        .unwrap();

    assert_eq!(ledger.get_created_ids(SENDER), vec![1u64, 3u64]);
    assert_eq!(ledger.get_created_ids(3), vec![2u64]);
    assert_eq!(ledger.get_created_ids(9), Vec::<u64>::new());

    assert_eq!(ledger.get_received_ids(RECIPIENT), vec![1u64, 2u64]);
    assert_eq!(ledger.get_received_ids(4), vec![2u64, 3u64]);
    assert_eq!(ledger.get_received_ids(9), Vec::<u64>::new());
}

#[test]
fn pending_record_survives_failed_claims_unchanged() {
    let mut ledger = Escrow::initialize();
    let id = ledger
        .create(SENDER, vec![(RECIPIENT, 100u32)], 750i128, TOKEN, 42, 0)
        .unwrap();

    let before = ledger.get_escrow(id).unwrap();
    assert_eq!(ledger.claim(id, RECIPIENT, 0), Err(Error::StateConflict));
    let after = ledger.get_escrow(id).unwrap();

    assert_eq!(after.sender, before.sender);
    assert_eq!(after.recipients, before.recipients);
    assert_eq!(after.amount, before.amount);
    assert_eq!(after.token, before.token);
    assert_eq!(after.created_at, 42);
    assert_eq!(after.deadline, before.deadline);
    assert_eq!(after.approved, false);
    assert_eq!(after.status, STATUS_PENDING);
}

#[test]
fn notifications_are_logged_in_order() {
    let mut ledger = Escrow::initialize();
    let id = ledger
        .create(SENDER, vec![(2, 40u32), (3, 60u32)], 1_000i128, TOKEN, 9, 0)
        .unwrap();
    ledger.approve(id, SENDER).unwrap();
    ledger.claim(id, 3, 0).unwrap();

    assert_eq!(ledger.events_len(), 5);
    assert!(matches!(
        ledger.event_at(0),
        EscrowEvent::Created { id: 1, sender: SENDER, amount: 1_000, deadline: 0 }
    ));
    assert!(matches!(
        ledger.event_at(1),
        EscrowEvent::Approved { id: 1, sender: SENDER }
    ));
    assert!(matches!(
        ledger.event_at(2),
        EscrowEvent::SplitClaimed { id: 1, recipient: 2, amount: 400 }
    ));
    assert!(matches!(
        ledger.event_at(3),
        EscrowEvent::SplitClaimed { id: 1, recipient: 3, amount: 600 }
    ));
    match ledger.event_at(4) {
        EscrowEvent::Claimed { id: 1, recipients } => {
            assert_eq!(recipients, &vec![2u64, 3u64]);
        },
        other => panic!("unexpected notification: {:?}", other),
    }
}

#[test]
fn keyed_reads_cover_every_table() {
    let mut ledger = Escrow::initialize();
    assert!(matches!(ledger.get(DataKey::NextId), Some(StoreValue::Counter(0))));
    assert!(matches!(ledger.get(DataKey::Escrow(1)), None));

    let id = ledger
        .create(SENDER, vec![(RECIPIENT, 100u32)], 400i128, TOKEN, 0, 0)
        .unwrap();

    assert!(matches!(ledger.get(DataKey::NextId), Some(StoreValue::Counter(1))));
    match ledger.get(DataKey::Escrow(id)) {
        Some(StoreValue::Record(d)) => {
            assert_eq!(d.amount, 400);
            assert_eq!(d.sender, SENDER);
        },
        _ => panic!("record expected"),
    }
    match ledger.get(DataKey::UserCreated(SENDER)) {
        Some(StoreValue::Ids(ids)) => assert_eq!(ids, vec![1u64]),
        _ => panic!("index expected"),
    }
    match ledger.get(DataKey::UserReceived(RECIPIENT)) {
        Some(StoreValue::Ids(ids)) => assert_eq!(ids, vec![1u64]),
        _ => panic!("index expected"),
    }
    match ledger.get(DataKey::UserReceived(9)) {
        Some(StoreValue::Ids(ids)) => assert!(ids.is_empty()),
        _ => panic!("index expected"),
    }
}

#[test]
fn duplicate_recipient_entries_count_per_entry() {
    let mut ledger = Escrow::initialize();
    let id = ledger
        .create(
            SENDER,
            vec![(RECIPIENT, 50u32), (RECIPIENT, 50u32)],
            500i128,
            TOKEN,
            0,
            0,
        )
        .unwrap();

    // the received-index lists the record once per entry naming the principal
    assert_eq!(ledger.get_received_ids(RECIPIENT), vec![id, id]);
    match ledger.get(DataKey::UserReceived(RECIPIENT)) {
        Some(StoreValue::Ids(ids)) => assert_eq!(ids, vec![id, id]),
        _ => panic!("index expected"),
    }

    // and the claim pays once per entry, in entry order
    ledger.approve(id, SENDER).unwrap();
    let payouts = ledger.claim(id, RECIPIENT, 0).unwrap();
    assert_eq!(payouts, vec![(RECIPIENT, 250i128), (RECIPIENT, 250i128)]);
}
