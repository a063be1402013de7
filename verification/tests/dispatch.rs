use quickbooks_sync::balance::Balance;
use quickbooks_sync::clock::LocalTime;
use quickbooks_sync::dispatch::{Dispatcher, Extraction, Refusal, Slot};
use quickbooks_sync::google_sheets::{DeliveryOutcome, Reply};
use quickbooks_sync::tally::{slot_kind, tally, SlotKind, Tally};
use quickbooks_sync::targets::{SinkSettings, SyncTarget, TimestampTarget};

fn sink() -> SinkSettings {
    SinkSettings::new("https://sink.example/exec".to_string(), "key-1".to_string())
}

fn sync_target(account: &str, cell: &str) -> SyncTarget {
    SyncTarget {
        account_full_name: account.to_string(),
        spreadsheet_id: format!("sheet-of-{}", account),
        sheet_name: Some("Balances".to_string()),
        cell_address: cell.to_string(),
    }
}

fn stamp_target(cell: &str) -> TimestampTarget {
    TimestampTarget {
        spreadsheet_id: "sheet-9".to_string(),
        sheet_name: None,
        cell_address: cell.to_string(),
    }
}

fn dispatcher(n: usize, m: usize) -> Dispatcher {
    let syncs = (0..n).map(|i| sync_target(&format!("acct{}", i), &format!("B{}", i + 2))).collect();
    let stamps = (0..m).map(|k| stamp_target(&format!("A{}", k + 1))).collect();
    Dispatcher::new(sink(), syncs, stamps)
}

fn money(v: f64) -> Balance {
    Balance::from_bits(v.to_bits())
}

#[test]
fn checking_balance_goes_to_cell_b2() {
    let target = SyncTarget {
        account_full_name: "Checking".to_string(),
        spreadsheet_id: "sheet-1".to_string(),
        sheet_name: Some("Summary".to_string()),
        cell_address: "B2".to_string(),
    };
    let mut d = Dispatcher::new(sink(), vec![target], vec![]);
    assert_eq!(d.sync_count(), 1);
    assert_eq!(d.timestamp_count(), 0);
    let request = d.extracted(0, Extraction::Found(money(1523.47))).unwrap().unwrap();
    assert_eq!(request.url, "https://sink.example/exec");
    assert_eq!(request.payload.api_key, "key-1");
    assert_eq!(request.payload.spreadsheet_id, "sheet-1");
    assert_eq!(request.payload.sheet_name.as_deref(), Some("Summary"));
    assert_eq!(request.payload.cell_address, "B2");
    assert_eq!(f64::from_bits(request.payload.account_value.to_bits()), 1523.47);
    assert_eq!(request.payload.string_value, None);
    assert_eq!(d.balance_slot(0), Some(Slot::InFlight));
    assert_eq!(d.balance_replied(0, Reply::Status(200)), Ok(DeliveryOutcome::Delivered));
    assert!(d.is_complete());
    let t = d.balance_tally();
    assert_eq!(t.delivered, 1);
    assert_eq!(t.issued(), 1);
    assert_eq!(t.failures(), 0);
}

#[test]
fn one_timestamp_target_gets_one_string_post() {
    let mut d = Dispatcher::new(sink(), vec![], vec![stamp_target("A1")]);
    let now = LocalTime::new(2024, 3, 7, 9, 5).unwrap();
    let request = d.stamp(0, &now).unwrap();
    assert_eq!(request.payload.string_value.as_deref(), Some("07-03-2024:09:05"));
    assert_eq!(request.payload.account_value.to_bits(), 0);
    assert_eq!(f64::from_bits(request.payload.account_value.to_bits()), 0.0);
    assert_eq!(request.payload.cell_address, "A1");
    assert_eq!(request.payload.spreadsheet_id, "sheet-9");
    assert_eq!(request.payload.sheet_name, None);
    assert_eq!(request.url, "https://sink.example/exec");
    assert_eq!(d.timestamp_slot(0), Some(Slot::InFlight));
    assert_eq!(d.timestamp_replied(0, Reply::Status(204)), Ok(DeliveryOutcome::Delivered));
    assert!(d.is_complete());
    assert_eq!(d.timestamp_tally().delivered, 1);
}

#[test]
fn unreadable_clock_settles_the_timestamp_without_a_post() {
    let mut d = dispatcher(1, 2);
    assert_eq!(d.stamp_failed(0), Err(Refusal::BalancesPending));
    d.extracted(0, Extraction::Absent).unwrap();
    assert_eq!(d.stamp_failed(2), Err(Refusal::UnknownTarget));
    assert_eq!(d.stamp_failed(0), Ok(DeliveryOutcome::ExtractionFailed));
    assert_eq!(d.timestamp_slot(0), Some(Slot::Settled(DeliveryOutcome::ExtractionFailed)));
    assert_eq!(d.timestamp_slot(1), Some(Slot::Pending));
    assert_eq!(d.stamp_failed(0), Err(Refusal::OutOfTurn));
    let now = LocalTime::new(2024, 1, 1, 0, 0).unwrap();
    assert_eq!(d.stamp(0, &now), Err(Refusal::OutOfTurn));
    assert_eq!(d.timestamp_replied(0, Reply::Status(200)), Err(Refusal::OutOfTurn));
    // the other timestamp target is not disturbed
    assert!(d.stamp(1, &now).is_ok());
    assert_eq!(d.stamp_failed(1), Err(Refusal::OutOfTurn));
    assert_eq!(d.timestamp_replied(1, Reply::Status(200)), Ok(DeliveryOutcome::Delivered));
    assert!(d.is_complete());
    let t = d.timestamp_tally();
    assert_eq!(t.extraction_failures, 1);
    assert_eq!(t.delivered, 1);
    assert_eq!(t.issued(), 1);
}

#[test]
fn absent_balances_are_counted_and_not_delivered() {
    // five targets, two absent
    let mut d = dispatcher(5, 0);
    let absent = [1usize, 3];
    let mut requests = 0;
    for i in 0..5 {
        let e = if absent.contains(&i) { Extraction::Absent } else { Extraction::Found(money(i as f64)) };
        if d.extracted(i, e).unwrap().is_some() {
            requests += 1;
        }
    }
    assert_eq!(requests, 3);
    assert_eq!(d.balance_tally().issued(), 3);
    // replies arrive in reverse order
    for i in (0..5).rev() {
        if !absent.contains(&i) {
            assert_eq!(d.balance_replied(i, Reply::Status(200)), Ok(DeliveryOutcome::Delivered));
        }
    }
    let t = d.balance_tally();
    assert_eq!(
        t,
        Tally {
            delivered: 3,
            absent: 2,
            extraction_failures: 0,
            delivery_failures: 0,
            in_flight: 0,
            pending: 0
        }
    );
    assert!(d.is_complete());
}

#[test]
fn tally_does_not_depend_on_the_order_of_reports() {
    let extractions = [
        Extraction::Found(money(1.0)),
        Extraction::Absent,
        Extraction::Found(money(2.0)),
        Extraction::Failed,
    ];
    let replies = [Reply::Status(200), Reply::Status(200), Reply::Status(500), Reply::Status(200)];
    let orders: [[usize; 4]; 3] = [[0, 1, 2, 3], [3, 2, 1, 0], [2, 0, 3, 1]];
    let mut results = Vec::new();
    for order in orders {
        let mut d = dispatcher(4, 0);
        for i in order {
            d.extracted(i, extractions[i]).unwrap();
        }
        for i in order.iter().rev() {
            if d.balance_slot(*i) == Some(Slot::InFlight) {
                d.balance_replied(*i, replies[*i]).unwrap();
            }
        }
        let slots: Vec<Slot> = (0..4).map(|i| d.balance_slot(i).unwrap()).collect();
        results.push((slots, d.balance_tally()));
    }
    assert_eq!(results[0], results[1]);
    assert_eq!(results[0], results[2]);
    assert_eq!(results[0].1.delivered, 1);
    assert_eq!(results[0].1.absent, 1);
    assert_eq!(results[0].1.extraction_failures, 1);
    assert_eq!(results[0].1.delivery_failures, 1);
}

#[test]
fn rejected_delivery_does_not_stop_the_others() {
    let mut d = dispatcher(3, 0);
    for i in 0..3 {
        assert!(d.extracted(i, Extraction::Found(money(10.0 + i as f64))).unwrap().is_some());
    }
    assert_eq!(
        d.balance_replied(1, Reply::Status(500)),
        Ok(DeliveryOutcome::Rejected { status: 500 })
    );
    assert_eq!(d.balance_slot(0), Some(Slot::InFlight));
    assert_eq!(d.balance_slot(2), Some(Slot::InFlight));
    assert_eq!(d.balance_replied(0, Reply::Status(200)), Ok(DeliveryOutcome::Delivered));
    assert_eq!(d.balance_replied(2, Reply::Status(201)), Ok(DeliveryOutcome::Delivered));
    assert_eq!(d.balance_slot(1), Some(Slot::Settled(DeliveryOutcome::Rejected { status: 500 })));
    assert!(d.is_complete());
    let t = d.balance_tally();
    assert_eq!(t.delivered, 2);
    assert_eq!(t.delivery_failures, 1);
    assert_eq!(t.failures(), 1);
}

#[test]
fn unreachable_sink_is_a_failed_delivery() {
    let mut d = dispatcher(2, 0);
    d.extracted(0, Extraction::Found(money(1.0))).unwrap();
    d.extracted(1, Extraction::Found(money(2.0))).unwrap();
    assert_eq!(d.balance_replied(0, Reply::Unreachable), Ok(DeliveryOutcome::Unreachable));
    assert_eq!(d.balance_replied(1, Reply::Status(200)), Ok(DeliveryOutcome::Delivered));
    assert_eq!(d.balance_tally().delivery_failures, 1);
    assert_eq!(d.balance_tally().delivered, 1);
}

#[test]
fn extraction_error_settles_without_a_request() {
    let mut d = dispatcher(2, 0);
    assert_eq!(d.extracted(0, Extraction::Failed), Ok(None));
    assert_eq!(d.balance_slot(0), Some(Slot::Settled(DeliveryOutcome::ExtractionFailed)));
    assert_eq!(d.balance_slot(1), Some(Slot::Pending));
    assert_eq!(d.extracted(1, Extraction::Absent), Ok(None));
    assert_eq!(d.balance_slot(1), Some(Slot::Settled(DeliveryOutcome::Absent)));
    assert!(d.is_complete());
    let t = d.balance_tally();
    assert_eq!(t.extraction_failures, 1);
    assert_eq!(t.absent, 1);
    assert_eq!(t.issued(), 0);
}

#[test]
fn reports_for_unknown_targets_are_refused() {
    let mut d = dispatcher(1, 1);
    assert_eq!(d.extracted(1, Extraction::Absent), Err(Refusal::UnknownTarget));
    assert_eq!(d.balance_replied(7, Reply::Status(200)), Err(Refusal::UnknownTarget));
    assert_eq!(d.timestamp_replied(1, Reply::Status(200)), Err(Refusal::UnknownTarget));
    let now = LocalTime::new(2024, 1, 1, 0, 0).unwrap();
    assert_eq!(d.stamp(1, &now), Err(Refusal::UnknownTarget));
    assert_eq!(d.balance_slot(1), None);
    assert_eq!(d.timestamp_slot(1), None);
    assert!(d.sync_target(1).is_none());
    assert_eq!(d.sync_target(0).unwrap().account_full_name, "acct0");
}

#[test]
fn reports_out_of_turn_are_refused() {
    let mut d = dispatcher(2, 1);
    // no reply before the request went out
    assert_eq!(d.balance_replied(0, Reply::Status(200)), Err(Refusal::OutOfTurn));
    d.extracted(0, Extraction::Found(money(1.0))).unwrap();
    // no second extraction
    assert_eq!(d.extracted(0, Extraction::Absent), Err(Refusal::OutOfTurn));
    d.balance_replied(0, Reply::Status(200)).unwrap();
    // no second reply
    assert_eq!(d.balance_replied(0, Reply::Status(500)), Err(Refusal::OutOfTurn));
    assert_eq!(d.balance_slot(0), Some(Slot::Settled(DeliveryOutcome::Delivered)));
    d.extracted(1, Extraction::Absent).unwrap();
    assert_eq!(d.timestamp_replied(0, Reply::Status(200)), Err(Refusal::OutOfTurn));
    let now = LocalTime::new(2024, 1, 1, 0, 0).unwrap();
    assert!(d.stamp(0, &now).is_ok());
    assert_eq!(d.stamp(0, &now), Err(Refusal::OutOfTurn));
}

#[test]
fn timestamps_wait_for_the_balance_phase() {
    let mut d = dispatcher(2, 1);
    let now = LocalTime::new(2024, 5, 6, 7, 8).unwrap();
    assert!(!d.balances_issued());
    assert_eq!(d.stamp(0, &now), Err(Refusal::BalancesPending));
    d.extracted(0, Extraction::Found(money(1.0))).unwrap();
    assert_eq!(d.stamp(0, &now), Err(Refusal::BalancesPending));
    d.extracted(1, Extraction::Absent).unwrap();
    // every balance delivery is issued; its answer need not be in
    assert!(d.balances_issued());
    assert_eq!(d.balance_slot(0), Some(Slot::InFlight));
    let request = d.stamp(0, &now).unwrap();
    assert_eq!(request.payload.string_value.as_deref(), Some("06-05-2024:07:08"));
    assert!(!d.is_complete());
    d.timestamp_replied(0, Reply::Status(503)).unwrap();
    d.balance_replied(0, Reply::Status(200)).unwrap();
    assert!(d.is_complete());
    assert_eq!(d.timestamp_tally().delivery_failures, 1);
    assert_eq!(d.balance_tally().delivered, 1);
}

#[test]
fn dispatch_without_targets_is_complete_at_once() {
    let d = dispatcher(0, 0);
    assert!(d.is_complete());
    assert!(d.balances_issued());
    assert_eq!(
        d.balance_tally(),
        Tally {
            delivered: 0,
            absent: 0,
            extraction_failures: 0,
            delivery_failures: 0,
            in_flight: 0,
            pending: 0
        }
    );
}

#[test]
fn tally_counts_every_slot_once() {
    let slots = vec![
        Slot::Pending,
        Slot::InFlight,
        Slot::Settled(DeliveryOutcome::Delivered),
        Slot::Settled(DeliveryOutcome::Delivered),
        Slot::Settled(DeliveryOutcome::Absent),
        Slot::Settled(DeliveryOutcome::ExtractionFailed),
        Slot::Settled(DeliveryOutcome::Rejected { status: 404 }),
        Slot::Settled(DeliveryOutcome::Unreachable),
    ];
    let t = tally(&slots);
    assert_eq!(
        t,
        Tally {
            delivered: 2,
            absent: 1,
            extraction_failures: 1,
            delivery_failures: 2,
            in_flight: 1,
            pending: 1
        }
    );
    assert_eq!(t.issued(), 5);
    assert_eq!(t.failures(), 3);
    assert_eq!(slot_kind(Slot::Settled(DeliveryOutcome::Unreachable)), SlotKind::DeliveryFailed);
    assert_eq!(slot_kind(Slot::Pending), SlotKind::Pending);
}
