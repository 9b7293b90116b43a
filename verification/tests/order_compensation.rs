use order_events::event::http_event_service::ShipmentFailedEventData;
use order_events::event::ids::Uuid;
use order_events::event::order_compensation::{
    calculate_amount_to_compensate, checked_amount_to_compensate, compensate_order,
    verify_items_uncompensated, CompensationAction, CompensationError, CompensationEvent,
    CompensationProcess, CompensationStep, CompensationsLookupFailure, OrderCompensation, OrderItem,
};

fn uuid(value: u128) -> Uuid {
    Uuid { value }
}

fn item(id: u128, amount: u64) -> OrderItem {
    OrderItem { _id: uuid(id), compensatable_amount: amount }
}

fn order_items() -> Vec<OrderItem> {
    vec![item(1, 1000), item(2, 250), item(3, 40), item(4, 7)]
}

fn existing(ids: &[u128]) -> OrderCompensation {
    OrderCompensation {
        _id: uuid(900),
        order_id: uuid(100),
        order_item_ids: ids.iter().map(|&id| uuid(id)).collect(),
        triggered_at: 0,
        amount_to_compensate: 1,
    }
}

fn begin(order_item_ids: Vec<Uuid>) -> CompensationProcess {
    let (process, action) = compensate_order(ShipmentFailedEventData { order_id: uuid(100), order_item_ids });
    assert!(matches!(action, CompensationAction::ValidateOrder { order_id } if order_id == uuid(100)));
    assert_eq!(process.step(), CompensationStep::ValidatingOrder);
    process
}

/// Runs the compensation up to the insertion of its record.
fn up_to_insert(order_item_ids: Vec<Uuid>) -> (CompensationProcess, OrderCompensation) {
    let process = begin(order_item_ids);
    let (process, action) = process.advance(CompensationEvent::OrderValidated(Ok(())));
    assert!(matches!(action, CompensationAction::FindCompensations { .. }));
    let (process, action) = process.advance(CompensationEvent::CompensationsFound(Ok(vec![existing(&[7, 8])])));
    assert!(matches!(action, CompensationAction::FetchOrder { order_id } if order_id == uuid(100)));
    let (process, action) = process.advance(CompensationEvent::OrderFetched(Ok(order_items())));
    match action {
        CompensationAction::InsertCompensation(record) => (process, record),
        other => panic!("unexpected {:?}", other),
    }
}

#[test]
fn amount_is_the_sum_of_the_listed_items() {
    assert_eq!(calculate_amount_to_compensate(&order_items(), &vec![uuid(1), uuid(3)]), 1040);
    assert_eq!(calculate_amount_to_compensate(&order_items(), &vec![uuid(4)]), 7);
    assert_eq!(calculate_amount_to_compensate(&order_items(), &vec![uuid(1), uuid(2), uuid(3), uuid(4)]), 1297);
}

#[test]
fn amount_ignores_unknown_ids_and_empty_lists() {
    assert_eq!(calculate_amount_to_compensate(&order_items(), &vec![uuid(99)]), 0);
    assert_eq!(calculate_amount_to_compensate(&order_items(), &vec![]), 0);
    assert_eq!(calculate_amount_to_compensate(&vec![], &vec![uuid(1)]), 0);
}

#[test]
fn amount_does_not_depend_on_order_or_repetition_of_ids() {
    let once = calculate_amount_to_compensate(&order_items(), &vec![uuid(2), uuid(3)]);
    let again = calculate_amount_to_compensate(&order_items(), &vec![uuid(3), uuid(2), uuid(3), uuid(2)]);
    assert_eq!(once, 290);
    assert_eq!(once, again);
}

#[test]
fn amount_of_concatenated_items_is_the_sum_of_the_parts() {
    let ids = vec![uuid(1), uuid(4), uuid(6)];
    let first = vec![item(1, 10), item(2, 20)];
    let second = vec![item(4, 30), item(6, 5)];
    let mut both = first.clone();
    both.extend(second.iter().copied());
    assert_eq!(
        calculate_amount_to_compensate(&both, &ids),
        calculate_amount_to_compensate(&first, &ids) + calculate_amount_to_compensate(&second, &ids)
    );
    assert_eq!(calculate_amount_to_compensate(&both, &ids), 45);
}

#[test]
fn checked_amount_reports_overflow() {
    let items = vec![item(1, u64::MAX), item(2, 1)];
    assert_eq!(checked_amount_to_compensate(&items, &vec![uuid(1)]), Some(u64::MAX));
    assert_eq!(checked_amount_to_compensate(&items, &vec![uuid(1), uuid(2)]), None);
    assert_eq!(checked_amount_to_compensate(&order_items(), &vec![uuid(2)]), Some(250));
}

#[test]
fn items_without_compensation_are_verified() {
    let found = vec![existing(&[7, 8]), existing(&[])];
    assert!(verify_items_uncompensated(&found, &vec![uuid(1), uuid(2)]).is_ok());
    assert!(verify_items_uncompensated(&vec![], &vec![uuid(1)]).is_ok());
}

#[test]
fn compensated_item_is_not_verified() {
    let found = vec![existing(&[7, 8]), existing(&[5, 2])];
    match verify_items_uncompensated(&found, &vec![uuid(1), uuid(2)]) {
        Err(CompensationError::ItemsNotVerified { order_item_ids }) => {
            assert_eq!(order_item_ids, vec![uuid(1), uuid(2)]);
        },
        other => panic!("unexpected {:?}", other),
    }
}

#[test]
fn compensation_runs_to_completion() {
    let (process, record) = up_to_insert(vec![uuid(1), uuid(3)]);
    assert_eq!(process.step(), CompensationStep::Inserting);
    assert_eq!(record.order_id, uuid(100));
    assert_eq!(record.order_item_ids, vec![uuid(1), uuid(3)]);
    assert_eq!(record.amount_to_compensate, 1040);
    // 2020-01-01: the record is stamped with the current time.
    assert!(record.triggered_at > 1_577_836_800_000);
    let (process, action) = process.advance(CompensationEvent::CompensationInserted(true));
    match action {
        CompensationAction::PublishCompensation(published) => {
            assert_eq!(published._id, record._id);
            assert_eq!(published.triggered_at, record.triggered_at);
            assert_eq!(published.amount_to_compensate, record.amount_to_compensate);
            assert_eq!(published.order_item_ids, record.order_item_ids);
        },
        other => panic!("unexpected {:?}", other),
    }
    let (process, action) = process.advance(CompensationEvent::CompensationPublished(Ok(())));
    assert!(matches!(action, CompensationAction::Finish(Ok(()))));
    assert_eq!(process.step(), CompensationStep::Done);
    assert!(!process.admits_event(&CompensationEvent::OrderValidated(Ok(()))));
    assert!(!process.admits_event(&CompensationEvent::CompensationsFound(Ok(vec![]))));
    assert!(!process.admits_event(&CompensationEvent::OrderFetched(Ok(vec![]))));
    assert!(!process.admits_event(&CompensationEvent::CompensationInserted(true)));
    assert!(!process.admits_event(&CompensationEvent::CompensationPublished(Ok(()))));
}

#[test]
fn ids_foreign_to_the_order_do_not_change_the_amount() {
    let listed = calculate_amount_to_compensate(&order_items(), &vec![uuid(2), uuid(4)]);
    let with_foreign = calculate_amount_to_compensate(&order_items(), &vec![uuid(77), uuid(4), uuid(2), uuid(78)]);
    assert_eq!(listed, 257);
    assert_eq!(listed, with_foreign);
}

#[test]
fn listing_more_items_never_lowers_the_amount() {
    let fewer = calculate_amount_to_compensate(&order_items(), &vec![uuid(3)]);
    let more = calculate_amount_to_compensate(&order_items(), &vec![uuid(3), uuid(1), uuid(99)]);
    assert_eq!(fewer, 40);
    assert_eq!(more, 1040);
    assert!(fewer <= more);
}

#[test]
fn compensation_uuid_is_a_version_4_uuid() {
    let (_, record) = up_to_insert(vec![uuid(1)]);
    assert_eq!(record._id.value & 0xF000_C000_0000_0000_0000u128, 0x4000_8000_0000_0000_0000u128);
    let copy = record.clone();
    assert_eq!(copy._id, record._id);
    assert_eq!(copy.order_item_ids, record.order_item_ids);
}

#[test]
fn each_compensation_gets_its_own_uuid() {
    let (_, first) = up_to_insert(vec![uuid(1)]);
    let (_, second) = up_to_insert(vec![uuid(1)]);
    assert_ne!(first._id, second._id);
}

#[test]
fn invalid_order_ends_the_compensation() {
    let process = begin(vec![uuid(1)]);
    let (process, action) = process.advance(CompensationEvent::OrderValidated(Err("no order".to_string())));
    assert!(matches!(action, CompensationAction::Finish(Err(CompensationError::InvalidOrder(ref m))) if m == "no order"));
    assert_eq!(process.step(), CompensationStep::Failed);
    assert!(!process.admits_event(&CompensationEvent::OrderValidated(Ok(()))));
    assert!(!process.admits_event(&CompensationEvent::CompensationInserted(true)));
}

#[test]
fn already_compensated_items_end_the_compensation() {
    let process = begin(vec![uuid(1), uuid(8)]);
    let (process, _) = process.advance(CompensationEvent::OrderValidated(Ok(())));
    let (process, action) = process.advance(CompensationEvent::CompensationsFound(Ok(vec![existing(&[7, 8])])));
    match action {
        CompensationAction::Finish(Err(CompensationError::ItemsNotVerified { order_item_ids })) => {
            assert_eq!(order_item_ids, vec![uuid(1), uuid(8)]);
        },
        other => panic!("unexpected {:?}", other),
    }
    assert_eq!(process.step(), CompensationStep::Failed);
}

#[test]
fn failed_lookup_of_compensations_ends_the_compensation() {
    let process = begin(vec![uuid(1)]);
    let (process, _) = process.advance(CompensationEvent::OrderValidated(Ok(())));
    let (_, action) = process.advance(CompensationEvent::CompensationsFound(Err(CompensationsLookupFailure::QueryFailed)));
    assert!(matches!(action, CompensationAction::Finish(Err(CompensationError::ItemsNotVerified { .. }))));

    let process = begin(vec![uuid(1)]);
    let (process, _) = process.advance(CompensationEvent::OrderValidated(Ok(())));
    let (_, action) = process.advance(CompensationEvent::CompensationsFound(Err(
        CompensationsLookupFailure::ReadFailed("cursor closed".to_string()),
    )));
    assert!(matches!(action, CompensationAction::Finish(Err(CompensationError::CompensationsUnreadable(ref m))) if m == "cursor closed"));
}

#[test]
fn unavailable_order_ends_the_compensation() {
    let process = begin(vec![uuid(1)]);
    let (process, _) = process.advance(CompensationEvent::OrderValidated(Ok(())));
    let (process, _) = process.advance(CompensationEvent::CompensationsFound(Ok(vec![])));
    let (process, action) = process.advance(CompensationEvent::OrderFetched(Err("gone".to_string())));
    assert!(matches!(action, CompensationAction::Finish(Err(CompensationError::OrderUnavailable(ref m))) if m == "gone"));
    assert_eq!(process.step(), CompensationStep::Failed);
}

#[test]
fn failed_insert_ends_the_compensation() {
    let (process, _) = up_to_insert(vec![uuid(2)]);
    let (process, action) = process.advance(CompensationEvent::CompensationInserted(false));
    assert!(matches!(action, CompensationAction::Finish(Err(CompensationError::InsertFailed))));
    assert_eq!(process.step(), CompensationStep::Failed);
}

#[test]
fn failed_publication_ends_the_compensation() {
    let (process, _) = up_to_insert(vec![uuid(2)]);
    let (process, _) = process.advance(CompensationEvent::CompensationInserted(true));
    let (process, action) = process.advance(CompensationEvent::CompensationPublished(Err("refused".to_string())));
    assert!(matches!(action, CompensationAction::Finish(Err(CompensationError::PublishFailed(ref m))) if m == "refused"));
    assert_eq!(process.step(), CompensationStep::Failed);
}

#[test]
fn only_the_awaited_event_is_admitted() {
    let process = begin(vec![uuid(1)]);
    assert!(process.admits_event(&CompensationEvent::OrderValidated(Ok(()))));
    assert!(!process.admits_event(&CompensationEvent::CompensationsFound(Ok(vec![]))));
    assert!(!process.admits_event(&CompensationEvent::OrderFetched(Ok(order_items()))));
    assert!(!process.admits_event(&CompensationEvent::CompensationInserted(true)));
    assert!(!process.admits_event(&CompensationEvent::CompensationPublished(Ok(()))));
}

#[test]
fn order_whose_amount_overflows_is_not_admitted() {
    let process = begin(vec![uuid(1), uuid(2)]);
    let (process, _) = process.advance(CompensationEvent::OrderValidated(Ok(())));
    let (process, _) = process.advance(CompensationEvent::CompensationsFound(Ok(vec![])));
    assert_eq!(process.step(), CompensationStep::CalculatingAmount);
    assert!(!process.admits_event(&CompensationEvent::OrderFetched(Ok(vec![item(1, u64::MAX), item(2, 1)]))));
    assert!(process.admits_event(&CompensationEvent::OrderFetched(Ok(vec![item(1, u64::MAX), item(3, 1)]))));
    assert!(process.admits_event(&CompensationEvent::OrderFetched(Err("gone".to_string()))));
}

#[test]
fn stored_compensations_keep_covering_each_item_once() {
    let stored = vec![existing(&[7, 8]), existing(&[9])];
    let (_, record) = up_to_insert(vec![uuid(1), uuid(3)]);
    let mut all: Vec<Vec<Uuid>> = stored.iter().map(|c| c.order_item_ids.clone()).collect();
    all.push(record.order_item_ids.clone());
    for (i, first) in all.iter().enumerate() {
        for second in all.iter().skip(i + 1) {
            assert!(first.iter().all(|id| !second.contains(id)));
        }
    }
    // A shipment that shares an item with a stored compensation gets no record.
    let process = begin(vec![uuid(9), uuid(3)]);
    let (process, _) = process.advance(CompensationEvent::OrderValidated(Ok(())));
    let (_, action) = process.advance(CompensationEvent::CompensationsFound(Ok(stored)));
    assert!(matches!(action, CompensationAction::Finish(Err(CompensationError::ItemsNotVerified { .. }))));
}
