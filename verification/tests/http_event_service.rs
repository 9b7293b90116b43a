use order_events::event::http_event_service::{
    create_or_update_product_variant_in_mongodb, list_topic_subscriptions, on_id_creation_event,
    on_product_variant_update_event, on_product_variant_version_creation_event,
    on_shipment_creation_failed_event, on_tax_rate_version_creation_event,
    on_user_address_archived_event, on_user_address_creation_event, topic_event_response,
    DatabaseWrite, Event, IdObjectKind, ProductVariantVersionEventData, ProductVariantWrite,
    ShipmentFailedEventData, ShipmentStatus, ShipmentStatusUpdatedEventData, StatusCode,
    TaxRateVersionEventData, TopicEventResponse, UpdateProductVariantEventData,
    UserAddressEventData, UuidEventData, COUPON_CREATED_TOPIC, ID_CREATION_ROUTE,
    PRODUCT_VARIANT_UPDATED_TOPIC, SHIPMENT_CREATION_FAILED_TOPIC,
};
use order_events::event::ids::{contains_id, copy_ids, Uuid};

fn uuid(value: u128) -> Uuid {
    Uuid { value }
}

fn event<T>(topic: &str, data: T) -> Event<T> {
    Event { topic: topic.to_string(), data }
}

fn version_data() -> ProductVariantVersionEventData {
    ProductVariantVersionEventData {
        id: uuid(1),
        retail_price: 1999,
        tax_rate_id: uuid(2),
        product_variant_id: uuid(3),
    }
}

#[test]
fn subscriptions_are_the_eight_dapr_topics_in_order() {
    let subscriptions = list_topic_subscriptions();
    let expected = [
        ("catalog/product-variant/updated", "/on-product-variant-updated-event"),
        ("catalog/product-variant-version/created", "/on-product-variant-version-creation-event"),
        ("discount/coupon/created", "/on-id-creation-event"),
        ("tax/tax-rate-version/created", "/on-tax-rate-version-creation-event"),
        ("shipment/shipment-method/created", "/on-id-creation-event"),
        ("user/user/created", "/on-id-creation-event"),
        ("address/user-address/created", "/on-user-address-creation-event"),
        ("address/user-address/archived", "/on-user-address-archived-event"),
    ];
    assert_eq!(subscriptions.len(), expected.len());
    for (subscription, (topic, route)) in subscriptions.iter().zip(expected.iter()) {
        assert_eq!(subscription.pubsubname, "pubsub");
        assert_eq!(subscription.topic, *topic);
        assert_eq!(subscription.route, *route);
    }
}

#[test]
fn no_topic_is_subscribed_twice() {
    let subscriptions = list_topic_subscriptions();
    for (i, first) in subscriptions.iter().enumerate() {
        for second in subscriptions.iter().skip(i + 1) {
            assert_ne!(first.topic, second.topic);
        }
    }
}

#[test]
fn failed_shipment_creations_are_not_subscribed() {
    let subscriptions = list_topic_subscriptions();
    assert!(subscriptions.iter().all(|s| s.topic != SHIPMENT_CREATION_FAILED_TOPIC));
}

#[test]
fn every_subscription_reaches_a_handler_that_accepts_it() {
    for subscription in list_topic_subscriptions() {
        let topic = subscription.topic.as_str();
        let accepted = match subscription.route.as_str() {
            "/on-id-creation-event" => on_id_creation_event(event(topic, UuidEventData { id: uuid(1) })).is_ok(),
            "/on-product-variant-version-creation-event" => {
                on_product_variant_version_creation_event(event(topic, version_data())).is_ok()
            },
            "/on-product-variant-updated-event" => on_product_variant_update_event(event(
                topic,
                UpdateProductVariantEventData { id: uuid(1), is_publicly_visible: "true".to_string() },
            )).is_ok(),
            "/on-tax-rate-version-creation-event" => on_tax_rate_version_creation_event(event(
                topic,
                TaxRateVersionEventData { id: uuid(1), rate_bits: 0.19f64.to_bits(), version: 1, tax_rate_id: uuid(2) },
            )).is_ok(),
            "/on-user-address-creation-event" => on_user_address_creation_event(event(
                topic,
                UserAddressEventData { id: uuid(1), user_id: uuid(2) },
            )).is_ok(),
            "/on-user-address-archived-event" => on_user_address_archived_event(event(
                topic,
                UserAddressEventData { id: uuid(1), user_id: uuid(2) },
            )).is_ok(),
            other => panic!("unexpected route {}", other),
        };
        assert!(accepted, "{} is refused at {}", topic, subscription.route);
    }
    assert_eq!(ID_CREATION_ROUTE, "/on-id-creation-event");
}

#[test]
fn default_topic_event_response_is_ok_status() {
    assert_eq!(TopicEventResponse::default().status, 0);
}

#[test]
fn id_creation_events_create_the_object_of_their_topic() {
    let cases = [
        ("discount/coupon/created", IdObjectKind::Coupon),
        ("shipment/shipment-method/created", IdObjectKind::ShipmentMethod),
        ("user/user/created", IdObjectKind::User),
    ];
    for (topic, expected_kind) in cases {
        match on_id_creation_event(event(topic, UuidEventData { id: uuid(42) })) {
            Ok(DatabaseWrite::CreateObject { kind, id }) => {
                assert_eq!(kind, expected_kind);
                assert_eq!(id, uuid(42));
            },
            other => panic!("unexpected {:?}", other),
        }
    }
    assert_eq!(COUPON_CREATED_TOPIC, "discount/coupon/created");
}

#[test]
fn id_creation_event_of_another_topic_is_refused_with_500() {
    for topic in ["user/user/deleted", "", "discount/coupon/created ", "catalog/product-variant/updated"] {
        let refused = on_id_creation_event(event(topic, UuidEventData { id: uuid(1) }));
        assert!(matches!(refused, Err(StatusCode { code: 500 })), "{:?}", refused);
    }
}

#[test]
fn product_variant_version_event_is_handed_on() {
    match on_product_variant_version_creation_event(event(
        "catalog/product-variant-version/created",
        version_data(),
    )) {
        Ok(DatabaseWrite::CreateOrUpdateProductVariant(data)) => {
            assert_eq!(data.id, uuid(1));
            assert_eq!(data.retail_price, 1999);
            assert_eq!(data.tax_rate_id, uuid(2));
            assert_eq!(data.product_variant_id, uuid(3));
        },
        other => panic!("unexpected {:?}", other),
    }
    assert!(matches!(
        on_product_variant_version_creation_event(event("catalog/product-variant/updated", version_data())),
        Err(StatusCode { code: 500 })
    ));
}

#[test]
fn product_variant_update_event_sets_visibility() {
    match on_product_variant_update_event(event(
        PRODUCT_VARIANT_UPDATED_TOPIC,
        UpdateProductVariantEventData { id: uuid(5), is_publicly_visible: "false".to_string() },
    )) {
        Ok(DatabaseWrite::UpdateProductVariantVisibility(data)) => {
            assert_eq!(data.id, uuid(5));
            assert_eq!(data.is_publicly_visible, "false");
        },
        other => panic!("unexpected {:?}", other),
    }
    assert!(matches!(
        on_product_variant_update_event(event(
            "catalog/product-variant-version/created",
            UpdateProductVariantEventData { id: uuid(5), is_publicly_visible: "false".to_string() },
        )),
        Err(StatusCode { code: 500 })
    ));
}

#[test]
fn tax_rate_version_event_keeps_the_rate() {
    let data = TaxRateVersionEventData { id: uuid(7), rate_bits: 0.07f64.to_bits(), version: 3, tax_rate_id: uuid(8) };
    match on_tax_rate_version_creation_event(event("tax/tax-rate-version/created", data)) {
        Ok(DatabaseWrite::CreateOrUpdateTaxRate(handed_on)) => {
            assert_eq!(f64::from_bits(handed_on.rate_bits), 0.07);
            assert_eq!(handed_on.version, 3);
            assert_eq!(handed_on.id, uuid(7));
            assert_eq!(handed_on.tax_rate_id, uuid(8));
        },
        other => panic!("unexpected {:?}", other),
    }
    assert!(matches!(
        on_tax_rate_version_creation_event(event("tax/tax-rate/created", data)),
        Err(StatusCode { code: 500 })
    ));
}

#[test]
fn user_address_events_insert_and_remove_the_address() {
    let data = UserAddressEventData { id: uuid(11), user_id: uuid(12) };
    match on_user_address_creation_event(event("address/user-address/created", data)) {
        Ok(DatabaseWrite::InsertUserAddress(d)) => {
            assert_eq!(d.id, uuid(11));
            assert_eq!(d.user_id, uuid(12));
        },
        other => panic!("unexpected {:?}", other),
    }
    match on_user_address_archived_event(event("address/user-address/archived", data)) {
        Ok(DatabaseWrite::RemoveUserAddress(d)) => {
            assert_eq!(d.id, uuid(11));
            assert_eq!(d.user_id, uuid(12));
        },
        other => panic!("unexpected {:?}", other),
    }
    assert!(matches!(
        on_user_address_creation_event(event("address/user-address/archived", data)),
        Err(StatusCode { code: 500 })
    ));
    assert!(matches!(
        on_user_address_archived_event(event("address/user-address/created", data)),
        Err(StatusCode { code: 500 })
    ));
}

#[test]
fn shipment_creation_failed_event_asks_for_compensation() {
    let data = ShipmentFailedEventData { order_id: uuid(20), order_item_ids: vec![uuid(21), uuid(22)] };
    match on_shipment_creation_failed_event(event("shipment/shipment/creation-failed", data)) {
        Ok(DatabaseWrite::CompensateOrder(d)) => {
            assert_eq!(d.order_id, uuid(20));
            assert_eq!(d.order_item_ids, vec![uuid(21), uuid(22)]);
        },
        other => panic!("unexpected {:?}", other),
    }
    let data = ShipmentFailedEventData { order_id: uuid(20), order_item_ids: vec![] };
    assert!(matches!(
        on_shipment_creation_failed_event(event("shipment/shipment/created", data)),
        Err(StatusCode { code: 500 })
    ));
}

#[test]
fn response_follows_the_write() {
    assert!(matches!(topic_event_response(true), Ok(TopicEventResponse { status: 0 })));
    assert!(matches!(topic_event_response(false), Err(StatusCode { code: 500 })));
    assert_eq!(StatusCode::internal_server_error(), StatusCode { code: 500 });
}

#[test]
fn found_product_variant_is_updated_and_missing_one_created() {
    match create_or_update_product_variant_in_mongodb(version_data(), Some(uuid(3))) {
        ProductVariantWrite::UpdateCurrentVersion { product_variant_id, version } => {
            assert_eq!(product_variant_id, uuid(3));
            assert_eq!(version.id, uuid(1));
        },
        other => panic!("unexpected {:?}", other),
    }
    match create_or_update_product_variant_in_mongodb(version_data(), None) {
        ProductVariantWrite::Create(version) => assert_eq!(version.retail_price, 1999),
        other => panic!("unexpected {:?}", other),
    }
}

#[test]
fn shipment_status_data_carries_its_status() {
    let data = ShipmentStatusUpdatedEventData {
        order_id: uuid(1),
        order_item_ids: vec![uuid(2)],
        status: ShipmentStatus::Delivered,
    };
    assert_eq!(data.status, ShipmentStatus::Delivered);
    assert_ne!(data.status, ShipmentStatus::Failed);
}

#[test]
fn uuid_lists_are_searched_and_copied() {
    let ids = vec![uuid(3), uuid(1), uuid(3)];
    assert!(contains_id(&ids, uuid(1)));
    assert!(contains_id(&ids, uuid(3)));
    assert!(!contains_id(&ids, uuid(2)));
    assert!(!contains_id(&Vec::new(), uuid(2)));
    assert_eq!(copy_ids(&ids), ids);
}

/// How many of the handlers act on `topic`.
fn handlers_accepting(topic: &str) -> usize {
    let id = UuidEventData { id: uuid(1) };
    let address = UserAddressEventData { id: uuid(1), user_id: uuid(2) };
    [
        on_id_creation_event(event(topic, id)).is_ok(),
        on_product_variant_version_creation_event(event(topic, version_data())).is_ok(),
        on_product_variant_update_event(event(
            topic,
            UpdateProductVariantEventData { id: uuid(1), is_publicly_visible: "true".to_string() },
        ))
        .is_ok(),
        on_tax_rate_version_creation_event(event(
            topic,
            TaxRateVersionEventData { id: uuid(1), rate_bits: 0, version: 1, tax_rate_id: uuid(2) },
        ))
        .is_ok(),
        on_user_address_creation_event(event(topic, address)).is_ok(),
        on_user_address_archived_event(event(topic, address)).is_ok(),
        on_shipment_creation_failed_event(event(
            topic,
            ShipmentFailedEventData { order_id: uuid(1), order_item_ids: vec![] },
        ))
        .is_ok(),
    ]
    .iter()
    .filter(|accepted| **accepted)
    .count()
}

#[test]
fn each_topic_is_acted_on_by_exactly_one_handler() {
    for subscription in list_topic_subscriptions() {
        assert_eq!(handlers_accepting(&subscription.topic), 1, "{}", subscription.topic);
    }
    assert_eq!(handlers_accepting(SHIPMENT_CREATION_FAILED_TOPIC), 1);
    assert_eq!(handlers_accepting("order/order/created"), 0);
}

#[test]
fn repeated_product_variant_write_sets_the_same_version() {
    let first = create_or_update_product_variant_in_mongodb(version_data(), None);
    let second = create_or_update_product_variant_in_mongodb(version_data(), Some(uuid(3)));
    let third = create_or_update_product_variant_in_mongodb(version_data(), Some(uuid(3)));
    match (first, second, third) {
        (
            ProductVariantWrite::Create(created),
            ProductVariantWrite::UpdateCurrentVersion { product_variant_id: a, version: v2 },
            ProductVariantWrite::UpdateCurrentVersion { product_variant_id: b, version: v3 },
        ) => {
            assert_eq!(created.product_variant_id, uuid(3));
            assert_eq!((a, b), (uuid(3), uuid(3)));
            assert_eq!((v2.id, v3.id, created.id), (uuid(1), uuid(1), uuid(1)));
            assert_eq!((v2.retail_price, v3.retail_price), (1999, 1999));
        },
        other => panic!("unexpected {:?}", other),
    }
}
