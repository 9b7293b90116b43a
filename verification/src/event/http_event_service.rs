use vstd::prelude::*;

use crate::event::ids::Uuid;

verus! {

/// Name of the Dapr pub/sub component that every subscription uses.
pub const PUBSUB_NAME: &'static str = "pubsub";

pub const PRODUCT_VARIANT_VERSION_CREATED_TOPIC: &'static str = "catalog/product-variant-version/created";

pub const PRODUCT_VARIANT_UPDATED_TOPIC: &'static str = "catalog/product-variant/updated";

pub const COUPON_CREATED_TOPIC: &'static str = "discount/coupon/created";

pub const TAX_RATE_VERSION_CREATED_TOPIC: &'static str = "tax/tax-rate-version/created";

pub const SHIPMENT_METHOD_CREATED_TOPIC: &'static str = "shipment/shipment-method/created";

pub const USER_CREATED_TOPIC: &'static str = "user/user/created";

pub const USER_ADDRESS_CREATED_TOPIC: &'static str = "address/user-address/created";

pub const USER_ADDRESS_ARCHIVED_TOPIC: &'static str = "address/user-address/archived";

pub const SHIPMENT_CREATION_FAILED_TOPIC: &'static str = "shipment/shipment/creation-failed";

pub const PRODUCT_VARIANT_VERSION_CREATION_ROUTE: &'static str = "/on-product-variant-version-creation-event";

pub const PRODUCT_VARIANT_UPDATED_ROUTE: &'static str = "/on-product-variant-updated-event";

pub const ID_CREATION_ROUTE: &'static str = "/on-id-creation-event";

pub const TAX_RATE_VERSION_CREATION_ROUTE: &'static str = "/on-tax-rate-version-creation-event";

pub const USER_ADDRESS_CREATION_ROUTE: &'static str = "/on-user-address-creation-event";

pub const USER_ADDRESS_ARCHIVED_ROUTE: &'static str = "/on-user-address-archived-event";

/// An HTTP status code that a handler answers with.
#[derive(Clone, Copy, Debug, PartialEq, Eq, Structural)]
pub struct StatusCode {
    pub code: u16,
}

impl StatusCode {
    /// `500 Internal Server Error`, the status of every refused event.
    pub fn internal_server_error() -> (status: StatusCode)
        ensures
            status.code == 500,
    {
        StatusCode { code: 500 }
    }
}

/// The status every refused event is answered with.
pub open spec fn internal_server_error() -> StatusCode {
    StatusCode { code: 500 }
}

/// Data to send to Dapr in order to describe a subscription.
#[derive(Debug)]
pub struct Pubsub {
    pub pubsubname: String,
    pub topic: String,
    pub route: String,
}

/// Reponse data to send to Dapr when receiving an event.
#[derive(Debug, Clone, Copy)]
pub struct TopicEventResponse {
    pub status: u8,
}

/// Default status is `0` -> Ok, according to Dapr specs.
impl Default for TopicEventResponse {
    fn default() -> (response: Self)
        ensures
            response.status == 0,
    {
        Self { status: 0 }
    }
}

/// Relevant part of Dapr event wrapped in a cloud envelope.
#[derive(Debug)]
pub struct Event<T> {
    pub topic: String,
    pub data: T,
}

/// Event data containing a UUID.
#[derive(Debug, Clone, Copy)]
pub struct UuidEventData {
    pub id: Uuid,
}

/// Event data containing a product variant version.
///
/// Differs from product variant version in the `id` field naming.
#[derive(Debug, Clone, Copy)]
pub struct ProductVariantVersionEventData {
    /// UUID of product variant version.
    pub id: Uuid,
    /// Price of product variant version.
    pub retail_price: u32,
    /// UUID of tax rate associated with order item.
    pub tax_rate_id: Uuid,
    /// UUID of product variant associated with product variant version.
    pub product_variant_id: Uuid,
}

#[derive(Debug, Clone, Copy)]
pub struct TaxRateVersionEventData {
    /// UUID of the tax rate version.
    pub id: Uuid,
    /// Rate of the tax rate version, as the IEEE 754 bits of the `f64` that
    /// the event carries: the library hands it on unread.
    pub rate_bits: u64,
    /// Version number of tax rate.
    pub version: u32,
    /// UUID of tax rate associated with order item.
    pub tax_rate_id: Uuid,
}

#[derive(Debug, Clone, Copy)]
pub struct UserAddressEventData {
    /// UUID of the user address.
    pub id: Uuid,
    /// UUID of user of user address.
    pub user_id: Uuid,
}

#[derive(Debug)]
pub struct ShipmentFailedEventData {
    /// UUID of the order of shipment.
    pub order_id: Uuid,
    /// UUIDs of the order items of shipment.
    pub order_item_ids: Vec<Uuid>,
}

#[derive(Debug)]
pub struct ShipmentStatusUpdatedEventData {
    /// UUID of the order of shipment.
    pub order_id: Uuid,
    /// UUIDs of the order items of shipment.
    pub order_item_ids: Vec<Uuid>,
    /// Status of shipment.
    pub status: ShipmentStatus,
}

/// Shipment status of order.
#[derive(Debug, Clone, Copy, PartialEq, Eq, Structural)]
pub enum ShipmentStatus {
    Pending,
    InProgress,
    Delivered,
    Failed,
}

#[derive(Debug)]
pub struct UpdateProductVariantEventData {
    /// UUID of the product variant to update.
    pub id: Uuid,
    /// New visibility of product variant to update.
    pub is_publicly_visible: String,
}

/// The topics that the service subscribes to, each with the route that Dapr
/// delivers its events to, in the order of `list_topic_subscriptions`.
pub open spec fn subscription_table() -> Seq<(Seq<char>, Seq<char>)> {
    seq![
        (PRODUCT_VARIANT_UPDATED_TOPIC@, PRODUCT_VARIANT_UPDATED_ROUTE@),
        (PRODUCT_VARIANT_VERSION_CREATED_TOPIC@, PRODUCT_VARIANT_VERSION_CREATION_ROUTE@),
        (COUPON_CREATED_TOPIC@, ID_CREATION_ROUTE@),
        (TAX_RATE_VERSION_CREATED_TOPIC@, TAX_RATE_VERSION_CREATION_ROUTE@),
        (SHIPMENT_METHOD_CREATED_TOPIC@, ID_CREATION_ROUTE@),
        (USER_CREATED_TOPIC@, ID_CREATION_ROUTE@),
        (USER_ADDRESS_CREATED_TOPIC@, USER_ADDRESS_CREATION_ROUTE@),
        (USER_ADDRESS_ARCHIVED_TOPIC@, USER_ADDRESS_ARCHIVED_ROUTE@),
    ]
}

fn subscription(topic: &'static str, route: &'static str) -> (pubsub: Pubsub)
    ensures
        pubsub.pubsubname@ == PUBSUB_NAME@,
        pubsub.topic@ == topic@,
        pubsub.route@ == route@,
{
    Pubsub { pubsubname: PUBSUB_NAME.to_owned(), topic: topic.to_owned(), route: route.to_owned() }
}

/// The topic subscriptions that the service declares to Dapr: one per entry
/// of `subscription_table`, in its order, all on the `pubsub` component.
pub fn list_topic_subscriptions() -> (subscriptions: Vec<Pubsub>)
    ensures
        subscriptions@.len() == subscription_table().len(),
        forall|i: int|
            0 <= i < subscriptions@.len() ==> {
                &&& #[trigger] subscriptions@[i].pubsubname@ == PUBSUB_NAME@
                &&& (subscriptions@[i].topic@, subscriptions@[i].route@) == subscription_table()[i]
            },
{
    let mut subscriptions: Vec<Pubsub> = Vec::new();
    subscriptions.push(subscription(PRODUCT_VARIANT_UPDATED_TOPIC, PRODUCT_VARIANT_UPDATED_ROUTE));
    subscriptions.push(
        subscription(PRODUCT_VARIANT_VERSION_CREATED_TOPIC, PRODUCT_VARIANT_VERSION_CREATION_ROUTE),
    );
    subscriptions.push(subscription(COUPON_CREATED_TOPIC, ID_CREATION_ROUTE));
    subscriptions.push(subscription(TAX_RATE_VERSION_CREATED_TOPIC, TAX_RATE_VERSION_CREATION_ROUTE));
    subscriptions.push(subscription(SHIPMENT_METHOD_CREATED_TOPIC, ID_CREATION_ROUTE));
    subscriptions.push(subscription(USER_CREATED_TOPIC, ID_CREATION_ROUTE));
    subscriptions.push(subscription(USER_ADDRESS_CREATED_TOPIC, USER_ADDRESS_CREATION_ROUTE));
    subscriptions.push(subscription(USER_ADDRESS_ARCHIVED_TOPIC, USER_ADDRESS_ARCHIVED_ROUTE));
    subscriptions
}

/// The HTTP endpoints that receive events.
#[derive(Debug, Clone, Copy, PartialEq, Eq, Structural)]
pub enum EventHandler {
    IdCreation,
    ProductVariantVersionCreation,
    ProductVariantUpdate,
    TaxRateVersionCreation,
    UserAddressCreation,
    UserAddressArchived,
    ShipmentCreationFailed,
}

/// The topics whose events a handler acts on; it refuses every other topic.
pub open spec fn accepts(handler: EventHandler, topic: Seq<char>) -> bool {
    match handler {
        EventHandler::IdCreation => topic == COUPON_CREATED_TOPIC@ || topic
            == SHIPMENT_METHOD_CREATED_TOPIC@ || topic == USER_CREATED_TOPIC@,
        EventHandler::ProductVariantVersionCreation => topic
            == PRODUCT_VARIANT_VERSION_CREATED_TOPIC@,
        EventHandler::ProductVariantUpdate => topic == PRODUCT_VARIANT_UPDATED_TOPIC@,
        EventHandler::TaxRateVersionCreation => topic == TAX_RATE_VERSION_CREATED_TOPIC@,
        EventHandler::UserAddressCreation => topic == USER_ADDRESS_CREATED_TOPIC@,
        EventHandler::UserAddressArchived => topic == USER_ADDRESS_ARCHIVED_TOPIC@,
        EventHandler::ShipmentCreationFailed => topic == SHIPMENT_CREATION_FAILED_TOPIC@,
    }
}

/// The handler that a subscription route names.
pub open spec fn route_handler(route: Seq<char>) -> Option<EventHandler> {
    if route == ID_CREATION_ROUTE@ {
        Some(EventHandler::IdCreation)
    } else if route == PRODUCT_VARIANT_VERSION_CREATION_ROUTE@ {
        Some(EventHandler::ProductVariantVersionCreation)
    } else if route == PRODUCT_VARIANT_UPDATED_ROUTE@ {
        Some(EventHandler::ProductVariantUpdate)
    } else if route == TAX_RATE_VERSION_CREATION_ROUTE@ {
        Some(EventHandler::TaxRateVersionCreation)
    } else if route == USER_ADDRESS_CREATION_ROUTE@ {
        Some(EventHandler::UserAddressCreation)
    } else if route == USER_ADDRESS_ARCHIVED_ROUTE@ {
        Some(EventHandler::UserAddressArchived)
    } else {
        None
    }
}

/// The kinds of object that are created from nothing but a UUID.
#[derive(Debug, Clone, Copy, PartialEq, Eq, Structural)]
pub enum IdObjectKind {
    Coupon,
    ShipmentMethod,
    User,
}

/// The kind of object that an id creation event of `topic` creates.
pub open spec fn id_object_kind(topic: Seq<char>) -> Option<IdObjectKind> {
    if topic == COUPON_CREATED_TOPIC@ {
        Some(IdObjectKind::Coupon)
    } else if topic == SHIPMENT_METHOD_CREATED_TOPIC@ {
        Some(IdObjectKind::ShipmentMethod)
    } else if topic == USER_CREATED_TOPIC@ {
        Some(IdObjectKind::User)
    } else {
        None
    }
}

/// The database work that an accepted event asks for.
#[derive(Debug)]
pub enum DatabaseWrite {
    /// Insert an object of `kind` made from `id` into the collection of its kind.
    CreateObject { kind: IdObjectKind, id: Uuid },
    /// Look the product variant up, then set its current version or create it.
    CreateOrUpdateProductVariant(ProductVariantVersionEventData),
    /// Set `is_publicly_visible` of the product variant with the given id.
    UpdateProductVariantVisibility(UpdateProductVariantEventData),
    /// Upsert the tax rate with its new current version.
    CreateOrUpdateTaxRate(TaxRateVersionEventData),
    /// Push the address id onto the user's `user_address_ids`.
    InsertUserAddress(UserAddressEventData),
    /// Pull the address id from the user's `user_address_ids`.
    RemoveUserAddress(UserAddressEventData),
    /// Compensate the order items of a failed shipment.
    CompensateOrder(ShipmentFailedEventData),
}

/// Whether `topic` spells `expected`.
fn topic_is(topic: &String, expected: &'static str) -> (matches: bool)
    ensures
        matches == (topic@ == expected@),
{
    *topic == expected.to_owned()
}

/// HTTP endpoint to receive UUID creation events.
///
/// Includes all creation events that consist of only UUIDs:
/// - `Coupon`
/// - `ShipmentMethod`
/// - `User`
pub fn on_id_creation_event(event: Event<UuidEventData>) -> (write: Result<
    DatabaseWrite,
    StatusCode,
>)
    ensures
        write == (match id_object_kind(event.topic@) {
            Some(kind) => Ok(DatabaseWrite::CreateObject { kind, id: event.data.id }),
            None => Err(internal_server_error()),
        }),
        (write is Ok) == accepts(EventHandler::IdCreation, event.topic@),
{
    if topic_is(&event.topic, COUPON_CREATED_TOPIC) {
        Ok(DatabaseWrite::CreateObject { kind: IdObjectKind::Coupon, id: event.data.id })
    } else if topic_is(&event.topic, SHIPMENT_METHOD_CREATED_TOPIC) {
        Ok(DatabaseWrite::CreateObject { kind: IdObjectKind::ShipmentMethod, id: event.data.id })
    } else if topic_is(&event.topic, USER_CREATED_TOPIC) {
        Ok(DatabaseWrite::CreateObject { kind: IdObjectKind::User, id: event.data.id })
    } else {
        Err(StatusCode::internal_server_error())
    }
}

/// HTTP endpoint to receive product variant version creation events.
pub fn on_product_variant_version_creation_event(
    event: Event<ProductVariantVersionEventData>,
) -> (write: Result<DatabaseWrite, StatusCode>)
    ensures
        accepts(EventHandler::ProductVariantVersionCreation, event.topic@) ==> write == Ok::<
            DatabaseWrite,
            StatusCode,
        >(DatabaseWrite::CreateOrUpdateProductVariant(event.data)),
        !accepts(EventHandler::ProductVariantVersionCreation, event.topic@) ==> write == Err::<
            DatabaseWrite,
            StatusCode,
        >(internal_server_error()),
{
    if topic_is(&event.topic, PRODUCT_VARIANT_VERSION_CREATED_TOPIC) {
        Ok(DatabaseWrite::CreateOrUpdateProductVariant(event.data))
    } else {
        Err(StatusCode::internal_server_error())
    }
}

/// HTTP endpoint to receive product variant update events.
pub fn on_product_variant_update_event(event: Event<UpdateProductVariantEventData>) -> (write:
    Result<DatabaseWrite, StatusCode>)
    ensures
        accepts(EventHandler::ProductVariantUpdate, event.topic@) ==> write == Ok::<
            DatabaseWrite,
            StatusCode,
        >(DatabaseWrite::UpdateProductVariantVisibility(event.data)),
        !accepts(EventHandler::ProductVariantUpdate, event.topic@) ==> write == Err::<
            DatabaseWrite,
            StatusCode,
        >(internal_server_error()),
{
    if topic_is(&event.topic, PRODUCT_VARIANT_UPDATED_TOPIC) {
        Ok(DatabaseWrite::UpdateProductVariantVisibility(event.data))
    } else {
        Err(StatusCode::internal_server_error())
    }
}

/// HTTP endpoint to receive tax rate version creation events.
///
/// * `event` - Event handled by endpoint.
pub fn on_tax_rate_version_creation_event(event: Event<TaxRateVersionEventData>) -> (write:
    Result<DatabaseWrite, StatusCode>)
    ensures
        accepts(EventHandler::TaxRateVersionCreation, event.topic@) ==> write == Ok::<
            DatabaseWrite,
            StatusCode,
        >(DatabaseWrite::CreateOrUpdateTaxRate(event.data)),
        !accepts(EventHandler::TaxRateVersionCreation, event.topic@) ==> write == Err::<
            DatabaseWrite,
            StatusCode,
        >(internal_server_error()),
{
    if topic_is(&event.topic, TAX_RATE_VERSION_CREATED_TOPIC) {
        Ok(DatabaseWrite::CreateOrUpdateTaxRate(event.data))
    } else {
        Err(StatusCode::internal_server_error())
    }
}

/// HTTP endpoint to receive user address creation events.
///
/// * `event` - Event handled by endpoint.
pub fn on_user_address_creation_event(event: Event<UserAddressEventData>) -> (write: Result<
    DatabaseWrite,
    StatusCode,
>)
    ensures
        accepts(EventHandler::UserAddressCreation, event.topic@) ==> write == Ok::<
            DatabaseWrite,
            StatusCode,
        >(DatabaseWrite::InsertUserAddress(event.data)),
        !accepts(EventHandler::UserAddressCreation, event.topic@) ==> write == Err::<
            DatabaseWrite,
            StatusCode,
        >(internal_server_error()),
{
    if topic_is(&event.topic, USER_ADDRESS_CREATED_TOPIC) {
        Ok(DatabaseWrite::InsertUserAddress(event.data))
    } else {
        Err(StatusCode::internal_server_error())
    }
}

/// HTTP endpoint to receive user address archive events.
///
/// * `event` - Event handled by endpoint.
pub fn on_user_address_archived_event(event: Event<UserAddressEventData>) -> (write: Result<
    DatabaseWrite,
    StatusCode,
>)
    ensures
        accepts(EventHandler::UserAddressArchived, event.topic@) ==> write == Ok::<
            DatabaseWrite,
            StatusCode,
        >(DatabaseWrite::RemoveUserAddress(event.data)),
        !accepts(EventHandler::UserAddressArchived, event.topic@) ==> write == Err::<
            DatabaseWrite,
            StatusCode,
        >(internal_server_error()),
{
    if topic_is(&event.topic, USER_ADDRESS_ARCHIVED_TOPIC) {
        Ok(DatabaseWrite::RemoveUserAddress(event.data))
    } else {
        Err(StatusCode::internal_server_error())
    }
}

/// HTTP endpoint to receive shipment creation events.
///
/// * `event` - Event handled by endpoint.
pub fn on_shipment_creation_failed_event(event: Event<ShipmentFailedEventData>) -> (write:
    Result<DatabaseWrite, StatusCode>)
    ensures
        accepts(EventHandler::ShipmentCreationFailed, event.topic@) ==> write == Ok::<
            DatabaseWrite,
            StatusCode,
        >(DatabaseWrite::CompensateOrder(event.data)),
        !accepts(EventHandler::ShipmentCreationFailed, event.topic@) ==> write == Err::<
            DatabaseWrite,
            StatusCode,
        >(internal_server_error()),
{
    if topic_is(&event.topic, SHIPMENT_CREATION_FAILED_TOPIC) {
        Ok(DatabaseWrite::CompensateOrder(event.data))
    } else {
        Err(StatusCode::internal_server_error())
    }
}

/// The answer to Dapr once the database work of an accepted event is over:
/// the default response when it succeeded, `500` when it failed.
pub fn topic_event_response(write_succeeded: bool) -> (response: Result<
    TopicEventResponse,
    StatusCode,
>)
    ensures
        write_succeeded ==> (response matches Ok(r) && r.status == 0),
        !write_succeeded ==> response == Err::<TopicEventResponse, StatusCode>(
            internal_server_error(),
        ),
{
    if write_succeeded {
        Ok(TopicEventResponse::default())
    } else {
        Err(StatusCode::internal_server_error())
    }
}

/// What `create_or_update_product_variant_in_mongodb` writes.
#[derive(Debug, Clone, Copy)]
pub enum ProductVariantWrite {
    /// Set `current_version` of the product variant whose `_id` is given.
    UpdateCurrentVersion { product_variant_id: Uuid, version: ProductVariantVersionEventData },
    /// Insert a new product variant made from the version.
    Create(ProductVariantVersionEventData),
}

/// Create or update product variant in MongoDB.
///
/// * `product_variant_version_event_data` - Product variant version event data containg product variant version to create or update.
/// * `found` - `_id` of the product variant that the lookup by
///   `product_variant_version_event_data.product_variant_id` returned, or
///   `None` where the lookup failed.
pub fn create_or_update_product_variant_in_mongodb(
    product_variant_version_event_data: ProductVariantVersionEventData,
    found: Option<Uuid>,
) -> (write: ProductVariantWrite)
    ensures
        write == product_variant_write(product_variant_version_event_data, found),
        found is None ==> write == ProductVariantWrite::Create(product_variant_version_event_data),
        found matches Some(id) ==> write == (ProductVariantWrite::UpdateCurrentVersion {
            product_variant_id: id,
            version: product_variant_version_event_data,
        }),
{
    match found {
        Some(id) => ProductVariantWrite::UpdateCurrentVersion {
            product_variant_id: id,
            version: product_variant_version_event_data,
        },
        None => ProductVariantWrite::Create(product_variant_version_event_data),
    }
}

/// The write of a product variant version: an update of the variant that the
/// lookup found, or the creation of the variant where it found none.
pub open spec fn product_variant_write(
    data: ProductVariantVersionEventData,
    found: Option<Uuid>,
) -> ProductVariantWrite {
    match found {
        Some(id) => ProductVariantWrite::UpdateCurrentVersion { product_variant_id: id, version: data },
        None => ProductVariantWrite::Create(data),
    }
}

/// The version that a product variant write makes current.
pub open spec fn written_version(write: ProductVariantWrite) -> ProductVariantVersionEventData {
    match write {
        ProductVariantWrite::UpdateCurrentVersion { version, .. } => version,
        ProductVariantWrite::Create(version) => version,
    }
}

/// The write follows the lookup: a variant that the lookup found is updated,
/// under the UUID it was found by, to the event's version; where the lookup
/// found none, the variant is created from the event's version.
pub proof fn lemma_product_variant_write_follows_the_lookup(data: ProductVariantVersionEventData)
    ensures
        product_variant_write(data, None) == ProductVariantWrite::Create(data),
        forall|id: Uuid|
            #[trigger] product_variant_write(data, Some(id)) == (ProductVariantWrite::UpdateCurrentVersion {
                product_variant_id: id,
                version: data,
            }),
{
}

/// Writing the same version again makes the same version current, whatever
/// each lookup found; and once the variant is found, the same update is chosen
/// every time: the one of the found variant, to the same version.
pub proof fn lemma_product_variant_write_is_repeatable(
    data: ProductVariantVersionEventData,
    first_found: Option<Uuid>,
    second_found: Option<Uuid>,
)
    ensures
        written_version(product_variant_write(data, first_found)) == data,
        written_version(product_variant_write(data, second_found)) == data,
        first_found == second_found ==> product_variant_write(data, first_found) == product_variant_write(
            data,
            second_found,
        ),
        second_found matches Some(id) ==> product_variant_write(data, second_found)
            == (ProductVariantWrite::UpdateCurrentVersion { product_variant_id: id, version: data }),
{
}

proof fn reveal_topics_and_routes()
    ensures
        PRODUCT_VARIANT_VERSION_CREATED_TOPIC@ == "catalog/product-variant-version/created"@,
        PRODUCT_VARIANT_UPDATED_TOPIC@ == "catalog/product-variant/updated"@,
        COUPON_CREATED_TOPIC@ == "discount/coupon/created"@,
        TAX_RATE_VERSION_CREATED_TOPIC@ == "tax/tax-rate-version/created"@,
        SHIPMENT_METHOD_CREATED_TOPIC@ == "shipment/shipment-method/created"@,
        USER_CREATED_TOPIC@ == "user/user/created"@,
        USER_ADDRESS_CREATED_TOPIC@ == "address/user-address/created"@,
        USER_ADDRESS_ARCHIVED_TOPIC@ == "address/user-address/archived"@,
        SHIPMENT_CREATION_FAILED_TOPIC@ == "shipment/shipment/creation-failed"@,
        PRODUCT_VARIANT_VERSION_CREATION_ROUTE@ == "/on-product-variant-version-creation-event"@,
        PRODUCT_VARIANT_UPDATED_ROUTE@ == "/on-product-variant-updated-event"@,
        ID_CREATION_ROUTE@ == "/on-id-creation-event"@,
        TAX_RATE_VERSION_CREATION_ROUTE@ == "/on-tax-rate-version-creation-event"@,
        USER_ADDRESS_CREATION_ROUTE@ == "/on-user-address-creation-event"@,
        USER_ADDRESS_ARCHIVED_ROUTE@ == "/on-user-address-archived-event"@,
{
}

/// Every subscription delivers its topic to a route whose handler acts on
/// that topic: no subscribed event is refused by the endpoint it reaches.
pub proof fn lemma_subscriptions_reach_accepting_handlers()
    ensures
        forall|i: int|
            0 <= i < subscription_table().len() ==> {
                let (topic, route) = #[trigger] subscription_table()[i];
                route_handler(route) matches Some(handler) && accepts(handler, topic)
            },
{
    reveal_strlit("/on-product-variant-version-creation-event");
    reveal_strlit("/on-product-variant-updated-event");
    reveal_strlit("/on-id-creation-event");
    reveal_strlit("/on-tax-rate-version-creation-event");
    reveal_strlit("/on-user-address-creation-event");
    reveal_strlit("/on-user-address-archived-event");
    reveal_topics_and_routes();
    assert forall|i: int| 0 <= i < subscription_table().len() implies {
        let (topic, route) = #[trigger] subscription_table()[i];
        route_handler(route) matches Some(handler) && accepts(handler, topic)
    } by {
        assert("/on-product-variant-updated-event"@[4] != "/on-id-creation-event"@[4]);
        assert("/on-product-variant-updated-event"@[20] != "/on-product-variant-version-creation-event"@[20]);
        assert("/on-tax-rate-version-creation-event"@[4] != "/on-id-creation-event"@[4]);
        assert("/on-tax-rate-version-creation-event"@[4] != "/on-product-variant-version-creation-event"@[4]);
        assert("/on-user-address-creation-event"@[4] != "/on-id-creation-event"@[4]);
        assert("/on-user-address-archived-event"@[4] != "/on-id-creation-event"@[4]);
        assert("/on-user-address-creation-event"@[4] != "/on-product-variant-version-creation-event"@[4]);
        assert("/on-user-address-archived-event"@[4] != "/on-product-variant-version-creation-event"@[4]);
        assert("/on-user-address-creation-event"@[4] != "/on-product-variant-updated-event"@[4]);
        assert("/on-user-address-archived-event"@[4] != "/on-product-variant-updated-event"@[4]);
        assert("/on-user-address-creation-event"@[4] != "/on-tax-rate-version-creation-event"@[4]);
        assert("/on-user-address-archived-event"@[4] != "/on-tax-rate-version-creation-event"@[4]);
        assert("/on-user-address-archived-event"@[17] != "/on-user-address-creation-event"@[17]);
    }
}

proof fn lemma_topics_differ()
    ensures
        PRODUCT_VARIANT_VERSION_CREATED_TOPIC@.len() == 39,
        PRODUCT_VARIANT_UPDATED_TOPIC@.len() == 31,
        COUPON_CREATED_TOPIC@.len() == 23,
        TAX_RATE_VERSION_CREATED_TOPIC@.len() == 28,
        SHIPMENT_METHOD_CREATED_TOPIC@.len() == 32,
        USER_CREATED_TOPIC@.len() == 17,
        USER_ADDRESS_CREATED_TOPIC@.len() == 28,
        USER_ADDRESS_ARCHIVED_TOPIC@.len() == 29,
        SHIPMENT_CREATION_FAILED_TOPIC@.len() == 33,
        TAX_RATE_VERSION_CREATED_TOPIC@ != USER_ADDRESS_CREATED_TOPIC@,
{
    reveal_strlit("catalog/product-variant-version/created");
    reveal_strlit("catalog/product-variant/updated");
    reveal_strlit("discount/coupon/created");
    reveal_strlit("tax/tax-rate-version/created");
    reveal_strlit("shipment/shipment-method/created");
    reveal_strlit("user/user/created");
    reveal_strlit("address/user-address/created");
    reveal_strlit("address/user-address/archived");
    reveal_strlit("shipment/shipment/creation-failed");
    reveal_topics_and_routes();
    assert("tax/tax-rate-version/created"@[0] != "address/user-address/created"@[0]);
}

/// No topic is subscribed to twice.
pub proof fn lemma_subscription_topics_distinct()
    ensures
        forall|i: int, j: int|
            0 <= i < j < subscription_table().len() ==> (#[trigger] subscription_table()[i]).0
                != (#[trigger] subscription_table()[j]).0,
{
    lemma_topics_differ();
}

/// A topic is acted on by one handler at most.
pub proof fn lemma_handlers_accept_disjoint_topics(
    first: EventHandler,
    second: EventHandler,
    topic: Seq<char>,
)
    requires
        accepts(first, topic),
        accepts(second, topic),
    ensures
        first == second,
{
    lemma_topics_differ();
}

/// Every topic that a handler acts on is subscribed to, but for the failed
/// shipment creations, which no subscription asks Dapr for.
pub proof fn lemma_accepted_topics_are_subscribed(handler: EventHandler, topic: Seq<char>)
    requires
        accepts(handler, topic),
        handler != EventHandler::ShipmentCreationFailed,
    ensures
        exists|i: int| 0 <= i < subscription_table().len() && #[trigger] subscription_table()[i].0 == topic,
{
    let table = subscription_table();
    if topic == table[0].0 {
    } else if topic == table[1].0 {
    } else if topic == table[2].0 {
    } else if topic == table[3].0 {
    } else if topic == table[4].0 {
    } else if topic == table[5].0 {
    } else if topic == table[6].0 {
    } else {
        assert(topic == table[7].0);
    }
}

/// Which topics each handler acts on: the id creation endpoint on coupon,
/// shipment method and user creations, every other endpoint on its one topic.
pub proof fn lemma_handler_topics(topic: Seq<char>)
    ensures
        accepts(EventHandler::IdCreation, topic) <==> (topic == COUPON_CREATED_TOPIC@ || topic
            == SHIPMENT_METHOD_CREATED_TOPIC@ || topic == USER_CREATED_TOPIC@),
        accepts(EventHandler::ProductVariantVersionCreation, topic) <==> topic
            == PRODUCT_VARIANT_VERSION_CREATED_TOPIC@,
        accepts(EventHandler::ProductVariantUpdate, topic) <==> topic == PRODUCT_VARIANT_UPDATED_TOPIC@,
        accepts(EventHandler::TaxRateVersionCreation, topic) <==> topic
            == TAX_RATE_VERSION_CREATED_TOPIC@,
        accepts(EventHandler::UserAddressCreation, topic) <==> topic == USER_ADDRESS_CREATED_TOPIC@,
        accepts(EventHandler::UserAddressArchived, topic) <==> topic == USER_ADDRESS_ARCHIVED_TOPIC@,
        accepts(EventHandler::ShipmentCreationFailed, topic) <==> topic
            == SHIPMENT_CREATION_FAILED_TOPIC@,
{
}

/// An id creation event creates a coupon, a shipment method or a user
/// according to its topic, and nothing for any other topic.
pub proof fn lemma_id_object_kinds(topic: Seq<char>)
    ensures
        topic == COUPON_CREATED_TOPIC@ ==> id_object_kind(topic) == Some(IdObjectKind::Coupon),
        topic == SHIPMENT_METHOD_CREATED_TOPIC@ ==> id_object_kind(topic) == Some(
            IdObjectKind::ShipmentMethod,
        ),
        topic == USER_CREATED_TOPIC@ ==> id_object_kind(topic) == Some(IdObjectKind::User),
        (id_object_kind(topic) is Some) <==> accepts(EventHandler::IdCreation, topic),
{
    lemma_topics_differ();
}

} // verus!
