use vstd::prelude::*;

use crate::event::http_event_service::ShipmentFailedEventData;
use crate::event::ids::{contains_id, copy_ids, random_uuid, Uuid};

verus! {

/// Models an order compensation that is sent as an event and logged in MongoDB.
#[derive(Debug, Clone)]
pub struct OrderCompensation {
    /// Order compensation UUID.
    pub _id: Uuid,
    /// UUID of the order.
    pub order_id: Uuid,
    /// UUIDs of the order items of shipment.
    pub order_item_ids: Vec<Uuid>,
    /// Timestamp when compensation was triggered, in milliseconds since the Unix epoch.
    pub triggered_at: i64,
    /// Amount of order compensation.
    pub amount_to_compensate: u64,
}

/// An order compensation as a mathematical value.
pub struct OrderCompensationView {
    pub _id: Uuid,
    pub order_id: Uuid,
    pub order_item_ids: Seq<Uuid>,
    pub triggered_at: i64,
    pub amount_to_compensate: u64,
}

impl View for OrderCompensation {
    type V = OrderCompensationView;

    open spec fn view(&self) -> OrderCompensationView {
        OrderCompensationView {
            _id: self._id,
            order_id: self.order_id,
            order_item_ids: self.order_item_ids@,
            triggered_at: self.triggered_at,
            amount_to_compensate: self.amount_to_compensate,
        }
    }
}

/// What the compensation reads of an order item.
#[derive(Debug, Clone, Copy)]
pub struct OrderItem {
    /// UUID of the order item.
    pub _id: Uuid,
    /// Amount that is paid back when the item is compensated.
    pub compensatable_amount: u64,
}

/// The sum of the compensatable amounts of the `items` whose UUID `ids` lists.
pub open spec fn compensatable_total(items: Seq<OrderItem>, ids: Seq<Uuid>) -> int
    decreases items.len(),
{
    if items.len() == 0 {
        0
    } else {
        compensatable_total(items.drop_last(), ids) + if ids.contains(items.last()._id) {
            items.last().compensatable_amount as int
        } else {
            0
        }
    }
}

/// Each item adds nothing or its amount: the total of a prefix never exceeds
/// the total of a longer prefix.
pub proof fn lemma_total_of_prefix_is_smaller(items: Seq<OrderItem>, ids: Seq<Uuid>, i: int, j: int)
    requires
        0 <= i <= j <= items.len(),
    ensures
        compensatable_total(items.take(i), ids) <= compensatable_total(items.take(j), ids),
    decreases j - i,
{
    if i < j {
        lemma_total_of_prefix_is_smaller(items, ids, i, j - 1);
        assert(items.take(j).drop_last() == items.take(j - 1));
    }
}

/// No total is negative.
pub proof fn lemma_total_is_not_negative(items: Seq<OrderItem>, ids: Seq<Uuid>)
    ensures
        compensatable_total(items, ids) >= 0,
    decreases items.len(),
{
    if items.len() > 0 {
        lemma_total_is_not_negative(items.drop_last(), ids);
    }
}

/// Only the listed UUIDs that name items of the order count: two lists that
/// agree on which of the order's items they list give the same amount,
/// whatever their order, their repetitions and the UUIDs foreign to the
/// order that they hold. Each item counts once at most.
pub proof fn lemma_total_depends_only_on_listed_items(
    items: Seq<OrderItem>,
    ids: Seq<Uuid>,
    other_ids: Seq<Uuid>,
)
    requires
        forall|i: int|
            0 <= i < items.len() ==> (ids.contains(#[trigger] items[i]._id) <==> other_ids.contains(
                items[i]._id,
            )),
    ensures
        compensatable_total(items, ids) == compensatable_total(items, other_ids),
    decreases items.len(),
{
    if items.len() > 0 {
        let rest = items.drop_last();
        assert forall|i: int| 0 <= i < rest.len() implies (ids.contains(#[trigger] rest[i]._id)
            <==> other_ids.contains(rest[i]._id)) by {
            assert(rest[i] == items[i]);
        }
        lemma_total_depends_only_on_listed_items(rest, ids, other_ids);
        assert(items.last() == items[items.len() - 1]);
    }
}

/// Listing more of the order's items never lowers the amount: where every
/// item that one list names is named by another, the other's amount is at
/// least as large.
pub proof fn lemma_total_grows_with_listed_items(
    items: Seq<OrderItem>,
    ids: Seq<Uuid>,
    more_ids: Seq<Uuid>,
)
    requires
        forall|i: int|
            0 <= i < items.len() ==> (ids.contains(#[trigger] items[i]._id) ==> more_ids.contains(
                items[i]._id,
            )),
    ensures
        compensatable_total(items, ids) <= compensatable_total(items, more_ids),
    decreases items.len(),
{
    if items.len() > 0 {
        let rest = items.drop_last();
        assert forall|i: int| 0 <= i < rest.len() && ids.contains(#[trigger] rest[i]._id) implies more_ids.contains(
            rest[i]._id,
        ) by {
            assert(rest[i] == items[i]);
        }
        lemma_total_grows_with_listed_items(rest, ids, more_ids);
        assert(items.last() == items[items.len() - 1]);
    }
}

/// One item adds its compensatable amount where the shipment lists it, and
/// nothing where it does not.
pub proof fn lemma_total_of_one_item(item: OrderItem, ids: Seq<Uuid>)
    ensures
        ids.contains(item._id) ==> compensatable_total(seq![item], ids) == item.compensatable_amount,
        !ids.contains(item._id) ==> compensatable_total(seq![item], ids) == 0,
{
    let single = seq![item];
    assert(single.drop_last() =~= Seq::<OrderItem>::empty());
    assert(single.last() == item);
    assert(compensatable_total(single.drop_last(), ids) == 0);
}

/// Whether an item is compensated already: no existing compensation means
/// none is, and an existing compensation that covers one of the items means
/// one is; where no existing compensation covers any of them, none is.
pub proof fn lemma_already_compensated_cases(existing: Seq<OrderCompensationView>, ids: Seq<Uuid>)
    ensures
        existing.len() == 0 ==> !already_compensated(existing, ids),
        forall|k: int, id: Uuid|
            0 <= k < existing.len() && #[trigger] existing[k].order_item_ids.contains(id) && #[trigger] ids.contains(id)
                ==> already_compensated(existing, ids),
        (forall|k: int, id: Uuid|
            0 <= k < existing.len() && #[trigger] existing[k].order_item_ids.contains(id) ==> !#[trigger] ids.contains(id))
            ==> !already_compensated(existing, ids),
{
}

/// The amount of a list of items is the sum of the amounts of its parts.
pub proof fn lemma_total_of_concatenation(first: Seq<OrderItem>, second: Seq<OrderItem>, ids: Seq<Uuid>)
    ensures
        compensatable_total(first + second, ids) == compensatable_total(first, ids)
            + compensatable_total(second, ids),
    decreases second.len(),
{
    if second.len() == 0 {
        assert(first + second == first);
    } else {
        lemma_total_of_concatenation(first, second.drop_last(), ids);
        assert((first + second).drop_last() == first + second.drop_last());
    }
}

/// A shipment that lists no item is compensated with nothing.
pub proof fn lemma_total_of_no_listed_item(items: Seq<OrderItem>)
    ensures
        compensatable_total(items, Seq::empty()) == 0,
    decreases items.len(),
{
    if items.len() > 0 {
        lemma_total_of_no_listed_item(items.drop_last());
    }
}

/// The step of the summation loop: the total of the first `i + 1` items.
proof fn lemma_total_of_longer_prefix(items: Seq<OrderItem>, ids: Seq<Uuid>, i: int)
    requires
        0 <= i < items.len(),
    ensures
        compensatable_total(items.take(i + 1), ids) == compensatable_total(items.take(i), ids) + if ids.contains(
            items[i]._id,
        ) {
            items[i].compensatable_amount as int
        } else {
            0
        },
{
    assert(items.take(i + 1).drop_last() == items.take(i));
}

/// Calculates the amount that the compensation event should compensate: the
/// sum of the compensatable amounts of the order's items that the failed
/// shipment names.
///
/// * `order_items` - Items of the order to calculate the compensatable amount from.
/// * `order_item_ids` - UUIDs of the order items of the failed shipment.
pub fn calculate_amount_to_compensate(order_items: &Vec<OrderItem>, order_item_ids: &Vec<Uuid>) -> (amount: u64)
    requires
        compensatable_total(order_items@, order_item_ids@) <= u64::MAX,
    ensures
        amount == compensatable_total(order_items@, order_item_ids@),
{
    let n = order_items.len();
    let mut amount: u64 = 0;
    for i in 0..n
        invariant
            n == order_items@.len(),
            compensatable_total(order_items@, order_item_ids@) <= u64::MAX,
            amount == compensatable_total(order_items@.take(i as int), order_item_ids@),
    {
        proof {
            lemma_total_of_longer_prefix(order_items@, order_item_ids@, i as int);
            lemma_total_of_prefix_is_smaller(order_items@, order_item_ids@, i + 1, n as int);
            assert(order_items@.take(n as int) == order_items@);
        }
        let item = order_items[i];
        if contains_id(order_item_ids, item._id) {
            amount = amount + item.compensatable_amount;
        }
    }
    assert(order_items@.take(n as int) == order_items@);
    amount
}

/// The amount to compensate where it fits in a `u64`, and `None` where the
/// sum overflows.
pub fn checked_amount_to_compensate(order_items: &Vec<OrderItem>, order_item_ids: &Vec<Uuid>) -> (amount: Option<u64>)
    ensures
        compensatable_total(order_items@, order_item_ids@) <= u64::MAX ==> amount == Some(
            compensatable_total(order_items@, order_item_ids@) as u64,
        ),
        compensatable_total(order_items@, order_item_ids@) > u64::MAX ==> amount is None,
{
    let n = order_items.len();
    let mut amount: u64 = 0;
    for i in 0..n
        invariant
            n == order_items@.len(),
            amount == compensatable_total(order_items@.take(i as int), order_item_ids@),
    {
        proof {
            lemma_total_of_longer_prefix(order_items@, order_item_ids@, i as int);
            lemma_total_of_prefix_is_smaller(order_items@, order_item_ids@, i + 1, n as int);
            assert(order_items@.take(n as int) == order_items@);
        }
        let item = order_items[i];
        if contains_id(order_item_ids, item._id) {
            match amount.checked_add(item.compensatable_amount) {
                Some(sum) => {
                    amount = sum;
                },
                None => {
                    return None;
                },
            }
        }
    }
    assert(order_items@.take(n as int) == order_items@);
    Some(amount)
}

/// Why compensating an order failed.
#[derive(Debug)]
pub enum CompensationError {
    /// The order did not pass validation; carries the validator's message.
    InvalidOrder(String),
    /// Some of the items are compensated already, or the existing
    /// compensations could not be looked up.
    ItemsNotVerified { order_item_ids: Vec<Uuid> },
    /// The existing compensations could not be read; carries the database's message.
    CompensationsUnreadable(String),
    /// The order could not be fetched; carries the message of the lookup.
    OrderUnavailable(String),
    /// Adding the order compensation failed in MongoDB.
    InsertFailed,
    /// Sending the compensation event failed; carries the HTTP client's message.
    PublishFailed(String),
}

/// A compensation error as a mathematical value.
pub enum CompensationErrorView {
    InvalidOrder(Seq<char>),
    ItemsNotVerified(Seq<Uuid>),
    CompensationsUnreadable(Seq<char>),
    OrderUnavailable(Seq<char>),
    InsertFailed,
    PublishFailed(Seq<char>),
}

impl View for CompensationError {
    type V = CompensationErrorView;

    open spec fn view(&self) -> CompensationErrorView {
        match self {
            CompensationError::InvalidOrder(message) => CompensationErrorView::InvalidOrder(message@),
            CompensationError::ItemsNotVerified { order_item_ids } => CompensationErrorView::ItemsNotVerified(
                order_item_ids@,
            ),
            CompensationError::CompensationsUnreadable(message) => CompensationErrorView::CompensationsUnreadable(
                message@,
            ),
            CompensationError::OrderUnavailable(message) => CompensationErrorView::OrderUnavailable(
                message@,
            ),
            CompensationError::InsertFailed => CompensationErrorView::InsertFailed,
            CompensationError::PublishFailed(message) => CompensationErrorView::PublishFailed(message@),
        }
    }
}

/// Whether one of the `existing` compensations already covers an item that `ids` lists.
pub open spec fn already_compensated(existing: Seq<OrderCompensationView>, ids: Seq<Uuid>) -> bool {
    exists|k: int, id: Uuid|
        0 <= k < existing.len() && #[trigger] existing[k].order_item_ids.contains(id) && #[trigger] ids.contains(id)
}

/// Views of a list of compensations.
pub open spec fn compensations_view(compensations: Seq<OrderCompensation>) -> Seq<OrderCompensationView> {
    compensations.map_values(|compensation: OrderCompensation| compensation@)
}

/// Whether the two lists share an element.
fn shares_an_id(ids: &Vec<Uuid>, others: &Vec<Uuid>) -> (shared: bool)
    ensures
        shared == exists|id: Uuid| #[trigger] ids@.contains(id) && others@.contains(id),
{
    let n = ids.len();
    for i in 0..n
        invariant
            n == ids@.len(),
            forall|j: int| 0 <= j < i ==> !others@.contains(#[trigger] ids@[j]),
    {
        if contains_id(others, ids[i]) {
            assert(ids@.contains(ids@[i as int]));
            return true;
        }
    }
    assert forall|id: Uuid| #[trigger] ids@.contains(id) implies !others@.contains(id) by {
        let j = choose|j: int| 0 <= j < ids@.len() && ids@[j] == id;
        assert(!others@.contains(ids@[j]));
    }
    false
}

/// Verifies that all of the items are uncompensated, otherwise returns an error.
///
/// * `existing` - Order compensations that MongoDB holds for these items.
/// * `order_item_ids` - UUIDs of order items to verify as uncompensated.
pub fn verify_items_uncompensated(existing: &Vec<OrderCompensation>, order_item_ids: &Vec<Uuid>) -> (verified: Result<(), CompensationError>)
    ensures
        verified is Ok <==> !already_compensated(compensations_view(existing@), order_item_ids@),
        verified matches Err(error) ==> error@ == CompensationErrorView::ItemsNotVerified(order_item_ids@),
{
    let n = existing.len();
    for k in 0..n
        invariant
            n == existing@.len(),
            forall|j: int, id: Uuid|
                0 <= j < k ==> !(#[trigger] existing@[j].order_item_ids@.contains(id) && #[trigger] order_item_ids@.contains(id)),
    {
        if shares_an_id(&existing[k].order_item_ids, order_item_ids) {
            proof {
                let id = choose|id: Uuid|
                    #[trigger] existing@[k as int].order_item_ids@.contains(id) && order_item_ids@.contains(id);
                assert(compensations_view(existing@)[k as int].order_item_ids.contains(id));
            }
            return Err(CompensationError::ItemsNotVerified { order_item_ids: copy_ids(order_item_ids) });
        }
    }
    assert forall|j: int, id: Uuid|
        0 <= j < compensations_view(existing@).len() && #[trigger] compensations_view(existing@)[j].order_item_ids.contains(id)
        implies !#[trigger] order_item_ids@.contains(id) by {
        assert(existing@[j].order_item_ids@.contains(id));
    }
    Ok(())
}

/// Why the existing compensations could not be looked up.
#[derive(Debug)]
pub enum CompensationsLookupFailure {
    /// MongoDB refused the query.
    QueryFailed,
    /// Reading the query's results failed; carries the database's message.
    ReadFailed(String),
}

pub enum CompensationsLookupFailureView {
    QueryFailed,
    ReadFailed(Seq<char>),
}

impl View for CompensationsLookupFailure {
    type V = CompensationsLookupFailureView;

    open spec fn view(&self) -> CompensationsLookupFailureView {
        match self {
            CompensationsLookupFailure::QueryFailed => CompensationsLookupFailureView::QueryFailed,
            CompensationsLookupFailure::ReadFailed(message) => CompensationsLookupFailureView::ReadFailed(
                message@,
            ),
        }
    }
}

/// What came back from the work that the last action asked for.
#[derive(Debug)]
pub enum CompensationEvent {
    /// The order was found valid, or not, with the validator's message.
    OrderValidated(Result<(), String>),
    /// The order compensations that MongoDB holds for the shipment's items.
    CompensationsFound(Result<Vec<OrderCompensation>, CompensationsLookupFailure>),
    /// The items of the order, or the message of the failed lookup.
    OrderFetched(Result<Vec<OrderItem>, String>),
    /// Whether MongoDB took the new compensation.
    CompensationInserted(bool),
    /// The compensation event was sent, or not, with the HTTP client's message.
    CompensationPublished(Result<(), String>),
}

pub enum CompensationEventView {
    OrderValidated(Result<(), Seq<char>>),
    CompensationsFound(Result<Seq<OrderCompensationView>, CompensationsLookupFailureView>),
    OrderFetched(Result<Seq<OrderItem>, Seq<char>>),
    CompensationInserted(bool),
    CompensationPublished(Result<(), Seq<char>>),
}

pub open spec fn outcome_view(outcome: Result<(), String>) -> Result<(), Seq<char>> {
    match outcome {
        Ok(()) => Ok(()),
        Err(message) => Err(message@),
    }
}

impl View for CompensationEvent {
    type V = CompensationEventView;

    open spec fn view(&self) -> CompensationEventView {
        match self {
            CompensationEvent::OrderValidated(outcome) => CompensationEventView::OrderValidated(
                outcome_view(*outcome),
            ),
            CompensationEvent::CompensationsFound(found) => CompensationEventView::CompensationsFound(
                match found {
                    Ok(existing) => Ok(compensations_view(existing@)),
                    Err(failure) => Err(failure@),
                },
            ),
            CompensationEvent::OrderFetched(fetched) => CompensationEventView::OrderFetched(
                match fetched {
                    Ok(items) => Ok(items@),
                    Err(message) => Err(message@),
                },
            ),
            CompensationEvent::CompensationInserted(inserted) => CompensationEventView::CompensationInserted(
                *inserted,
            ),
            CompensationEvent::CompensationPublished(outcome) => CompensationEventView::CompensationPublished(
                outcome_view(*outcome),
            ),
        }
    }
}

/// The outside work that the compensation asks for next.
#[derive(Debug)]
pub enum CompensationAction {
    /// Check that the order exists.
    ValidateOrder { order_id: Uuid },
    /// Look up the order compensations that cover any of these items.
    FindCompensations { order_item_ids: Vec<Uuid> },
    /// Fetch the order, for the compensatable amounts of its items.
    FetchOrder { order_id: Uuid },
    /// Insert the order compensation in MongoDB.
    InsertCompensation(OrderCompensation),
    /// Send the `order/order-compensation/created` event for it.
    PublishCompensation(OrderCompensation),
    /// The compensation is over, with this outcome.
    Finish(Result<(), CompensationError>),
}

pub enum CompensationActionView {
    ValidateOrder(Uuid),
    FindCompensations(Seq<Uuid>),
    FetchOrder(Uuid),
    InsertCompensation(OrderCompensationView),
    PublishCompensation(OrderCompensationView),
    Finish(Result<(), CompensationErrorView>),
}

impl View for CompensationAction {
    type V = CompensationActionView;

    open spec fn view(&self) -> CompensationActionView {
        match self {
            CompensationAction::ValidateOrder { order_id } => CompensationActionView::ValidateOrder(
                *order_id,
            ),
            CompensationAction::FindCompensations { order_item_ids } => CompensationActionView::FindCompensations(
                order_item_ids@,
            ),
            CompensationAction::FetchOrder { order_id } => CompensationActionView::FetchOrder(*order_id),
            CompensationAction::InsertCompensation(compensation) => CompensationActionView::InsertCompensation(
                compensation@,
            ),
            CompensationAction::PublishCompensation(compensation) => CompensationActionView::PublishCompensation(
                compensation@,
            ),
            CompensationAction::Finish(outcome) => CompensationActionView::Finish(
                match outcome {
                    Ok(()) => Ok(()),
                    Err(error) => Err(error@),
                },
            ),
        }
    }
}

/// How far the compensation of a failed shipment has come.
#[derive(Debug, Clone, Copy, PartialEq, Eq, Structural)]
pub enum CompensationStep {
    ValidatingOrder,
    VerifyingItems,
    CalculatingAmount,
    Inserting,
    Publishing,
    Done,
    Failed,
}

/// The compensation of the order items of a failed shipment, between two
/// pieces of outside work.
#[derive(Debug)]
pub struct CompensationProcess {
    order_id: Uuid,
    order_item_ids: Vec<Uuid>,
    step: CompensationStep,
    compensation: Option<OrderCompensation>,
}

pub struct CompensationProcessView {
    pub order_id: Uuid,
    pub order_item_ids: Seq<Uuid>,
    pub step: CompensationStep,
    pub compensation: Option<OrderCompensationView>,
}

impl View for CompensationProcess {
    type V = CompensationProcessView;

    closed spec fn view(&self) -> CompensationProcessView {
        CompensationProcessView {
            order_id: self.order_id,
            order_item_ids: self.order_item_ids@,
            step: self.step,
            compensation: match self.compensation {
                Some(compensation) => Some(compensation@),
                None => None,
            },
        }
    }
}

/// A compensation in progress holds a record only of its own order and items,
/// and holds one from the moment it is built to the end.
pub open spec fn well_formed(process: CompensationProcessView) -> bool {
    &&& process.compensation matches Some(c) ==> c.order_id == process.order_id
        && c.order_item_ids == process.order_item_ids
    &&& (process.step == CompensationStep::Inserting || process.step == CompensationStep::Publishing)
        ==> process.compensation is Some
}

impl CompensationProcess {
    #[verifier::type_invariant]
    spec fn holds_own_record(self) -> bool {
        well_formed(self@)
    }
}

/// Which event each step waits for; a finished compensation waits for none.
pub open spec fn awaits(step: CompensationStep, event: CompensationEventView) -> bool {
    match step {
        CompensationStep::ValidatingOrder => event is OrderValidated,
        CompensationStep::VerifyingItems => event is CompensationsFound,
        CompensationStep::CalculatingAmount => event is OrderFetched,
        CompensationStep::Inserting => event is CompensationInserted,
        CompensationStep::Publishing => event is CompensationPublished,
        CompensationStep::Done => false,
        CompensationStep::Failed => false,
    }
}

/// The events that a compensation can go on with: the one its step waits for,
/// with an order whose amount to compensate fits in a `u64`.
pub open spec fn admits(process: CompensationProcessView, event: CompensationEventView) -> bool {
    &&& awaits(process.step, event)
    &&& event matches CompensationEventView::OrderFetched(Ok(items)) ==> compensatable_total(
        items,
        process.order_item_ids,
    ) <= u64::MAX
}

/// The compensation record of an order, with the UUID and time it was given.
pub open spec fn compensation_record(
    process: CompensationProcessView,
    items: Seq<OrderItem>,
    id: Uuid,
    triggered_at: i64,
) -> OrderCompensationView {
    OrderCompensationView {
        _id: id,
        order_id: process.order_id,
        order_item_ids: process.order_item_ids,
        triggered_at,
        amount_to_compensate: compensatable_total(items, process.order_item_ids) as u64,
    }
}

/// The compensation stops, with `error` as its outcome.
pub open spec fn fail(process: CompensationProcessView, error: CompensationErrorView) -> (
    CompensationProcessView,
    CompensationActionView,
) {
    (
        CompensationProcessView { step: CompensationStep::Failed, ..process },
        CompensationActionView::Finish(Err(error)),
    )
}

/// The compensation of a failed shipment begins by validating its order.
pub open spec fn start(order_id: Uuid, order_item_ids: Seq<Uuid>) -> (
    CompensationProcessView,
    CompensationActionView,
) {
    (
        CompensationProcessView {
            order_id,
            order_item_ids,
            step: CompensationStep::ValidatingOrder,
            compensation: None,
        },
        CompensationActionView::ValidateOrder(order_id),
    )
}

/// Where an admitted event takes the compensation, and what it asks for next;
/// `id` and `triggered_at` are what a new record is given.
pub open spec fn next(
    process: CompensationProcessView,
    event: CompensationEventView,
    id: Uuid,
    triggered_at: i64,
) -> (CompensationProcessView, CompensationActionView) {
    match event {
        CompensationEventView::OrderValidated(Ok(())) => (
            CompensationProcessView { step: CompensationStep::VerifyingItems, ..process },
            CompensationActionView::FindCompensations(process.order_item_ids),
        ),
        CompensationEventView::OrderValidated(Err(message)) => fail(
            process,
            CompensationErrorView::InvalidOrder(message),
        ),
        CompensationEventView::CompensationsFound(Ok(existing)) => if already_compensated(
            existing,
            process.order_item_ids,
        ) {
            fail(process, CompensationErrorView::ItemsNotVerified(process.order_item_ids))
        } else {
            (
                CompensationProcessView { step: CompensationStep::CalculatingAmount, ..process },
                CompensationActionView::FetchOrder(process.order_id),
            )
        },
        CompensationEventView::CompensationsFound(Err(failure)) => match failure {
            CompensationsLookupFailureView::QueryFailed => fail(
                process,
                CompensationErrorView::ItemsNotVerified(process.order_item_ids),
            ),
            CompensationsLookupFailureView::ReadFailed(message) => fail(
                process,
                CompensationErrorView::CompensationsUnreadable(message),
            ),
        },
        CompensationEventView::OrderFetched(Ok(items)) => {
            let record = compensation_record(process, items, id, triggered_at);
            (
                CompensationProcessView {
                    step: CompensationStep::Inserting,
                    compensation: Some(record),
                    ..process
                },
                CompensationActionView::InsertCompensation(record),
            )
        },
        CompensationEventView::OrderFetched(Err(message)) => fail(
            process,
            CompensationErrorView::OrderUnavailable(message),
        ),
        CompensationEventView::CompensationInserted(inserted) => if inserted {
            (
                CompensationProcessView { step: CompensationStep::Publishing, ..process },
                CompensationActionView::PublishCompensation(process.compensation.unwrap()),
            )
        } else {
            fail(process, CompensationErrorView::InsertFailed)
        },
        CompensationEventView::CompensationPublished(Ok(())) => (
            CompensationProcessView { step: CompensationStep::Done, ..process },
            CompensationActionView::Finish(Ok(())),
        ),
        CompensationEventView::CompensationPublished(Err(message)) => fail(
            process,
            CompensationErrorView::PublishFailed(message),
        ),
    }
}

/// Calls `bson::DateTime::now` and reads the milliseconds since the Unix
/// epoch that it holds. Nothing is stated of the value: it rests on the
/// machine's clock.
#[verifier::external_body]
fn current_time_millis() -> i64 {
    bson::DateTime::now().timestamp_millis()
}

fn copy_compensation(compensation: &OrderCompensation) -> (copy: OrderCompensation)
    ensures
        copy@ == compensation@,
{
    OrderCompensation {
        _id: compensation._id,
        order_id: compensation.order_id,
        order_item_ids: copy_ids(&compensation.order_item_ids),
        triggered_at: compensation.triggered_at,
        amount_to_compensate: compensation.amount_to_compensate,
    }
}

/// Responsible for compensating a shipment based on a failed shipment event;
/// the compensation is saved in MongoDB and sent as an event.
///
/// Begins the compensation of `shipment_failed_event_data` and asks for its
/// first piece of outside work; `CompensationProcess::advance` goes on with
/// the outcome of each.
pub fn compensate_order(shipment_failed_event_data: ShipmentFailedEventData) -> (begun: (
    CompensationProcess,
    CompensationAction,
))
    ensures
        (begun.0@, begun.1@) == start(
            shipment_failed_event_data.order_id,
            shipment_failed_event_data.order_item_ids@,
        ),
        begun.1@ == CompensationActionView::ValidateOrder(shipment_failed_event_data.order_id),
        begun.0@.order_id == shipment_failed_event_data.order_id,
        begun.0@.order_item_ids == shipment_failed_event_data.order_item_ids@,
        begun.0@.step == CompensationStep::ValidatingOrder,
        begun.0@.compensation is None,
{
    let order_id = shipment_failed_event_data.order_id;
    (
        CompensationProcess {
            order_id,
            order_item_ids: shipment_failed_event_data.order_item_ids,
            step: CompensationStep::ValidatingOrder,
            compensation: None,
        },
        CompensationAction::ValidateOrder { order_id },
    )
}

impl CompensationProcess {
    /// How far the compensation has come.
    pub fn step(&self) -> (step: CompensationStep)
        ensures
            step == self@.step,
    {
        self.step
    }

    /// Whether `event` is one the compensation can go on with (see `admits`).
    pub fn admits_event(&self, event: &CompensationEvent) -> (admitted: bool)
        ensures
            admitted == admits(self@, event@),
    {
        match event {
            CompensationEvent::OrderValidated(_) => self.step == CompensationStep::ValidatingOrder,
            CompensationEvent::CompensationsFound(_) => self.step == CompensationStep::VerifyingItems,
            CompensationEvent::OrderFetched(fetched) => {
                self.step == CompensationStep::CalculatingAmount && match fetched {
                    Ok(items) => checked_amount_to_compensate(items, &self.order_item_ids).is_some(),
                    Err(_) => true,
                }
            },
            CompensationEvent::CompensationInserted(_) => self.step == CompensationStep::Inserting,
            CompensationEvent::CompensationPublished(_) => self.step == CompensationStep::Publishing,
        }
    }

    fn fail(
        order_id: Uuid,
        order_item_ids: Vec<Uuid>,
        compensation: Option<OrderCompensation>,
        error: CompensationError,
    ) -> (failed: (CompensationProcess, CompensationAction))
        requires
            compensation matches Some(c) ==> c.order_id == order_id && c.order_item_ids@
                == order_item_ids@,
        ensures
            failed.0@ == (CompensationProcessView {
                order_id,
                order_item_ids: order_item_ids@,
                step: CompensationStep::Failed,
                compensation: match compensation {
                    Some(c) => Some(c@),
                    None => None,
                },
            }),
            failed.1@ == CompensationActionView::Finish(Err(error@)),
    {
        (
            CompensationProcess { order_id, order_item_ids, step: CompensationStep::Failed, compensation },
            CompensationAction::Finish(Err(error)),
        )
    }

    /// Goes on with the outcome of the last piece of outside work: the
    /// compensation moves to its next step and asks for the next piece, or
    /// finishes. A new compensation record gets a random UUID and the current
    /// time, of which nothing is stated.
    pub fn advance(self, event: CompensationEvent) -> (advanced: (CompensationProcess, CompensationAction))
        requires
            admits(self@, event@),
        ensures
            exists|id: Uuid, triggered_at: i64|
                (advanced.0@, advanced.1@) == next(self@, event@, id, triggered_at),
            advanced.1@ matches CompensationActionView::InsertCompensation(record) ==> record._id.value
                & 0xF000_C000_0000_0000_0000u128 == 0x4000_8000_0000_0000_0000u128,
    {
        proof {
            use_type_invariant(&self);
        }
        let ghost old_view = self@;
        let ghost event_view = event@;
        let ghost mut fresh: (Uuid, i64) = (Uuid { value: 0 }, 0);
        let CompensationProcess { order_id, order_item_ids, step, compensation } = self;
        let advanced = match event {
            CompensationEvent::OrderValidated(outcome) => match outcome {
                Ok(()) => {
                    let ids = copy_ids(&order_item_ids);
                    (
                        CompensationProcess {
                            order_id,
                            order_item_ids,
                            step: CompensationStep::VerifyingItems,
                            compensation,
                        },
                        CompensationAction::FindCompensations { order_item_ids: ids },
                    )
                },
                Err(message) => CompensationProcess::fail(
                    order_id,
                    order_item_ids,
                    compensation,
                    CompensationError::InvalidOrder(message),
                ),
            },
            CompensationEvent::CompensationsFound(found) => match found {
                Ok(existing) => {
                    match verify_items_uncompensated(&existing, &order_item_ids) {
                        Ok(()) => (
                            CompensationProcess {
                                order_id,
                                order_item_ids,
                                step: CompensationStep::CalculatingAmount,
                                compensation,
                            },
                            CompensationAction::FetchOrder { order_id },
                        ),
                        Err(error) => CompensationProcess::fail(
                            order_id,
                            order_item_ids,
                            compensation,
                            error,
                        ),
                    }
                },
                Err(failure) => match failure {
                    CompensationsLookupFailure::QueryFailed => {
                        let ids = copy_ids(&order_item_ids);
                        CompensationProcess::fail(
                            order_id,
                            order_item_ids,
                            compensation,
                            CompensationError::ItemsNotVerified { order_item_ids: ids },
                        )
                    },
                    CompensationsLookupFailure::ReadFailed(message) => CompensationProcess::fail(
                        order_id,
                        order_item_ids,
                        compensation,
                        CompensationError::CompensationsUnreadable(message),
                    ),
                },
            },
            CompensationEvent::OrderFetched(fetched) => match fetched {
                Ok(items) => {
                    let amount_to_compensate = calculate_amount_to_compensate(&items, &order_item_ids);
                    let record = OrderCompensation {
                        _id: random_uuid(),
                        order_id,
                        order_item_ids: copy_ids(&order_item_ids),
                        triggered_at: current_time_millis(),
                        amount_to_compensate,
                    };
                    proof {
                        fresh = (record._id, record.triggered_at);
                    }
                    let inserted = copy_compensation(&record);
                    (
                        CompensationProcess {
                            order_id,
                            order_item_ids,
                            step: CompensationStep::Inserting,
                            compensation: Some(record),
                        },
                        CompensationAction::InsertCompensation(inserted),
                    )
                },
                Err(message) => CompensationProcess::fail(
                    order_id,
                    order_item_ids,
                    compensation,
                    CompensationError::OrderUnavailable(message),
                ),
            },
            CompensationEvent::CompensationInserted(inserted) => {
                if inserted {
                    let published = copy_compensation(compensation.as_ref().unwrap());
                    (
                        CompensationProcess {
                            order_id,
                            order_item_ids,
                            step: CompensationStep::Publishing,
                            compensation,
                        },
                        CompensationAction::PublishCompensation(published),
                    )
                } else {
                    CompensationProcess::fail(
                        order_id,
                        order_item_ids,
                        compensation,
                        CompensationError::InsertFailed,
                    )
                }
            },
            CompensationEvent::CompensationPublished(outcome) => match outcome {
                Ok(()) => (
                    CompensationProcess {
                        order_id,
                        order_item_ids,
                        step: CompensationStep::Done,
                        compensation,
                    },
                    CompensationAction::Finish(Ok(())),
                ),
                Err(message) => CompensationProcess::fail(
                    order_id,
                    order_item_ids,
                    compensation,
                    CompensationError::PublishFailed(message),
                ),
            },
        };
        assert((advanced.0@, advanced.1@) == next(old_view, event_view, fresh.0, fresh.1));
        advanced
    }
}

/// How many steps of the compensation lie behind a step.
pub open spec fn progress(step: CompensationStep) -> int {
    match step {
        CompensationStep::ValidatingOrder => 0,
        CompensationStep::VerifyingItems => 1,
        CompensationStep::CalculatingAmount => 2,
        CompensationStep::Inserting => 3,
        CompensationStep::Publishing => 4,
        CompensationStep::Done => 5,
        CompensationStep::Failed => 5,
    }
}

/// Whether the compensation is over.
pub open spec fn finished(step: CompensationStep) -> bool {
    step == CompensationStep::Done || step == CompensationStep::Failed
}

/// A compensation begins well formed, at its first step, asking to validate
/// the order of the failed shipment.
pub proof fn lemma_start_is_well_formed(order_id: Uuid, order_item_ids: Seq<Uuid>)
    ensures
        well_formed(start(order_id, order_item_ids).0),
        progress(start(order_id, order_item_ids).0.step) == 0,
        start(order_id, order_item_ids).0.step == CompensationStep::ValidatingOrder,
        start(order_id, order_item_ids).0.order_id == order_id,
        start(order_id, order_item_ids).0.order_item_ids == order_item_ids,
        start(order_id, order_item_ids).0.compensation is None,
        start(order_id, order_item_ids).1 == CompensationActionView::ValidateOrder(order_id),
{
}

/// Every admitted event keeps the compensation well formed and keeps its
/// order and items.
pub proof fn lemma_next_preserves_well_formed(
    process: CompensationProcessView,
    event: CompensationEventView,
    id: Uuid,
    triggered_at: i64,
)
    requires
        well_formed(process),
        admits(process, event),
    ensures
        well_formed(next(process, event, id, triggered_at).0),
        next(process, event, id, triggered_at).0.order_id == process.order_id,
        next(process, event, id, triggered_at).0.order_item_ids == process.order_item_ids,
{
}

/// Every admitted event moves the compensation forward: after at most five
/// events it is over, and it is over exactly when it asks to finish. A
/// finished compensation admits no event.
pub proof fn lemma_next_moves_forward(
    process: CompensationProcessView,
    event: CompensationEventView,
    id: Uuid,
    triggered_at: i64,
)
    requires
        admits(process, event),
    ensures
        !finished(process.step),
        progress(next(process, event, id, triggered_at).0.step) > progress(process.step),
        finished(next(process, event, id, triggered_at).0.step) <==> next(
            process,
            event,
            id,
            triggered_at,
        ).1 is Finish,
        (next(process, event, id, triggered_at).1 matches CompensationActionView::Finish(Ok(())))
            <==> next(process, event, id, triggered_at).0.step == CompensationStep::Done,
{
}

/// A failed piece of outside work ends the compensation with the error of
/// that step, and nothing more is asked for.
pub proof fn lemma_failures_end_the_compensation(
    process: CompensationProcessView,
    event: CompensationEventView,
    id: Uuid,
    triggered_at: i64,
)
    requires
        admits(process, event),
        match event {
            CompensationEventView::OrderValidated(outcome) => outcome is Err,
            CompensationEventView::CompensationsFound(found) => found is Err,
            CompensationEventView::OrderFetched(fetched) => fetched is Err,
            CompensationEventView::CompensationInserted(inserted) => !inserted,
            CompensationEventView::CompensationPublished(outcome) => outcome is Err,
        },
    ensures
        next(process, event, id, triggered_at).0.step == CompensationStep::Failed,
        next(process, event, id, triggered_at).1 == CompensationActionView::Finish(Err(
            match event {
                CompensationEventView::OrderValidated(Err(message)) => CompensationErrorView::InvalidOrder(
                    message,
                ),
                CompensationEventView::CompensationsFound(Err(CompensationsLookupFailureView::ReadFailed(message))) => CompensationErrorView::CompensationsUnreadable(message),
                CompensationEventView::CompensationsFound(Err(CompensationsLookupFailureView::QueryFailed)) => CompensationErrorView::ItemsNotVerified(process.order_item_ids),
                CompensationEventView::OrderFetched(Err(message)) => CompensationErrorView::OrderUnavailable(
                    message,
                ),
                CompensationEventView::CompensationPublished(Err(message)) => CompensationErrorView::PublishFailed(message),
                _ => CompensationErrorView::InsertFailed,
            },
        )),
{
}

/// The compensation asks to insert a record only once the order is fetched,
/// and the record is the order's own: its order, its items, and the sum of
/// the compensatable amounts of those items.
pub proof fn lemma_inserted_record_is_exact(
    process: CompensationProcessView,
    event: CompensationEventView,
    id: Uuid,
    triggered_at: i64,
)
    requires
        admits(process, event),
        next(process, event, id, triggered_at).1 is InsertCompensation,
    ensures
        process.step == CompensationStep::CalculatingAmount,
        event matches CompensationEventView::OrderFetched(Ok(items)) && {
            let record = next(process, event, id, triggered_at).1->InsertCompensation_0;
            &&& record == compensation_record(process, items, id, triggered_at)
            &&& record.order_id == process.order_id
            &&& record.order_item_ids == process.order_item_ids
            &&& record.amount_to_compensate == compensatable_total(items, process.order_item_ids)
        },
{
    if let CompensationEventView::OrderFetched(Ok(items)) = event {
        lemma_total_is_not_negative(items, process.order_item_ids);
    }
}

/// The compensation sends exactly the record that MongoDB took, and only
/// once MongoDB took it.
pub proof fn lemma_published_record_was_inserted(
    process: CompensationProcessView,
    event: CompensationEventView,
    id: Uuid,
    triggered_at: i64,
)
    requires
        well_formed(process),
        admits(process, event),
        next(process, event, id, triggered_at).1 is PublishCompensation,
    ensures
        process.step == CompensationStep::Inserting,
        event == CompensationEventView::CompensationInserted(true),
        process.compensation == Some(
            next(process, event, id, triggered_at).1->PublishCompensation_0,
        ),
{
}

/// The states and actions that a sequence of events takes a compensation
/// through, one pair per event; `fresh` holds the UUID and the time that
/// each step would give a new record.
pub open spec fn run(
    process: CompensationProcessView,
    events: Seq<CompensationEventView>,
    fresh: Seq<(Uuid, i64)>,
) -> Seq<(CompensationProcessView, CompensationActionView)>
    decreases events.len(),
{
    if events.len() == 0 {
        Seq::empty()
    } else {
        let stepped = next(process, events[0], fresh[0].0, fresh[0].1);
        seq![stepped] + run(stepped.0, events.drop_first(), fresh.drop_first())
    }
}

/// Whether each event of the sequence is admitted by the state that the
/// events before it lead to.
pub open spec fn admits_all(
    process: CompensationProcessView,
    events: Seq<CompensationEventView>,
    fresh: Seq<(Uuid, i64)>,
) -> bool
    decreases events.len(),
{
    events.len() == 0 || (admits(process, events[0]) && admits_all(
        next(process, events[0], fresh[0].0, fresh[0].1).0,
        events.drop_first(),
        fresh.drop_first(),
    ))
}

proof fn lemma_run_unfolds(
    process: CompensationProcessView,
    events: Seq<CompensationEventView>,
    fresh: Seq<(Uuid, i64)>,
)
    ensures
        run(process, events, fresh).len() == events.len(),
        events.len() > 0 ==> run(process, events, fresh)[0] == next(
            process,
            events[0],
            fresh[0].0,
            fresh[0].1,
        ),
        forall|k: int|
            1 <= k < events.len() ==> #[trigger] run(process, events, fresh)[k] == run(
                next(process, events[0], fresh[0].0, fresh[0].1).0,
                events.drop_first(),
                fresh.drop_first(),
            )[k - 1],
    decreases events.len(),
{
    if events.len() > 0 {
        lemma_run_unfolds(
            next(process, events[0], fresh[0].0, fresh[0].1).0,
            events.drop_first(),
            fresh.drop_first(),
        );
    }
}

/// However it goes on, a compensation takes at most five events: one per step.
pub proof fn lemma_admitted_runs_are_short(
    process: CompensationProcessView,
    events: Seq<CompensationEventView>,
    fresh: Seq<(Uuid, i64)>,
)
    requires
        admits_all(process, events, fresh),
    ensures
        events.len() <= 5 - progress(process.step),
    decreases events.len(),
{
    if events.len() > 0 {
        let after = next(process, events[0], fresh[0].0, fresh[0].1).0;
        lemma_next_moves_forward(process, events[0], fresh[0].0, fresh[0].1);
        lemma_admitted_runs_are_short(after, events.drop_first(), fresh.drop_first());
    }
}

/// Once the record is being inserted, no further record is asked to be inserted.
proof fn lemma_no_second_insert(
    process: CompensationProcessView,
    events: Seq<CompensationEventView>,
    fresh: Seq<(Uuid, i64)>,
    k: int,
)
    requires
        progress(process.step) >= 3,
        admits_all(process, events, fresh),
        0 <= k < events.len(),
    ensures
        !(run(process, events, fresh)[k].1 is InsertCompensation),
    decreases events.len(),
{
    lemma_run_unfolds(process, events, fresh);
    let after = next(process, events[0], fresh[0].0, fresh[0].1).0;
    lemma_next_moves_forward(process, events[0], fresh[0].0, fresh[0].1);
    if k > 0 {
        lemma_no_second_insert(after, events.drop_first(), fresh.drop_first(), k - 1);
    }
}

/// Over any sequence of admitted events, the compensation of a failed shipment
/// asks to insert a record only as its third action: after the order was
/// validated, after no existing compensation was found to cover any of the
/// shipment's items, and once the order was fetched. The record is that of
/// the shipment's order and items, with the sum of the compensatable amounts
/// of the fetched order's items that the shipment lists.
pub proof fn lemma_record_inserted_only_after_checks(
    order_id: Uuid,
    order_item_ids: Seq<Uuid>,
    events: Seq<CompensationEventView>,
    fresh: Seq<(Uuid, i64)>,
    k: int,
)
    requires
        admits_all(start(order_id, order_item_ids).0, events, fresh),
        0 <= k < events.len(),
        run(start(order_id, order_item_ids).0, events, fresh)[k].1 is InsertCompensation,
    ensures
        k == 2,
        events[0] matches CompensationEventView::OrderValidated(outcome) && outcome is Ok,
        events[1] matches CompensationEventView::CompensationsFound(Ok(existing))
            && !already_compensated(existing, order_item_ids),
        events[2] matches CompensationEventView::OrderFetched(Ok(items)) && {
            let record = run(start(order_id, order_item_ids).0, events, fresh)[2].1->InsertCompensation_0;
            &&& record.order_id == order_id
            &&& record.order_item_ids == order_item_ids
            &&& record.amount_to_compensate == compensatable_total(items, order_item_ids)
        },
{
    let p0 = start(order_id, order_item_ids).0;
    lemma_run_unfolds(p0, events, fresh);
    let p1 = next(p0, events[0], fresh[0].0, fresh[0].1).0;
    let events1 = events.drop_first();
    let fresh1 = fresh.drop_first();
    assert(admits(p0, events[0]) && admits_all(p1, events1, fresh1));
    lemma_next_moves_forward(p0, events[0], fresh[0].0, fresh[0].1);
    assert(k >= 1);
    if finished(p1.step) {
        lemma_admitted_runs_are_short(p1, events1, fresh1);
        assert(false);
    }
    assert(events[0]->OrderValidated_0 is Ok);
    lemma_run_unfolds(p1, events1, fresh1);
    let p2 = next(p1, events1[0], fresh1[0].0, fresh1[0].1).0;
    let events2 = events1.drop_first();
    let fresh2 = fresh1.drop_first();
    assert(admits(p1, events1[0]) && admits_all(p2, events2, fresh2));
    lemma_next_moves_forward(p1, events1[0], fresh1[0].0, fresh1[0].1);
    assert(k >= 2);
    if finished(p2.step) {
        lemma_admitted_runs_are_short(p2, events2, fresh2);
        assert(false);
    }
    lemma_run_unfolds(p2, events2, fresh2);
    let p3 = next(p2, events2[0], fresh2[0].0, fresh2[0].1).0;
    let events3 = events2.drop_first();
    let fresh3 = fresh2.drop_first();
    assert(admits(p2, events2[0]) && admits_all(p3, events3, fresh3));
    lemma_next_moves_forward(p2, events2[0], fresh2[0].0, fresh2[0].1);
    if k > 2 {
        if finished(p3.step) {
            lemma_admitted_runs_are_short(p3, events3, fresh3);
            assert(false);
        }
        lemma_no_second_insert(p3, events3, fresh3, k - 3);
        lemma_run_unfolds(p3, events3, fresh3);
        assert(false);
    }
    lemma_inserted_record_is_exact(p2, events2[0], fresh2[0].0, fresh2[0].1);
}

/// No order item is covered by two of the `stored` compensations.
pub open spec fn items_compensated_once(stored: Seq<OrderCompensationView>) -> bool {
    forall|i: int, j: int, id: Uuid|
        0 <= i < stored.len() && 0 <= j < stored.len() && i != j && #[trigger] stored[i].order_item_ids.contains(id)
            ==> !#[trigger] stored[j].order_item_ids.contains(id)
}

/// The looked-up compensations `found` include every one of the `stored`
/// compensations that covers one of the `order_item_ids`.
pub open spec fn lookup_sees_overlaps(
    found: Seq<OrderCompensationView>,
    stored: Seq<OrderCompensationView>,
    order_item_ids: Seq<Uuid>,
) -> bool {
    forall|j: int, id: Uuid|
        0 <= j < stored.len() && #[trigger] stored[j].order_item_ids.contains(id) && #[trigger] order_item_ids.contains(id)
            ==> found.contains(stored[j])
}

/// No item is compensated twice: where the stored compensations cover each
/// item once at most, and the lookup of the compensation found every stored
/// compensation that shares an item with the shipment, the stored
/// compensations together with the record that the compensation inserts still
/// cover each item once at most.
pub proof fn lemma_no_item_is_compensated_twice(
    order_id: Uuid,
    order_item_ids: Seq<Uuid>,
    events: Seq<CompensationEventView>,
    fresh: Seq<(Uuid, i64)>,
    k: int,
    stored: Seq<OrderCompensationView>,
)
    requires
        admits_all(start(order_id, order_item_ids).0, events, fresh),
        0 <= k < events.len(),
        run(start(order_id, order_item_ids).0, events, fresh)[k].1 is InsertCompensation,
        items_compensated_once(stored),
        1 < events.len() ==> (events[1] matches CompensationEventView::CompensationsFound(Ok(found))
            ==> lookup_sees_overlaps(found, stored, order_item_ids)),
    ensures
        items_compensated_once(
            stored.push(run(start(order_id, order_item_ids).0, events, fresh)[k].1->InsertCompensation_0),
        ),
{
    lemma_record_inserted_only_after_checks(order_id, order_item_ids, events, fresh, k);
    let record = run(start(order_id, order_item_ids).0, events, fresh)[k].1->InsertCompensation_0;
    let all = stored.push(record);
    let found = events[1]->CompensationsFound_0->Ok_0;
    assert forall|i: int, j: int, id: Uuid|
        0 <= i < all.len() && 0 <= j < all.len() && i != j && #[trigger] all[i].order_item_ids.contains(id)
        implies !#[trigger] all[j].order_item_ids.contains(id) by {
        if all[j].order_item_ids.contains(id) {
            if i < stored.len() && j < stored.len() {
                assert(all[i] == stored[i] && all[j] == stored[j]);
            } else {
                let s = if i < stored.len() { i } else { j };
                assert(all[s] == stored[s]);
                assert(record.order_item_ids == order_item_ids);
                assert(stored[s].order_item_ids.contains(id) && order_item_ids.contains(id));
                assert(found.contains(stored[s]));
                let f = choose|f: int| 0 <= f < found.len() && found[f] == stored[s];
                assert(found[f].order_item_ids.contains(id) && order_item_ids.contains(id));
                assert(already_compensated(found, order_item_ids));
            }
        }
    }
}

/// Each successful piece of outside work leads to the next one, on the
/// shipment's own order and items: a validated order leads to the lookup of
/// compensations of exactly the shipment's items; a lookup that finds none of
/// them compensated leads to fetching the shipment's own order; a fetched
/// order leads to inserting the record with the given UUID and time; an
/// inserted record leads to publishing it; a published record ends the
/// compensation successfully. A lookup that finds an item compensated ends it
/// with the shipment's items as the error.
pub proof fn lemma_successful_work_leads_on(
    process: CompensationProcessView,
    id: Uuid,
    triggered_at: i64,
)
    ensures
        next(process, CompensationEventView::OrderValidated(Ok(())), id, triggered_at).1
            == CompensationActionView::FindCompensations(process.order_item_ids),
        next(process, CompensationEventView::OrderValidated(Ok(())), id, triggered_at).0.step
            == CompensationStep::VerifyingItems,
        forall|existing: Seq<OrderCompensationView>|
            !already_compensated(existing, process.order_item_ids) ==> {
                &&& #[trigger] next(
                    process,
                    CompensationEventView::CompensationsFound(Ok(existing)),
                    id,
                    triggered_at,
                ).1 == CompensationActionView::FetchOrder(process.order_id)
                &&& next(
                    process,
                    CompensationEventView::CompensationsFound(Ok(existing)),
                    id,
                    triggered_at,
                ).0.step == CompensationStep::CalculatingAmount
            },
        forall|existing: Seq<OrderCompensationView>|
            already_compensated(existing, process.order_item_ids) ==> {
                &&& #[trigger] next(
                    process,
                    CompensationEventView::CompensationsFound(Ok(existing)),
                    id,
                    triggered_at,
                ).1 == CompensationActionView::Finish(
                    Err(CompensationErrorView::ItemsNotVerified(process.order_item_ids)),
                )
                &&& next(
                    process,
                    CompensationEventView::CompensationsFound(Ok(existing)),
                    id,
                    triggered_at,
                ).0.step == CompensationStep::Failed
            },
        forall|items: Seq<OrderItem>|
            #[trigger] next(process, CompensationEventView::OrderFetched(Ok(items)), id, triggered_at).1
                == CompensationActionView::InsertCompensation(
                OrderCompensationView {
                    _id: id,
                    order_id: process.order_id,
                    order_item_ids: process.order_item_ids,
                    triggered_at,
                    amount_to_compensate: compensatable_total(items, process.order_item_ids) as u64,
                },
            ),
        process.compensation matches Some(record) ==> next(
            process,
            CompensationEventView::CompensationInserted(true),
            id,
            triggered_at,
        ).1 == CompensationActionView::PublishCompensation(record),
        next(process, CompensationEventView::CompensationInserted(true), id, triggered_at).0.step
            == CompensationStep::Publishing,
        next(process, CompensationEventView::CompensationPublished(Ok(())), id, triggered_at).1
            == CompensationActionView::Finish(Ok(())),
        next(process, CompensationEventView::CompensationPublished(Ok(())), id, triggered_at).0.step
            == CompensationStep::Done,
{
}

/// The compensation goes on with every outcome, success or failure, of the
/// work that its step waits for, and with nothing else; the one outcome it
/// refuses is an order whose amount to compensate overflows a `u64`. Once
/// finished, it admits nothing.
pub proof fn lemma_admits_every_outcome_of_awaited_work(
    process: CompensationProcessView,
    event: CompensationEventView,
)
    ensures
        process.step == CompensationStep::ValidatingOrder ==> (admits(process, event)
            <==> event is OrderValidated),
        process.step == CompensationStep::VerifyingItems ==> (admits(process, event)
            <==> event is CompensationsFound),
        process.step == CompensationStep::CalculatingAmount ==> (admits(process, event) <==> (
        match event {
            CompensationEventView::OrderFetched(Ok(items)) => compensatable_total(
                items,
                process.order_item_ids,
            ) <= u64::MAX,
            CompensationEventView::OrderFetched(Err(_)) => true,
            _ => false,
        })),
        process.step == CompensationStep::Inserting ==> (admits(process, event)
            <==> event is CompensationInserted),
        process.step == CompensationStep::Publishing ==> (admits(process, event)
            <==> event is CompensationPublished),
        process.step == CompensationStep::Done ==> !admits(process, event),
        process.step == CompensationStep::Failed ==> !admits(process, event),
{
}

} // verus!
