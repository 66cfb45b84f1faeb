//! Orders: what the order handlers answer, given what the cache and the
//! store gave them.

use vstd::prelude::*;
use vstd::string::*;
use crate::response::{
    failed, found_for_update, key_texts, one_key, removed_all, served_from_cache,
    served_from_store, two_keys, written_all, Handled, ReadSource, UpdatePlan,
};
use crate::rows::map_all;
use crate::text::join2;

verus! {

/// An order as the store holds it.
pub struct OrderRecord {
    pub order_id: String,
    pub customer_id: String,
    pub item_type: String,
    pub item_id: String,
    pub quantity: i32,
    pub date: String,
    pub is_paid: bool,
    pub status: Option<String>,
}

/// An order as a caller sees it.
pub struct OrderResponse {
    pub order_id: String,
    pub customer_id: String,
    pub item_type: String,
    pub item_id: String,
    pub quantity: i32,
    pub date: String,
    pub is_paid: bool,
    pub status: Option<String>,
}

/// A request to place an order.
pub struct CreateOrderRequest {
    pub order_id: String,
    pub customer_id: String,
    pub item_type: String,
    pub item_id: String,
    pub date: String,
    pub quantity: i32,
    pub is_paid: bool,
}

/// A request to set the status of an order.
pub struct UpdateOrderStatusRequest {
    pub order_id: String,
    pub status: String,
}

/// A request to change the quantity or the payment of an order; what it leaves
/// out stays as it is.
pub struct UpdateOrderRequest {
    pub order_id: String,
    pub quantity: Option<i32>,
    pub is_paid: Option<bool>,
}

/// A request to check an order out, with or without a word on its payment.
pub struct CheckoutOrderRequest {
    pub order_id: String,
    pub is_paid: Option<bool>,
}

/// A request to delete an order.
pub struct DeleteOrderRequest {
    pub order_id: String,
}

/// Seconds for which a list of orders stays cached.
pub const ORDERS_TTL: usize = 60;

/// The key under which the list of all orders is cached.
pub const ALL_ORDERS_KEY: &'static str = "get_all_orders_cache";

/// [`ALL_ORDERS_KEY`], as contracts speak of it.
pub open spec fn all_orders_key() -> Seq<char> {
    ALL_ORDERS_KEY@
}

/// The key under which the orders of one customer and one type are cached.
pub open spec fn orders_key_of(customer_id: Seq<char>, order_type: Seq<char>) -> Seq<char> {
    "orders_"@ + customer_id + "_"@ + order_type
}

/// The key under which the orders of `customer_id` of type `order_type` are
/// cached.
pub fn orders_key(customer_id: &str, order_type: &str) -> (key: String)
    ensures
        key@ == orders_key_of(customer_id@, order_type@),
{
    let mut key = join2("orders_", customer_id);
    key.append("_");
    key.append(order_type);
    key
}

/// The keys under which an order of `customer_id` of type `order_type` is
/// cached: the list of all orders, and the list of the customer's orders of
/// that type.
pub open spec fn order_keys_of(customer_id: Seq<char>, order_type: Seq<char>) -> Seq<Seq<char>> {
    seq![all_orders_key(), orders_key_of(customer_id, order_type)]
}

/// The keys under which `record` is cached.
pub fn order_keys(record: &OrderRecord) -> (keys: Vec<String>)
    ensures
        key_texts(keys@) == order_keys_of(record.customer_id@, record.item_type@),
{
    let own = orders_key(record.customer_id.as_str(), record.item_type.as_str());
    two_keys(ALL_ORDERS_KEY, own.as_str())
}

/// Whether `response` shows `record`, field by field.
pub open spec fn shows_order(response: OrderResponse, record: OrderRecord) -> bool {
    &&& response.order_id == record.order_id
    &&& response.customer_id == record.customer_id
    &&& response.item_type == record.item_type
    &&& response.item_id == record.item_id
    &&& response.quantity == record.quantity
    &&& response.date == record.date
    &&& response.is_paid == record.is_paid
    &&& response.status == record.status
}

/// What a caller sees of `record`.
pub fn order_response(record: &OrderRecord) -> (response: OrderResponse)
    ensures
        shows_order(response, *record),
{
    OrderResponse {
        order_id: record.order_id.clone(),
        customer_id: record.customer_id.clone(),
        item_type: record.item_type.clone(),
        item_id: record.item_id.clone(),
        quantity: record.quantity,
        date: record.date.clone(),
        is_paid: record.is_paid,
        status: record.status.clone(),
    }
}

/// Whether `responses` shows `records`, one for one and in order.
pub open spec fn shows_orders(responses: Seq<OrderResponse>, records: Seq<OrderRecord>) -> bool {
    &&& responses.len() == records.len()
    &&& forall|i: int| 0 <= i < responses.len() ==> shows_order(#[trigger] responses[i], records[i])
}

/// Whether `record` is an order of `customer_id` of type `order_type`.
pub open spec fn is_order_of(record: OrderRecord, customer_id: Seq<char>, order_type: Seq<char>) -> bool {
    record.customer_id@ == customer_id && record.item_type@ == order_type
}

/// The orders of `customer_id` of type `order_type` among `records`, in the
/// order in which they stand there.
pub open spec fn orders_of(
    records: Seq<OrderRecord>,
    customer_id: Seq<char>,
    order_type: Seq<char>,
) -> Seq<OrderRecord> {
    records.filter(|record: OrderRecord| is_order_of(record, customer_id, order_type))
}

fn show_all(records: &Vec<OrderRecord>) -> (responses: Vec<OrderResponse>)
    ensures
        shows_orders(responses@, records@),
{
    map_all(records, order_response)
}

fn show_matching(records: &Vec<OrderRecord>, customer_id: &String, order_type: &String) -> (responses:
    Vec<OrderResponse>)
    ensures
        shows_orders(responses@, orders_of(records@, customer_id@, order_type@)),
{
    let ghost wanted = |record: OrderRecord| is_order_of(record, customer_id@, order_type@);
    let mut responses: Vec<OrderResponse> = Vec::new();
    let mut i: usize = 0;
    assert(records@.subrange(0, 0) =~= Seq::<OrderRecord>::empty());
    proof {
        reveal(Seq::filter);
    }
    while i < records.len()
        invariant
            i <= records@.len(),
            wanted == |record: OrderRecord| is_order_of(record, customer_id@, order_type@),
            shows_orders(responses@, records@.subrange(0, i as int).filter(wanted)),
        decreases records@.len() - i,
    {
        let record = &records[i];
        proof {
            reveal(Seq::filter);
            let before = records@.subrange(0, i as int);
            let after = records@.subrange(0, i + 1);
            assert(after.drop_last() =~= before);
            assert(after.last() == records@[i as int]);
        }
        if record.customer_id == *customer_id && record.item_type == *order_type {
            responses.push(order_response(record));
        }
        i += 1;
    }
    assert(records@.subrange(0, i as int) =~= records@);
    responses
}

/// Answers a request for all orders: the cached list as it is, or the list
/// the store gave, which is then cached for a minute.
pub fn view_all_orders(source: ReadSource<Vec<OrderResponse>, Vec<OrderRecord>>) -> (handled:
    Handled<Vec<OrderResponse>>)
    ensures
        match source {
            ReadSource::Cache(cached) => handled.succeeds_with(cached) && handled.leaves_cache(),
            ReadSource::Store(Ok(records)) => handled.succeeds() && shows_orders(
                handled.data()@,
                records@,
            ) && handled.refreshes(all_orders_key(), ORDERS_TTL),
            ReadSource::Store(Err(detail)) => handled.fails_with("Database error: "@ + detail@)
                && handled.leaves_cache(),
        },
{
    match source {
        ReadSource::Cache(cached) => served_from_cache(cached),
        ReadSource::Store(Ok(records)) => served_from_store(
            show_all(&records),
            ALL_ORDERS_KEY,
            ORDERS_TTL,
        ),
        ReadSource::Store(Err(detail)) => failed("Database error: ", detail.as_str()),
    }
}

/// Answers a request for the orders of one customer and one type: the cached
/// list as it is, or those among the orders the store gave, which are then
/// cached for a minute under the key of the customer and the type.
pub fn view_orders(
    source: ReadSource<Vec<OrderResponse>, Vec<OrderRecord>>,
    customer_id: String,
    order_type: String,
) -> (handled: Handled<Vec<OrderResponse>>)
    ensures
        match source {
            ReadSource::Cache(cached) => handled.succeeds_with(cached) && handled.leaves_cache(),
            ReadSource::Store(Ok(records)) => handled.succeeds() && shows_orders(
                handled.data()@,
                orders_of(records@, customer_id@, order_type@),
            ) && handled.refreshes(orders_key_of(customer_id@, order_type@), ORDERS_TTL),
            ReadSource::Store(Err(detail)) => handled.fails_with(
                "Failed to fetch orders: "@ + detail@,
            ) && handled.leaves_cache(),
        },
{
    match source {
        ReadSource::Cache(cached) => served_from_cache(cached),
        ReadSource::Store(Ok(records)) => {
            let key = orders_key(customer_id.as_str(), order_type.as_str());
            served_from_store(
                show_matching(&records, &customer_id, &order_type),
                key.as_str(),
                ORDERS_TTL,
            )
        },
        ReadSource::Store(Err(detail)) => failed("Failed to fetch orders: ", detail.as_str()),
    }
}

/// The status a new order starts with: an order from a restaurant waits for
/// the kitchen, any other has none.
pub open spec fn initial_status(item_type: Seq<char>) -> Option<Seq<char>> {
    if item_type == "restaurant"@ {
        Some("Waiting for Cooking"@)
    } else {
        None
    }
}

/// The view of an optional text.
pub open spec fn text_of(text: Option<String>) -> Option<Seq<char>> {
    match text {
        Some(t) => Some(t@),
        None => None,
    }
}

/// The record of a new order.
pub fn new_order(payload: CreateOrderRequest) -> (record: OrderRecord)
    ensures
        record.order_id == payload.order_id,
        record.customer_id == payload.customer_id,
        record.item_type == payload.item_type,
        record.item_id == payload.item_id,
        record.date == payload.date,
        record.quantity == payload.quantity,
        record.is_paid == payload.is_paid,
        text_of(record.status) == initial_status(payload.item_type@),
{
    let status = if payload.item_type == String::from_str("restaurant") {
        Some(String::from_str("Waiting for Cooking"))
    } else {
        None
    };
    OrderRecord {
        order_id: payload.order_id,
        customer_id: payload.customer_id,
        item_type: payload.item_type,
        item_id: payload.item_id,
        quantity: payload.quantity,
        date: payload.date,
        is_paid: payload.is_paid,
        status,
    }
}

/// Answers a request to create an order, once the store has inserted it:
/// both lists that the new order belongs in are invalidated, that of all
/// orders and that of its customer and type.
pub fn create_order(inserted: Result<OrderRecord, String>) -> (handled: Handled<OrderRecord>)
    ensures
        match inserted {
            Ok(record) => handled.succeeds_with(record) && handled.invalidates_all(
                order_keys_of(record.customer_id@, record.item_type@),
            ),
            Err(detail) => handled.fails_with("Failed to create order: "@ + detail@)
                && handled.leaves_cache(),
        },
{
    match inserted {
        Ok(record) => {
            let keys = order_keys(&record);
            written_all(record, keys)
        },
        Err(detail) => failed("Failed to create order: ", detail.as_str()),
    }
}

/// What becomes of a looked-up order: written with the changes applied, or a
/// failure where it is not there or the lookup failed.
pub open spec fn order_update_plan(
    plan: UpdatePlan<OrderRecord, OrderRecord>,
    found: Result<Option<OrderRecord>, String>,
    order_id: Seq<char>,
    changed: spec_fn(OrderRecord) -> OrderRecord,
) -> bool {
    match found {
        Ok(Some(existing)) => plan == UpdatePlan::<OrderRecord, OrderRecord>::Write(
            changed(existing),
        ),
        Ok(None) => plan matches UpdatePlan::Answer(handled) && handled.fails_with(
            "No order found with ID: "@ + order_id,
        ) && handled.leaves_cache(),
        Err(detail) => plan matches UpdatePlan::Answer(handled) && handled.fails_with(
            "Database error while updating order: "@ + detail@,
        ) && handled.leaves_cache(),
    }
}

/// Decides a request to set an order's status, once the order was looked up:
/// the order with the new status is to be written.
pub fn update_order_status(
    found: Result<Option<OrderRecord>, String>,
    payload: UpdateOrderStatusRequest,
) -> (plan: UpdatePlan<OrderRecord, OrderRecord>)
    ensures
        order_update_plan(
            plan,
            found,
            payload.order_id@,
            |existing: OrderRecord| OrderRecord { status: Some(payload.status), ..existing },
        ),
{
    match found_for_update(
        found,
        payload.order_id.as_str(),
        "No order found with ID: ",
        "Database error while updating order: ",
    ) {
        UpdatePlan::Write(existing) => {
            let mut record = existing;
            record.status = Some(payload.status);
            UpdatePlan::Write(record)
        },
        UpdatePlan::Answer(handled) => UpdatePlan::Answer(handled),
    }
}

/// An order with the quantity and the payment of a request taken over where
/// the request names them.
pub open spec fn with_changes(
    existing: OrderRecord,
    quantity: Option<i32>,
    is_paid: Option<bool>,
) -> OrderRecord {
    OrderRecord {
        quantity: match quantity {
            Some(q) => q,
            None => existing.quantity,
        },
        is_paid: match is_paid {
            Some(p) => p,
            None => existing.is_paid,
        },
        ..existing
    }
}

/// Decides a request to change an order, once the order was looked up: the
/// order is to be written with the quantity and the payment that the request
/// names, and as it was in what the request leaves out.
pub fn update_order(found: Result<Option<OrderRecord>, String>, payload: UpdateOrderRequest) -> (plan:
    UpdatePlan<OrderRecord, OrderRecord>)
    ensures
        order_update_plan(
            plan,
            found,
            payload.order_id@,
            |existing: OrderRecord| with_changes(existing, payload.quantity, payload.is_paid),
        ),
{
    match found_for_update(
        found,
        payload.order_id.as_str(),
        "No order found with ID: ",
        "Database error while updating order: ",
    ) {
        UpdatePlan::Write(existing) => {
            let mut record = existing;
            match payload.quantity {
                Some(quantity) => {
                    record.quantity = quantity;
                },
                None => {},
            }
            match payload.is_paid {
                Some(is_paid) => {
                    record.is_paid = is_paid;
                },
                None => {},
            }
            UpdatePlan::Write(record)
        },
        UpdatePlan::Answer(handled) => UpdatePlan::Answer(handled),
    }
}

/// Decides a checkout, once the order was looked up: the order is to be
/// written with the payment that the request names, if it names one.
pub fn checkout_order(found: Result<Option<OrderRecord>, String>, payload: CheckoutOrderRequest) -> (plan:
    UpdatePlan<OrderRecord, OrderRecord>)
    ensures
        order_update_plan(
            plan,
            found,
            payload.order_id@,
            |existing: OrderRecord| with_changes(existing, None, payload.is_paid),
        ),
{
    match found_for_update(
        found,
        payload.order_id.as_str(),
        "No order found with ID: ",
        "Database error while updating order: ",
    ) {
        UpdatePlan::Write(existing) => {
            let mut record = existing;
            match payload.is_paid {
                Some(is_paid) => {
                    record.is_paid = is_paid;
                },
                None => {},
            }
            UpdatePlan::Write(record)
        },
        UpdatePlan::Answer(handled) => UpdatePlan::Answer(handled),
    }
}

/// Answers a request that changed an order, once the store has written it:
/// both lists that show the order are invalidated, that of all orders and
/// that of its customer and type.
pub fn order_updated(updated: Result<OrderRecord, String>) -> (handled: Handled<OrderRecord>)
    ensures
        match updated {
            Ok(record) => handled.succeeds_with(record) && handled.invalidates_all(
                order_keys_of(record.customer_id@, record.item_type@),
            ),
            Err(detail) => handled.fails_with("Failed to update order: "@ + detail@)
                && handled.leaves_cache(),
        },
{
    match updated {
        Ok(record) => {
            let keys = order_keys(&record);
            written_all(record, keys)
        },
        Err(detail) => failed("Failed to update order: ", detail.as_str()),
    }
}

/// The keys that the removal of an order invalidates: the list of all
/// orders, and, where the order was seen before it was removed, the list of
/// its customer and type.
pub open spec fn removal_keys_of(seen: Option<OrderRecord>) -> Seq<Seq<char>> {
    match seen {
        Some(record) => order_keys_of(record.customer_id@, record.item_type@),
        None => seq![all_orders_key()],
    }
}

/// Answers a request to delete an order, from the order as it was looked up
/// before the removal, if it was there, and the number of rows the store then
/// removed.
///
/// A removal invalidates every list that showed the order. One that removed
/// no row fails and leaves the cache alone, and so does one that the store
/// failed.
pub fn delete_order(
    payload: &DeleteOrderRequest,
    seen: Option<OrderRecord>,
    rows_affected: Result<u64, String>,
) -> (handled: Handled<()>)
    ensures
        match rows_affected {
            Ok(rows) => if rows == 0 {
                handled.fails_with("No order found with ID: "@ + payload.order_id@)
                    && handled.leaves_cache()
            } else {
                handled.succeeds_with(()) && handled.invalidates_all(removal_keys_of(seen))
            },
            Err(detail) => handled.fails_with("Failed to delete order: "@ + detail@)
                && handled.leaves_cache(),
        },
{
    let keys = match &seen {
        Some(record) => order_keys(record),
        None => one_key(ALL_ORDERS_KEY),
    };
    removed_all(
        rows_affected,
        payload.order_id.as_str(),
        keys,
        "No order found with ID: ",
        "Failed to delete order: ",
    )
}

} // verus!
