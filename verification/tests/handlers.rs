use vortekia::catalog::{
    create_menu, create_proposal, create_ride, delete_menu, delete_ride, menu_updated,
    proposal_created, ride_updated, update_menu, update_ride, view_all_menus, view_all_proposal,
    view_all_rides, view_all_souvenirs, view_menu, view_ride, view_souvenir, DeleteMenuRequest,
    DeleteRideRequest,
};
use vortekia::lost_and_found::{
    create_lost_item, delete_lost_item, lost_item_response, lost_item_updated, new_lost_item,
    update_lost_item, view_lost_and_found_items, CreateLostItemRequest, DeleteLostItemRequest,
    LostItemRecord, UpdateLostItemRequest,
};
use vortekia::maintenance::{
    create_maintenance_request, maintenance_request_created, new_maintenance_request,
    view_all_maintenance, CreateMaintenanceRequest, MaintenanceRecord, MaintenanceResponse,
};
use vortekia::notifications::{
    get_notifications, mark_all_notifications_read, notifications_key, notifications_marked,
    view_notification, MarkPlan, NotificationRecord,
};
use vortekia::pictures::{picture_text, show_pictured, Pictured};
use vortekia::orders::{
    checkout_order, create_order, delete_order, new_order, order_updated, orders_key,
    update_order, update_order_status, view_all_orders, view_orders, CheckoutOrderRequest,
    CreateOrderRequest, DeleteOrderRequest, OrderRecord, OrderResponse, UpdateOrderRequest,
    UpdateOrderStatusRequest,
};
use vortekia::queues::{
    create_queue, delete_queue, edit_queue, get_queues_by_ride, next_position, queue_created,
    queue_updated, view_all_queues, CreateQueueRequest, DeleteQueueRequest, EditQueueRequest,
    JoinPlan, QueueRecord,
};
use vortekia::response::{
    failed, found_for_update, one_key, read_list, read_one, removed, removed_all, saved,
    saved_all, served_from_cache, served_from_store, turned_down, two_keys, written,
    written_all, ApiResponse, CacheAction, Handled, ReadSource, UpdatePlan,
};
use vortekia::restaurants::{
    cached_restaurant_response, create_restaurant, delete_restaurant, new_restaurant,
    restaurant_cache_entries, restaurant_updated, update_restaurant, view_all_restaurants,
    CreateRestaurantRequest, DeleteRestaurantRequest, RestaurantRecord, UpdateRestaurantRequest,
};
use vortekia::rows::{map_all, reversed};
use vortekia::stores::{
    cached_store_response, create_store, delete_store, new_store, store_cache_entries,
    store_updated, update_store, view_all_stores, CreateStoreRequest, DeleteStoreRequest,
    StoreRecord, UpdateStoreRequest,
};
use vortekia::users::{
    assign_restaurant_staff, assign_ride_staff, balance_topped_up, create_customer,
    customer_role, get_all_ride_staff, get_all_users, get_all_users_lite, get_balance,
    get_user_lite_by_id, login_user, restaurant_staff_assigned, ride_for_staff,
    ride_staff_assigned, staff_login, top_up_balance, user_key, user_lite_key,
    AssignRestaurantStaffRequest, AssignRideStaffRequest, StaffCheck, UserRecord,
};

fn s(text: &str) -> String {
    text.to_string()
}

fn data<T>(handled: Handled<T>) -> T {
    match handled.result {
        Ok(ApiResponse::Success { data, message: None }) => data,
        _ => panic!("a success without a message was expected"),
    }
}

fn failure<T>(handled: &Handled<T>) -> &str {
    match &handled.result {
        Ok(ApiResponse::Error { data: None, message }) => message,
        _ => panic!("a failure without data was expected"),
    }
}

fn refusal<T>(handled: &Handled<T>) -> &str {
    match &handled.result {
        Err(text) => text,
        _ => panic!("a request that was turned down was expected"),
    }
}

fn untouched<T>(handled: &Handled<T>) -> bool {
    matches!(handled.cache, CacheAction::Nothing)
}

fn refreshes<T>(handled: &Handled<T>, key: &str, ttl: usize) -> bool {
    matches!(&handled.cache, CacheAction::Refresh { key: k, ttl_seconds } if k == key && *ttl_seconds == ttl)
}

fn invalidates_all<T>(handled: &Handled<T>, keys: &[&str]) -> bool {
    matches!(&handled.cache, CacheAction::Invalidate { keys: k } if k == keys)
}

fn invalidates<T>(handled: &Handled<T>, key: &str) -> bool {
    invalidates_all(handled, &[key])
}

fn order(id: &str, customer: &str, item_type: &str) -> OrderRecord {
    OrderRecord {
        order_id: s(id),
        customer_id: s(customer),
        item_type: s(item_type),
        item_id: s("ITEM"),
        quantity: 2,
        date: s("2025-04-02"),
        is_paid: false,
        status: None,
    }
}

#[test]
fn api_responses_carry_data_or_a_message() {
    assert!(matches!(
        ApiResponse::success(5),
        ApiResponse::Success { data: 5, message: None }
    ));
    assert!(matches!(
        ApiResponse::<u8>::error(s("no")),
        ApiResponse::Error { data: None, message } if message == "no"
    ));
}

#[test]
fn the_shared_answers_tie_responses_to_cache_actions() {
    let hit = served_from_cache(1);
    assert!(untouched(&hit));
    assert_eq!(data(hit), 1);
    let miss = served_from_store(2, "k", 60);
    assert!(refreshes(&miss, "k", 60));
    assert_eq!(data(miss), 2);
    let change = written(3, "k");
    assert!(invalidates(&change, "k"));
    assert_eq!(data(change), 3);
    let bad = failed::<u8>("Database error: ", "timeout");
    assert!(untouched(&bad));
    assert_eq!(failure(&bad), "Database error: timeout");
    let down = turned_down::<u8>("Failed: ", "x");
    assert!(untouched(&down));
    assert_eq!(refusal(&down), "Failed: x");
}

#[test]
fn saved_and_removed_invalidate_only_on_success() {
    let ok = saved(Ok(7), "list", "Failed to save: ");
    assert!(invalidates(&ok, "list"));
    assert_eq!(data(ok), 7);
    let err = saved::<u8>(Err(s("dup")), "list", "Failed to save: ");
    assert!(untouched(&err));
    assert_eq!(failure(&err), "Failed to save: dup");

    let gone = removed(Ok(1), "ID-1", "list", "No x found with ID: ", "Failed to delete x: ");
    assert!(invalidates(&gone, "list"));
    data(gone);
    let none = removed(Ok(0), "ID-1", "list", "No x found with ID: ", "Failed to delete x: ");
    assert!(untouched(&none));
    assert_eq!(failure(&none), "No x found with ID: ID-1");
    let err = removed(Err(s("locked")), "ID-1", "list", "No x found with ID: ", "Failed to delete x: ");
    assert!(untouched(&err));
    assert_eq!(failure(&err), "Failed to delete x: locked");
}

#[test]
fn lookups_for_an_update_write_what_was_found() {
    assert!(matches!(
        found_for_update::<u8, u8>(Ok(Some(4)), "ID", "missing ", "failed "),
        UpdatePlan::Write(4)
    ));
    match found_for_update::<u8, u8>(Ok(None), "ID", "missing ", "failed ") {
        UpdatePlan::Answer(handled) => assert_eq!(failure(&handled), "missing ID"),
        _ => panic!("nothing is written where nothing was found"),
    }
    match found_for_update::<u8, u8>(Err(s("down")), "ID", "missing ", "failed ") {
        UpdatePlan::Answer(handled) => assert_eq!(failure(&handled), "failed down"),
        _ => panic!("nothing is written where the lookup failed"),
    }
}

#[test]
fn generic_reads_cache_what_the_store_gave() {
    let hit = read_list(ReadSource::Cache(vec![1]), "k", 60, "Database error: ");
    assert!(untouched(&hit));
    assert_eq!(data(hit), vec![1]);
    let miss = read_list(ReadSource::Store(Ok(vec![2])), "k", 60, "Database error: ");
    assert!(refreshes(&miss, "k", 60));
    assert_eq!(data(miss), vec![2]);
    let err = read_list::<Vec<u8>>(ReadSource::Store(Err(s("x"))), "k", 60, "Database error: ");
    assert_eq!(failure(&err), "Database error: x");

    let one = read_one(ReadSource::Store(Ok(Some(9))), "k9", 60, "not found", "Database error: ");
    assert!(refreshes(&one, "k9", 60));
    assert_eq!(data(one), 9);
    let none = read_one::<u8>(ReadSource::Store(Ok(None)), "k9", 60, "not found", "Database error: ");
    assert!(untouched(&none));
    assert_eq!(failure(&none), "not found");
    let cached = read_one(ReadSource::Cache(8), "k9", 60, "not found", "Database error: ");
    assert!(untouched(&cached));
    assert_eq!(data(cached), 8);
}

#[test]
fn rows_are_mapped_and_reversed_in_order() {
    assert_eq!(map_all(&vec![1u8, 2, 3], |n: &u8| n + 1), vec![2, 3, 4]);
    assert_eq!(map_all(&Vec::<u8>::new(), |n: &u8| *n), Vec::<u8>::new());
    assert_eq!(reversed(vec![1, 2, 3]), vec![3, 2, 1]);
    assert_eq!(reversed(Vec::<u8>::new()), Vec::<u8>::new());
}

#[test]
fn all_orders_are_shown_and_cached_for_a_minute() {
    let handled = view_all_orders(ReadSource::Store(Ok(vec![
        order("O1", "C1", "restaurant"),
        order("O2", "C2", "souvenir"),
    ])));
    assert!(refreshes(&handled, "get_all_orders_cache", 60));
    let shown = data(handled);
    assert_eq!(shown.len(), 2);
    assert_eq!(shown[0].order_id, "O1");
    assert_eq!(shown[0].customer_id, "C1");
    assert_eq!(shown[0].item_type, "restaurant");
    assert_eq!(shown[0].item_id, "ITEM");
    assert_eq!(shown[0].quantity, 2);
    assert_eq!(shown[0].date, "2025-04-02");
    assert!(!shown[0].is_paid);
    assert_eq!(shown[0].status, None);
    assert_eq!(shown[1].order_id, "O2");

    let cached = vec![OrderResponse {
        order_id: s("O9"),
        customer_id: s("C"),
        item_type: s("t"),
        item_id: s("i"),
        quantity: 1,
        date: s("d"),
        is_paid: true,
        status: Some(s("Done")),
    }];
    let hit = view_all_orders(ReadSource::Cache(cached));
    assert!(untouched(&hit));
    assert_eq!(data(hit)[0].order_id, "O9");

    let err = view_all_orders(ReadSource::Store(Err(s("connection reset"))));
    assert!(untouched(&err));
    assert_eq!(failure(&err), "Database error: connection reset");
}

#[test]
fn a_customers_orders_are_those_of_the_customer_and_the_type() {
    let rows = vec![
        order("O1", "C1", "restaurant"),
        order("O2", "C2", "restaurant"),
        order("O3", "C1", "souvenir"),
        order("O4", "C1", "restaurant"),
    ];
    let handled = view_orders(ReadSource::Store(Ok(rows)), s("C1"), s("restaurant"));
    assert!(refreshes(&handled, "orders_C1_restaurant", 60));
    let ids: Vec<String> = data(handled).into_iter().map(|o| o.order_id).collect();
    assert_eq!(ids, vec![s("O1"), s("O4")]);
    assert_eq!(orders_key("C1", "restaurant"), "orders_C1_restaurant");

    let none = view_orders(ReadSource::Store(Ok(vec![order("O1", "C2", "x")])), s("C1"), s("x"));
    assert!(data(none).is_empty());
    let err = view_orders(ReadSource::Store(Err(s("down"))), s("C1"), s("x"));
    assert_eq!(failure(&err), "Failed to fetch orders: down");
}

fn create_order_request(item_type: &str) -> CreateOrderRequest {
    CreateOrderRequest {
        order_id: s("O1"),
        customer_id: s("C1"),
        item_type: s(item_type),
        item_id: s("M1"),
        date: s("2025-04-02"),
        quantity: 3,
        is_paid: true,
    }
}

#[test]
fn a_restaurant_order_starts_waiting_for_cooking() {
    let record = new_order(create_order_request("restaurant"));
    assert_eq!(record.status, Some(s("Waiting for Cooking")));
    assert_eq!(record.order_id, "O1");
    assert_eq!(record.customer_id, "C1");
    assert_eq!(record.item_id, "M1");
    assert_eq!(record.quantity, 3);
    assert!(record.is_paid);
    assert_eq!(new_order(create_order_request("souvenir")).status, None);
    assert_eq!(new_order(create_order_request("Restaurant")).status, None);
}

#[test]
fn order_writes_invalidate_the_list_of_orders() {
    let created = create_order(Ok(order("O1", "C1", "x")));
    assert!(invalidates_all(&created, &["get_all_orders_cache", "orders_C1_x"]));
    assert_eq!(data(created).order_id, "O1");
    assert_eq!(failure(&create_order(Err(s("dup")))), "Failed to create order: dup");
    let updated = order_updated(Ok(order("O1", "C9", "souvenir")));
    assert!(invalidates_all(&updated, &["get_all_orders_cache", "orders_C9_souvenir"]));
    assert_eq!(failure(&order_updated(Err(s("stale")))), "Failed to update order: stale");

    let request = DeleteOrderRequest { order_id: s("O1") };
    let seen = || Some(order("O1", "C1", "restaurant"));
    assert!(invalidates_all(
        &delete_order(&request, seen(), Ok(1)),
        &["get_all_orders_cache", "orders_C1_restaurant"]
    ));
    assert!(invalidates(&delete_order(&request, None, Ok(1)), "get_all_orders_cache"));
    let missing = delete_order(&request, seen(), Ok(0));
    assert!(untouched(&missing));
    assert_eq!(failure(&missing), "No order found with ID: O1");
    let locked = delete_order(&request, seen(), Err(s("locked")));
    assert!(untouched(&locked));
    assert_eq!(failure(&locked), "Failed to delete order: locked");
}

#[test]
fn order_updates_change_only_what_the_request_names() {
    let plan = update_order(
        Ok(Some(order("O1", "C1", "x"))),
        UpdateOrderRequest { order_id: s("O1"), quantity: Some(9), is_paid: None },
    );
    match plan {
        UpdatePlan::Write(record) => {
            assert_eq!(record.quantity, 9);
            assert!(!record.is_paid);
            assert_eq!(record.order_id, "O1");
        }
        _ => panic!("the order is written"),
    }
    let plan = checkout_order(
        Ok(Some(order("O1", "C1", "x"))),
        CheckoutOrderRequest { order_id: s("O1"), is_paid: Some(true) },
    );
    assert!(matches!(plan, UpdatePlan::Write(record) if record.is_paid && record.quantity == 2));
    let plan = checkout_order(
        Ok(Some(order("O1", "C1", "x"))),
        CheckoutOrderRequest { order_id: s("O1"), is_paid: None },
    );
    assert!(matches!(plan, UpdatePlan::Write(record) if !record.is_paid));
    let plan = update_order_status(
        Ok(Some(order("O1", "C1", "x"))),
        UpdateOrderStatusRequest { order_id: s("O1"), status: s("Cooking") },
    );
    assert!(matches!(plan, UpdatePlan::Write(record) if record.status == Some(s("Cooking"))));

    let plan = update_order(
        Ok(None),
        UpdateOrderRequest { order_id: s("O7"), quantity: None, is_paid: None },
    );
    match plan {
        UpdatePlan::Answer(handled) => assert_eq!(failure(&handled), "No order found with ID: O7"),
        _ => panic!("nothing is written"),
    }
    let plan = update_order_status(
        Err(s("down")),
        UpdateOrderStatusRequest { order_id: s("O7"), status: s("x") },
    );
    match plan {
        UpdatePlan::Answer(handled) => {
            assert_eq!(failure(&handled), "Database error while updating order: down")
        }
        _ => panic!("nothing is written"),
    }
}

fn place(id: &str, position: i32) -> QueueRecord {
    QueueRecord {
        queue_id: s(id),
        ride_id: s("R1"),
        customer_id: s("C1"),
        joined_at: s("10:00"),
        position,
    }
}

#[test]
fn queues_are_shown_from_cache_and_store() {
    let hit = view_all_queues(ReadSource::Cache(vec![place("Q1", 1)]));
    assert!(untouched(&hit));
    let shown = data(hit);
    assert_eq!(shown[0].queue_id, "Q1");
    assert_eq!(shown[0].position, 1);
    let miss = view_all_queues(ReadSource::Store(Ok(vec![place("Q1", 1), place("Q2", 2)])));
    assert!(refreshes(&miss, "get_all_queues_cache", 60));
    let shown = data(miss);
    assert_eq!(shown.len(), 2);
    assert_eq!(shown[1].queue_id, "Q2");
    assert_eq!(shown[1].ride_id, "R1");
    assert_eq!(shown[1].customer_id, "C1");
    assert_eq!(shown[1].joined_at, "10:00");
    assert_eq!(failure(&view_all_queues(ReadSource::Store(Err(s("x"))))), "Database error: x");

    let by_ride = get_queues_by_ride(Ok(vec![place("Q1", 1)]), "R1");
    assert!(untouched(&by_ride));
    assert_eq!(data(by_ride).len(), 1);
    assert_eq!(
        failure(&get_queues_by_ride(Err(s("down")), "R1")),
        "Failed to fetch queue for ride R1: down"
    );
}

#[test]
fn a_newcomer_queues_behind_the_last_position() {
    assert_eq!(next_position(None), Some(1));
    assert_eq!(next_position(Some(0)), Some(1));
    assert_eq!(next_position(Some(41)), Some(42));
    assert_eq!(next_position(Some(-3)), Some(-2));
    assert_eq!(next_position(Some(i32::MAX - 1)), Some(i32::MAX));
    assert_eq!(next_position(Some(i32::MAX)), None);

    let request = || CreateQueueRequest {
        queue_id: s("Q9"),
        ride_id: s("R1"),
        customer_id: s("C9"),
        joined_at: s("11:00"),
    };
    match create_queue(request(), Ok(Some(place("Q8", 8)))) {
        JoinPlan::Insert(record) => {
            assert_eq!(record.position, 9);
            assert_eq!(record.queue_id, "Q9");
            assert_eq!(record.ride_id, "R1");
            assert_eq!(record.customer_id, "C9");
            assert_eq!(record.joined_at, "11:00");
        }
        _ => panic!("the newcomer is inserted"),
    }
    assert!(matches!(create_queue(request(), Ok(None)), JoinPlan::Insert(r) if r.position == 1));
    assert!(matches!(
        create_queue(request(), Err(s("down"))),
        JoinPlan::Refuse(text) if text == "Database error: down"
    ));
    assert!(matches!(
        create_queue(request(), Ok(Some(place("Q8", i32::MAX)))),
        JoinPlan::Refuse(text) if text == "Queue is full"
    ));
}

#[test]
fn queue_writes_invalidate_the_list_of_queues() {
    assert!(invalidates(&queue_created(Ok(place("Q1", 1))), "get_all_queues_cache"));
    assert_eq!(failure(&queue_created(Err(s("dup")))), "Failed to create queue: dup");
    assert!(invalidates(&queue_updated(Ok(place("Q1", 1))), "get_all_queues_cache"));
    assert_eq!(refusal(&queue_updated(Err(s("stale")))), "Failed to update queue: stale");
    let request = DeleteQueueRequest { queue_id: s("Q1") };
    assert!(invalidates(&delete_queue(&request, Ok(2)), "get_all_queues_cache"));
    assert_eq!(failure(&delete_queue(&request, Ok(0))), "No queue found with ID: Q1");
    assert_eq!(failure(&delete_queue(&request, Err(s("x")))), "Failed to delete queue: x");

    let edit = EditQueueRequest { queue_id: s("Q1"), new_position: 5 };
    assert!(matches!(
        edit_queue(Ok(Some(place("Q1", 1))), &edit),
        UpdatePlan::Write(record) if record.position == 5 && record.queue_id == "Q1"
    ));
    match edit_queue(Ok(None), &edit) {
        UpdatePlan::Answer(handled) => assert_eq!(failure(&handled), "Queue entry not found"),
        _ => panic!("nothing is written"),
    }
    match edit_queue(Err(s("down")), &edit) {
        UpdatePlan::Answer(handled) => assert_eq!(refusal(&handled), "Database error: down"),
        _ => panic!("nothing is written"),
    }
}

fn lost_item(id: &str, image: &[u8]) -> LostItemRecord {
    LostItemRecord {
        item_id: s(id),
        name: s("Umbrella"),
        kind: s("accessory"),
        color: s("red"),
        location: s("Gate 2"),
        status: s("Found"),
        finder_id: Some(s("U1")),
        owner_id: None,
        image: image.to_vec(),
    }
}

#[test]
fn lost_items_show_their_picture_as_base64() {
    let response = lost_item_response(&lost_item("L1", b"hello"));
    assert_eq!(response.image, "aGVsbG8=");
    assert_eq!(response.item_id, "L1");
    assert_eq!(response.name, "Umbrella");
    assert_eq!(response.kind, "accessory");
    assert_eq!(response.color, "red");
    assert_eq!(response.location, "Gate 2");
    assert_eq!(response.status, "Found");
    assert_eq!(response.finder_id, Some(s("U1")));
    assert_eq!(response.owner_id, None);
    assert_eq!(lost_item_response(&lost_item("L2", b"")).image, "");
    assert_eq!(lost_item_response(&lost_item("L3", &[0xff, 0xfe, 0xfd])).image, "//79");
    assert_eq!(lost_item_response(&lost_item("L4", b"hi")).image, "aGk=");

    let miss = view_lost_and_found_items(ReadSource::Store(Ok(vec![lost_item("L1", b"a")])));
    assert!(refreshes(&miss.handled, "get_all_lost_and_found_items_cache", 60));
    let cached = miss.to_cache.unwrap();
    assert_eq!(cached.len(), 1);
    assert_eq!(cached[0].item_id, "L1");
    assert_eq!(cached[0].image, b"a".to_vec());
    assert_eq!(data(miss.handled)[0].image, "YQ==");
    let hit = view_lost_and_found_items(ReadSource::Cache(vec![lost_item("L1", b"a")]));
    assert!(untouched(&hit.handled));
    assert!(hit.to_cache.is_none());
    assert_eq!(data(hit.handled)[0].item_id, "L1");
    let err = view_lost_and_found_items(ReadSource::Store(Err(s("x"))));
    assert!(err.to_cache.is_none());
    assert_eq!(failure(&err.handled), "Database error: x");
}

#[test]
fn lost_item_writes_follow_the_request() {
    let record = new_lost_item(CreateLostItemRequest {
        item_id: s("L1"),
        name: s("Cap"),
        kind: s("clothing"),
        color: s("blue"),
        location: s("Ride 3"),
        status: s("Lost"),
        finder_id: None,
        owner_id: Some(s("C1")),
        image: vec![1, 2],
    });
    assert_eq!(record.item_id, "L1");
    assert_eq!(record.name, "Cap");
    assert_eq!(record.kind, "clothing");
    assert_eq!(record.owner_id, Some(s("C1")));
    assert_eq!(record.image, vec![1, 2]);

    let update = || UpdateLostItemRequest {
        item_id: s("L1"),
        name: s("Cap"),
        kind: s("clothing"),
        color: s("green"),
        location: s("Office"),
        status: s("Returned"),
        finder_id: Some(s("U2")),
        owner_id: Some(s("C1")),
        image: vec![9],
    };
    match update_lost_item(Ok(Some(lost_item("L1", b"old"))), update()) {
        UpdatePlan::Write(record) => {
            assert_eq!(record.item_id, "L1");
            assert_eq!(record.color, "green");
            assert_eq!(record.status, "Returned");
            assert_eq!(record.finder_id, Some(s("U2")));
            assert_eq!(record.image, vec![9]);
        }
        _ => panic!("the item is written"),
    }
    match update_lost_item(Ok(None), update()) {
        UpdatePlan::Answer(handled) => assert_eq!(failure(&handled), "No item found with ID: L1"),
        _ => panic!("nothing is written"),
    }
    match update_lost_item(Err(s("down")), update()) {
        UpdatePlan::Answer(handled) => {
            assert_eq!(failure(&handled), "Database error while updating item: down")
        }
        _ => panic!("nothing is written"),
    }
    assert!(invalidates(
        &create_lost_item(Ok(lost_item("L1", b""))),
        "get_all_lost_and_found_items_cache"
    ));
    assert_eq!(failure(&create_lost_item(Err(s("dup")))), "Failed to create item: dup");
    assert!(invalidates(
        &lost_item_updated(Ok(lost_item("L1", b""))),
        "get_all_lost_and_found_items_cache"
    ));
    assert_eq!(failure(&lost_item_updated(Err(s("x")))), "Failed to update item: x");
    let request = DeleteLostItemRequest { item_id: s("L1") };
    assert!(invalidates(&delete_lost_item(&request, Ok(1)), "get_all_lost_and_found_items_cache"));
    assert_eq!(failure(&delete_lost_item(&request, Ok(0))), "No item found with ID: L1");
    assert_eq!(failure(&delete_lost_item(&request, Err(s("x")))), "Failed to delete item: x");
}

fn restaurant(id: &str, image: &[u8]) -> RestaurantRecord {
    RestaurantRecord {
        restaurant_id: s(id),
        name: s("Galaxy Grill"),
        description: s("Burgers"),
        cuisine_type: s("American"),
        image: image.to_vec(),
        location: s("Zone A"),
        required_waiter: 4,
        required_chef: 2,
        operational_status: s("Open"),
        operational_start_hours: s("09:00"),
        operational_end_hours: s("21:00"),
    }
}

#[test]
fn restaurants_from_the_store_are_shown_with_their_pictures() {
    let rows = vec![restaurant("R1", b"hello"), restaurant("R2", b"")];
    let entries = restaurant_cache_entries(&rows);
    assert_eq!(entries.len(), 2);
    assert_eq!(entries[0].restaurant_id, "R1");
    assert_eq!(entries[0].name, "Galaxy Grill");
    assert_eq!(entries[0].required_waiter, 4);
    assert_eq!(entries[1].restaurant_id, "R2");
    let served = view_all_restaurants(ReadSource::Store(Ok(rows)));
    assert!(refreshes(&served.handled, "get_all_restaurants_cache", 60));
    let cached = served.to_cache.unwrap();
    assert_eq!(cached.len(), 2);
    assert_eq!(cached[0].restaurant_id, "R1");
    assert_eq!(cached[0].cuisine_type, "American");
    assert_eq!(cached[0].operational_end_hours, "21:00");
    assert_eq!(cached[1].restaurant_id, "R2");
    let shown = data(served.handled);
    assert_eq!(shown.len(), 2);
    assert_eq!(shown[0].restaurant_id, "R1");
    assert_eq!(shown[0].image, "aGVsbG8=");
    assert_eq!(shown[0].cuisine_type, "American");
    assert_eq!(shown[0].required_chef, 2);
    assert_eq!(shown[0].operational_start_hours, "09:00");
    assert_eq!(shown[0].operational_end_hours, "21:00");
    assert_eq!(shown[1].image, "");
    let err = view_all_restaurants(ReadSource::Store(Err(s("x"))));
    assert!(err.to_cache.is_none());
    assert!(untouched(&err.handled));
    assert_eq!(failure(&err.handled), "Database error: x");
}

#[test]
fn cached_restaurants_without_a_picture_in_the_store_are_left_out() {
    let mut entries = restaurant_cache_entries(&vec![
        restaurant("R1", b""),
        restaurant("R2", b""),
        restaurant("R3", b""),
    ]);
    let third = entries.pop().unwrap();
    let second = entries.pop().unwrap();
    let first = entries.pop().unwrap();
    let cached = vec![
        Pictured { entry: first, image: Some(b"hi".to_vec()) },
        Pictured { entry: second, image: None },
        Pictured { entry: third, image: Some(vec![]) },
    ];
    let served = view_all_restaurants(ReadSource::Cache(cached));
    assert!(untouched(&served.handled));
    assert!(served.to_cache.is_none());
    let shown = data(served.handled);
    assert_eq!(shown.len(), 2);
    assert_eq!(shown[0].restaurant_id, "R1");
    assert_eq!(shown[0].image, "aGk=");
    assert_eq!(shown[0].location, "Zone A");
    assert_eq!(shown[1].restaurant_id, "R3");
    assert_eq!(shown[1].image, "");
}

#[test]
fn restaurant_writes_follow_the_request() {
    let record = new_restaurant(CreateRestaurantRequest {
        restaurant_id: s("R1"),
        name: s("Nebula"),
        description: s("Noodles"),
        cuisine_type: s("Asian"),
        image: vec![7],
        location: s("Zone B"),
        required_waiter: 1,
        required_chef: 1,
        operational_status: s("Closed"),
        operational_start_hours: s("10:00"),
        operational_end_hours: s("20:00"),
    });
    assert_eq!(record.restaurant_id, "R1");
    assert_eq!(record.name, "Nebula");
    assert_eq!(record.image, vec![7]);
    let update = || UpdateRestaurantRequest {
        restaurant_id: s("R1"),
        name: s("Nebula II"),
        description: s("Noodles"),
        cuisine_type: s("Asian"),
        image: vec![8],
        location: s("Zone C"),
        required_waiter: 3,
        required_chef: 2,
        operational_status: s("Open"),
        operational_start_hours: s("10:00"),
        operational_end_hours: s("22:00"),
    };
    match update_restaurant(Ok(Some(restaurant("R1", b"old"))), update()) {
        UpdatePlan::Write(record) => {
            assert_eq!(record.restaurant_id, "R1");
            assert_eq!(record.name, "Nebula II");
            assert_eq!(record.location, "Zone C");
            assert_eq!(record.required_waiter, 3);
            assert_eq!(record.operational_end_hours, "22:00");
            assert_eq!(record.image, vec![8]);
        }
        _ => panic!("the restaurant is written"),
    }
    match update_restaurant(Ok(None), update()) {
        UpdatePlan::Answer(handled) => {
            assert_eq!(failure(&handled), "No restaurant found with ID: R1")
        }
        _ => panic!("nothing is written"),
    }
    match update_restaurant(Err(s("down")), update()) {
        UpdatePlan::Answer(handled) => {
            assert_eq!(failure(&handled), "Database error while updating restaurant: down")
        }
        _ => panic!("nothing is written"),
    }
    assert!(invalidates(&create_restaurant(Ok(restaurant("R1", b""))), "get_all_restaurants_cache"));
    assert_eq!(failure(&create_restaurant(Err(s("x")))), "Failed to create restaurant: x");
    assert!(invalidates(&restaurant_updated(Ok(restaurant("R1", b""))), "get_all_restaurants_cache"));
    assert_eq!(failure(&restaurant_updated(Err(s("x")))), "Failed to update restaurant: x");
    let request = DeleteRestaurantRequest { restaurant_id: s("R1") };
    assert!(invalidates(&delete_restaurant(&request, Ok(1)), "get_all_restaurants_cache"));
    assert_eq!(failure(&delete_restaurant(&request, Ok(0))), "No restaurant found with ID: R1");
    assert_eq!(failure(&delete_restaurant(&request, Err(s("x")))), "Failed to delete restaurant: x");
}

fn store(id: &str, image: &[u8]) -> StoreRecord {
    StoreRecord {
        store_id: s(id),
        sales_associate_id: s("U5"),
        name: s("Star Shop"),
        image: image.to_vec(),
        description: s("Gifts"),
        operational_status: s("Open"),
    }
}

#[test]
fn stores_are_shown_cached_and_written_like_restaurants() {
    let rows = vec![store("S1", b"hello")];
    let mut entries = store_cache_entries(&rows);
    assert_eq!(entries[0].store_id, "S1");
    assert_eq!(entries[0].sales_associate_id, "U5");
    let served = view_all_stores(ReadSource::Store(Ok(rows)));
    assert!(refreshes(&served.handled, "get_all_stores_cache", 60));
    let cached = served.to_cache.unwrap();
    assert_eq!(cached.len(), 1);
    assert_eq!(cached[0].store_id, "S1");
    assert_eq!(cached[0].name, "Star Shop");
    let shown = data(served.handled);
    assert_eq!(shown[0].image, "aGVsbG8=");
    assert_eq!(shown[0].name, "Star Shop");
    assert_eq!(shown[0].description, "Gifts");
    assert_eq!(shown[0].operational_status, "Open");
    let entry = entries.pop().unwrap();
    let hit = view_all_stores(ReadSource::Cache(vec![Pictured { entry, image: None }]));
    assert!(untouched(&hit.handled));
    assert!(hit.to_cache.is_none());
    assert!(data(hit.handled).is_empty());
    assert_eq!(
        failure(&view_all_stores(ReadSource::Store(Err(s("x")))).handled),
        "Database error: x"
    );

    let record = new_store(CreateStoreRequest {
        store_id: s("S2"),
        sales_associate_id: s("U6"),
        name: s("Comet"),
        image: vec![1],
        description: s("Toys"),
        operational_status: s("Closed"),
    });
    assert_eq!(record.store_id, "S2");
    assert_eq!(record.sales_associate_id, "U6");
    let update = || UpdateStoreRequest {
        store_id: s("S1"),
        sales_associate_id: s("U9"),
        name: s("Star Shop"),
        image: vec![2],
        description: s("Gifts and toys"),
        operational_status: s("Open"),
    };
    match update_store(Ok(Some(store("S1", b"old"))), update()) {
        UpdatePlan::Write(record) => {
            assert_eq!(record.store_id, "S1");
            assert_eq!(record.sales_associate_id, "U9");
            assert_eq!(record.description, "Gifts and toys");
            assert_eq!(record.image, vec![2]);
        }
        _ => panic!("the store is written"),
    }
    match update_store(Ok(None), update()) {
        UpdatePlan::Answer(handled) => assert_eq!(failure(&handled), "No store found with ID: S1"),
        _ => panic!("nothing is written"),
    }
    assert!(invalidates(&create_store(Ok(store("S1", b""))), "get_all_stores_cache"));
    assert_eq!(failure(&create_store(Err(s("x")))), "Failed to create store: x");
    assert!(invalidates(&store_updated(Ok(store("S1", b""))), "get_all_stores_cache"));
    assert_eq!(failure(&store_updated(Err(s("x")))), "Failed to update store: x");
    let request = DeleteStoreRequest { store_id: s("S1") };
    assert!(invalidates(&delete_store(&request, Ok(1)), "get_all_stores_cache"));
    assert_eq!(failure(&delete_store(&request, Ok(0))), "No store found with ID: S1");
    assert_eq!(failure(&delete_store(&request, Err(s("x")))), "Failed to delete store: x");
}

fn notification(id: &str, is_read: bool) -> NotificationRecord {
    NotificationRecord {
        notification_id: s(id),
        recipient_id: s("U1"),
        title: s("Ride closed"),
        message: s("Vortex is closed today"),
        date: s("2025-04-02"),
        is_read,
        kind: s("info"),
    }
}

#[test]
fn notifications_are_cached_for_ten_minutes_under_the_users_key() {
    assert_eq!(notifications_key("U1"), "notifications_U1");
    let miss = view_notification(ReadSource::Store(Ok(vec![notification("N1", false)])), "U1");
    assert!(refreshes(&miss.handled, "notifications_U1", 600));
    let cached = miss.to_cache.unwrap();
    assert_eq!(cached.len(), 1);
    assert_eq!(cached[0].notification_id, "N1");
    assert_eq!(cached[0].recipient_id, "U1");
    let shown = data(miss.handled);
    assert_eq!(shown[0].notification_id, "N1");
    assert_eq!(shown[0].title, "Ride closed");
    assert_eq!(shown[0].message, "Vortex is closed today");
    assert_eq!(shown[0].date, "2025-04-02");
    assert!(!shown[0].is_read);
    assert_eq!(shown[0].kind, "info");
    let hit = get_notifications(ReadSource::Cache(vec![notification("N2", true)]), "U1");
    assert!(untouched(&hit.handled));
    assert!(hit.to_cache.is_none());
    assert!(data(hit.handled)[0].is_read);
    assert_eq!(
        failure(&view_notification(ReadSource::Store(Err(s("x"))), "U1").handled),
        "Failed to fetch notifications: x"
    );
}

#[test]
fn marking_as_read_marks_every_notification_and_keeps_their_order() {
    let plan = mark_all_notifications_read(Ok(vec![
        notification("N1", false),
        notification("N2", true),
        notification("N3", false),
    ]));
    match plan {
        MarkPlan::Write(marked) => {
            let ids: Vec<&str> = marked.iter().map(|n| n.notification_id.as_str()).collect();
            assert_eq!(ids, vec!["N1", "N2", "N3"]);
            assert!(marked.iter().all(|n| n.is_read));
            assert_eq!(marked[0].title, "Ride closed");
            assert_eq!(marked[0].recipient_id, "U1");
        }
        _ => panic!("the notifications are written"),
    }
    assert!(matches!(mark_all_notifications_read(Ok(vec![])), MarkPlan::Write(m) if m.is_empty()));
    match mark_all_notifications_read(Err(s("down"))) {
        MarkPlan::Answer(handled) => {
            assert_eq!(failure(&handled), "Failed to fetch notifications: down")
        }
        _ => panic!("nothing is written"),
    }
    let all = notifications_marked("U1", 3, None);
    assert!(invalidates(&all, "notifications_U1"));
    data(all);
    let none = notifications_marked("U1", 0, None);
    assert!(untouched(&none));
    data(none);
    let partly = notifications_marked("U1", 2, Some(s("locked")));
    assert!(invalidates(&partly, "notifications_U1"));
    assert_eq!(failure(&partly), "Failed to mark notifications as read: locked");
    let at_once = notifications_marked("U1", 0, Some(s("locked")));
    assert!(untouched(&at_once));
    assert_eq!(failure(&at_once), "Failed to mark notifications as read: locked");
}

fn maintenance_payload() -> CreateMaintenanceRequest {
    CreateMaintenanceRequest {
        maintenance_id: s("M1"),
        ride_id: s("R1"),
        kind: s("repair"),
        issue: s("Brake noise"),
        sender_id: s("U3"),
    }
}

#[test]
fn a_new_maintenance_request_is_pending_and_unassigned() {
    let record = new_maintenance_request(maintenance_payload(), s("2025-04-02 10:00:00"));
    assert_eq!(record.maintenance_id, "M1");
    assert_eq!(record.ride_id, "R1");
    assert_eq!(record.kind, "repair");
    assert_eq!(record.issue, "Brake noise");
    assert_eq!(record.date, "2025-04-02 10:00:00");
    assert_eq!(record.status, "Pending");
    assert_eq!(record.maintenance_staff_id, None);
    assert_eq!(record.sender_id, "U3");

    let now = create_maintenance_request(maintenance_payload());
    assert_eq!(now.status, "Pending");
    assert_eq!(now.maintenance_id, "M1");
    assert!(chrono::NaiveDateTime::parse_from_str(&now.date, "%Y-%m-%d %H:%M:%S").is_ok());
}

#[test]
fn maintenance_reads_and_writes_turn_the_request_down_on_failure() {
    let record = || MaintenanceRecord {
        maintenance_id: s("M1"),
        ride_id: s("R1"),
        kind: s("repair"),
        issue: s("Brake noise"),
        date: s("d"),
        status: s("Pending"),
        maintenance_staff_id: Some(s("U8")),
        sender_id: s("U3"),
    };
    let miss = view_all_maintenance(ReadSource::Store(Ok(vec![record()])));
    assert!(refreshes(&miss, "all_maintenance_cache", 60));
    let shown = data(miss);
    assert_eq!(shown[0].maintenance_id, "M1");
    assert_eq!(shown[0].kind, "repair");
    assert_eq!(shown[0].issue, "Brake noise");
    assert_eq!(shown[0].maintenance_staff_id, Some(s("U8")));
    assert_eq!(shown[0].sender_id, "U3");
    let hit = view_all_maintenance(ReadSource::Cache(Vec::<MaintenanceResponse>::new()));
    assert!(untouched(&hit));
    assert!(data(hit).is_empty());
    let err = view_all_maintenance(ReadSource::Store(Err(s("down"))));
    assert!(untouched(&err));
    assert_eq!(refusal(&err), "Failed to retrieve maintenance data: down");

    assert!(invalidates(&maintenance_request_created(Ok(record())), "all_maintenance_cache"));
    assert_eq!(
        refusal(&maintenance_request_created(Err(s("dup")))),
        "Failed to create maintenance request: dup"
    );
}

fn user(id: &str, role: &str, password: Option<&str>) -> UserRecord {
    UserRecord {
        user_id: s(id),
        name: s("Ayu"),
        email: s("ayu@example.com"),
        role: s(role),
        password: password.map(s),
        status: Some(s("Idle")),
        restaurant_id: None,
    }
}

#[test]
fn staff_logins_need_a_staff_role_and_the_right_password() {
    let granted = staff_login(Ok(Some(user("U1", "Chef", Some("pw")))), "U1", "pw");
    assert!(refreshes(&granted, "user_U1", 3600));
    assert_eq!(data(granted).user_id, "U1");
    let customer = staff_login(Ok(Some(user("C1", "Customer", Some("pw")))), "C1", "pw");
    assert!(untouched(&customer));
    assert_eq!(failure(&customer), "User is not authorized as staff");
    assert_eq!(
        failure(&staff_login(Ok(Some(user("U1", "Chef", Some("pw")))), "U1", "PW")),
        "Invalid password"
    );
    assert_eq!(
        failure(&staff_login(Ok(Some(user("U1", "Chef", Some("pw")))), "U1", "")),
        "Invalid password"
    );
    assert_eq!(
        failure(&staff_login(Ok(Some(user("U1", "Chef", None))), "U1", "pw")),
        "Password is required for staff login"
    );
    assert_eq!(failure(&staff_login(Ok(None), "U1", "pw")), "User not found");
    assert_eq!(failure(&staff_login(Err(s("down")), "U1", "pw")), "Database error: down");
}

#[test]
fn accounts_are_cached_for_an_hour_under_the_users_key() {
    assert_eq!(user_key("U1"), "user_U1");
    assert_eq!(user_lite_key("U1"), "user_lite_U1");
    let hit = login_user(ReadSource::Cache(12.5f64), "U1");
    assert!(untouched(&hit));
    assert_eq!(data(hit), 12.5);
    let miss = login_user(ReadSource::Store(Ok(Some(3.0f64))), "U1");
    assert!(refreshes(&miss, "user_U1", 3600));
    assert_eq!(failure(&login_user::<f64>(ReadSource::Store(Ok(None)), "U1")), "User not found");
    assert_eq!(
        failure(&get_balance::<f64>(ReadSource::Store(Err(s("x"))), "U1")),
        "Database error: x"
    );
    assert!(refreshes(&get_balance(ReadSource::Store(Ok(Some(1u8))), "U2"), "user_U2", 3600));

    assert!(matches!(top_up_balance(Ok(Some(5u8))), UpdatePlan::Write(5)));
    match top_up_balance::<u8>(Ok(None)) {
        UpdatePlan::Answer(handled) => assert_eq!(failure(&handled), "User not found"),
        _ => panic!("nothing is written"),
    }
    match top_up_balance::<u8>(Err(s("x"))) {
        UpdatePlan::Answer(handled) => assert_eq!(failure(&handled), "Database error: x"),
        _ => panic!("nothing is written"),
    }
    assert!(invalidates_all(&balance_topped_up(Ok(7u8), "U1"), &["user_U1", "user_lite_U1"]));
    assert_eq!(failure(&balance_topped_up::<u8>(Err(s("x")), "U1")), "Failed to top up: x");
    assert_eq!(customer_role(), "Customer");
    assert!(untouched(&create_customer(Ok(1u8))));
    assert_eq!(failure(&create_customer::<u8>(Err(s("dup")))), "Failed to create customer: dup");
    assert!(untouched(&get_all_users(Ok(vec![1u8]))));
    assert_eq!(failure(&get_all_users::<u8>(Err(s("x")))), "Database error: x");
}

#[test]
fn users_are_shown_in_brief() {
    let rows = || vec![user("U1", "Chef", None), user("U2", "Ride Staff", None)];
    let lite = data(get_all_users_lite(Ok(rows())));
    assert_eq!(lite.len(), 2);
    assert_eq!(lite[0].user_id, "U1");
    assert_eq!(lite[0].name, "Ayu");
    assert_eq!(lite[1].role, "Ride Staff");
    assert_eq!(failure(&get_all_users_lite(Err(s("x")))), "Database error: x");
    let staff = data(get_all_ride_staff(Ok(rows())));
    assert_eq!(staff[1].user_id, "U2");
    assert_eq!(staff[1].status, Some(s("Idle")));
    assert_eq!(failure(&get_all_ride_staff(Err(s("x")))), "Database error: x");

    let hit = get_user_lite_by_id(ReadSource::Cache(user("U1", "Chef", None)), "U1");
    assert!(untouched(&hit));
    assert_eq!(data(hit).role, "Chef");
    let miss = get_user_lite_by_id(ReadSource::Store(Ok(Some(user("U1", "Chef", None)))), "U1");
    assert!(refreshes(&miss, "user_lite_U1", 3600));
    assert_eq!(data(miss).user_id, "U1");
    assert_eq!(failure(&get_user_lite_by_id(ReadSource::Store(Ok(None)), "U1")), "User not found");
    assert_eq!(
        failure(&get_user_lite_by_id(ReadSource::Store(Err(s("x"))), "U1")),
        "Database error: x"
    );
}

#[test]
fn staff_are_assigned_to_restaurants_and_rides() {
    let request = || AssignRestaurantStaffRequest { staff_id: s("U1"), restaurant_id: Some(s("R1")) };
    assert!(matches!(
        assign_restaurant_staff(Ok(Some(user("U1", "Chef", None))), request()),
        UpdatePlan::Write(record) if record.restaurant_id == Some(s("R1")) && record.user_id == "U1"
    ));
    let removal = AssignRestaurantStaffRequest { staff_id: s("U1"), restaurant_id: None };
    assert!(matches!(
        assign_restaurant_staff(Ok(Some(user("U1", "Chef", None))), removal),
        UpdatePlan::Write(record) if record.restaurant_id.is_none()
    ));
    match assign_restaurant_staff(Ok(None), request()) {
        UpdatePlan::Answer(handled) => {
            assert_eq!(failure(&handled), "Staff dengan ID U1 tidak ditemukan")
        }
        _ => panic!("nothing is written"),
    }
    match assign_restaurant_staff(Err(s("down")), request()) {
        UpdatePlan::Answer(handled) => assert_eq!(failure(&handled), "Kesalahan database: down"),
        _ => panic!("nothing is written"),
    }
    assert!(invalidates_all(
        &restaurant_staff_assigned(Ok(()), "U1"),
        &["user_U1", "user_lite_U1"]
    ));
    let failed_write = restaurant_staff_assigned(Err(s("x")), "U1");
    assert!(untouched(&failed_write));
    assert_eq!(failure(&failed_write), "Gagal memperbarui staff: x");

    match assign_ride_staff::<u8>(Ok(Some(user("U2", "Ride Staff", None)))) {
        StaffCheck::Proceed(working) => {
            assert_eq!(working.status, Some(s("Working")));
            assert_eq!(working.user_id, "U2");
            assert_eq!(working.role, "Ride Staff");
        }
        _ => panic!("the member goes on"),
    }
    match assign_ride_staff::<u8>(Ok(None)) {
        StaffCheck::Answer(handled) => {
            assert_eq!(failure(&handled), "Staff ID tidak valid atau bukan Ride Staff")
        }
        _ => panic!("no member, no assignment"),
    }
    match assign_ride_staff::<u8>(Err(s("down"))) {
        StaffCheck::Answer(handled) => assert_eq!(refusal(&handled), "down"),
        _ => panic!("no member, no assignment"),
    }
    let payload = AssignRideStaffRequest { ride_id: s("R9"), staff_id: s("U2") };
    assert!(matches!(ride_for_staff(Ok(Some(4u8)), &payload), UpdatePlan::Write(4)));
    match ride_for_staff::<u8>(Ok(None), &payload) {
        UpdatePlan::Answer(handled) => assert_eq!(failure(&handled), "Ride ID R9 tidak ditemukan"),
        _ => panic!("nothing is written"),
    }
    match ride_for_staff::<u8>(Err(s("down")), &payload) {
        UpdatePlan::Answer(handled) => assert_eq!(refusal(&handled), "down"),
        _ => panic!("nothing is written"),
    }
    assert!(invalidates_all(
        &ride_staff_assigned(Ok(1u8), Ok(()), &payload),
        &["get_all_rides_cache", "ride_R9", "user_U2", "user_lite_U2"]
    ));
    let half = ride_staff_assigned(Ok(1u8), Err(s("member")), &payload);
    assert!(invalidates_all(&half, &["get_all_rides_cache", "ride_R9"]));
    assert_eq!(refusal(&half), "member");
    let none = ride_staff_assigned::<u8>(Err(s("ride")), Ok(()), &payload);
    assert!(untouched(&none));
    assert_eq!(refusal(&none), "ride");
}

#[test]
fn menus_rides_souvenirs_and_proposals_follow_the_same_rules() {
    assert!(refreshes(&view_all_menus(ReadSource::Store(Ok(1u8))), "get_all_menus_cache", 60));
    assert!(untouched(&view_all_menus(ReadSource::Cache(1u8))));
    assert_eq!(
        failure(&view_all_menus::<u8>(ReadSource::Store(Err(s("x"))))),
        "Database error: x"
    );
    assert!(refreshes(&view_menu(ReadSource::Store(Ok(Some(1u8))), "M1"), "menu_M1", 60));
    assert_eq!(failure(&view_menu::<u8>(ReadSource::Store(Ok(None)), "M1")), "Menu not found");
    assert!(invalidates(&create_menu(Ok(1u8)), "get_all_menus_cache"));
    assert_eq!(failure(&create_menu::<u8>(Err(s("x")))), "Failed to create menu: x");
    assert!(matches!(update_menu(Ok(Some(1u8)), "M1"), UpdatePlan::Write(1)));
    match update_menu::<u8>(Ok(None), "M1") {
        UpdatePlan::Answer(handled) => assert_eq!(failure(&handled), "No menu found with ID: M1"),
        _ => panic!("nothing is written"),
    }
    match update_menu::<u8>(Err(s("x")), "M1") {
        UpdatePlan::Answer(handled) => {
            assert_eq!(failure(&handled), "Database error while updating menu: x")
        }
        _ => panic!("nothing is written"),
    }
    assert!(invalidates_all(&menu_updated(Ok(1u8), "M1"), &["get_all_menus_cache", "menu_M1"]));
    let stale = menu_updated::<u8>(Err(s("x")), "M1");
    assert!(untouched(&stale));
    assert_eq!(failure(&stale), "Failed to update menu: x");
    let menu = DeleteMenuRequest { menu_id: s("M1") };
    assert!(invalidates_all(&delete_menu(&menu, Ok(1)), &["get_all_menus_cache", "menu_M1"]));
    assert!(untouched(&delete_menu(&menu, Ok(0))));
    assert_eq!(failure(&delete_menu(&menu, Ok(0))), "No menu found with ID: M1");
    assert_eq!(failure(&delete_menu(&menu, Err(s("x")))), "Failed to delete menu: x");

    assert!(refreshes(&view_all_rides(ReadSource::Store(Ok(1u8))), "get_all_rides_cache", 60));
    assert_eq!(refusal(&view_all_rides::<u8>(ReadSource::Store(Err(s("x"))))), "x");
    assert!(refreshes(&view_ride(ReadSource::Store(Ok(Some(1u8))), "R1"), "ride_R1", 60));
    assert_eq!(failure(&view_ride::<u8>(ReadSource::Store(Ok(None)), "R1")), "ride not found");
    assert!(invalidates(&create_ride(Ok(1u8)), "get_all_rides_cache"));
    assert_eq!(failure(&create_ride::<u8>(Err(s("x")))), "Failed to create ride: x");
    match update_ride::<u8>(Ok(None), "R1") {
        UpdatePlan::Answer(handled) => assert_eq!(failure(&handled), "No ride found with ID: R1"),
        _ => panic!("nothing is written"),
    }
    match update_ride::<u8>(Err(s("x")), "R1") {
        UpdatePlan::Answer(handled) => {
            assert_eq!(failure(&handled), "Database error while updating ride: x")
        }
        _ => panic!("nothing is written"),
    }
    assert!(invalidates_all(&ride_updated(Ok(1u8), "R1"), &["get_all_rides_cache", "ride_R1"]));
    let stale = ride_updated::<u8>(Err(s("x")), "R1");
    assert!(untouched(&stale));
    assert_eq!(failure(&stale), "Failed to update ride: x");
    let ride = DeleteRideRequest { ride_id: s("R1") };
    assert!(invalidates_all(&delete_ride(&ride, Ok(1)), &["get_all_rides_cache", "ride_R1"]));
    assert!(untouched(&delete_ride(&ride, Ok(0))));
    assert_eq!(failure(&delete_ride(&ride, Ok(0))), "No ride found with ID: R1");
    assert_eq!(failure(&delete_ride(&ride, Err(s("x")))), "Failed to delete ride: x");

    assert!(refreshes(
        &view_all_souvenirs(ReadSource::Store(Ok(1u8))),
        "get_all_souvenirs_cache",
        60
    ));
    assert!(refreshes(&view_souvenir(ReadSource::Store(Ok(Some(1u8))), "S1"), "souvenir_S1", 60));
    assert_eq!(
        failure(&view_souvenir::<u8>(ReadSource::Store(Ok(None)), "S1")),
        "Souvenir not found"
    );

    assert!(refreshes(&view_all_proposal(ReadSource::Store(Ok(1u8))), "all_proposals_cache", 60));
    assert_eq!(
        refusal(&view_all_proposal::<u8>(ReadSource::Store(Err(s("x"))))),
        "Failed to retrieve proposals: x"
    );
    let stamp = create_proposal();
    assert_eq!(stamp.status, "Pending");
    assert!(chrono::NaiveDate::parse_from_str(&stamp.date, "%B %d, %Y").is_ok());
    assert!(invalidates(&proposal_created(Ok(1u8)), "all_proposals_cache"));
    assert_eq!(refusal(&proposal_created::<u8>(Err(s("x")))), "Failed to create proposal: x");
}

#[test]
fn pictures_are_shown_as_base64_with_padding() {
    assert_eq!(picture_text(&vec![]), "");
    assert_eq!(picture_text(&b"f".to_vec()), "Zg==");
    assert_eq!(picture_text(&b"fo".to_vec()), "Zm8=");
    assert_eq!(picture_text(&b"foo".to_vec()), "Zm9v");
    assert_eq!(picture_text(&b"foobar".to_vec()), "Zm9vYmFy");
    assert_eq!(picture_text(&vec![0xfb, 0xff]), "+/8=");
}

#[test]
fn cached_records_whose_picture_is_gone_are_left_out() {
    let cached = vec![
        Pictured { entry: 2.5f64, image: Some(b"foo".to_vec()) },
        Pictured { entry: 3.5f64, image: None },
        Pictured { entry: 4.5f64, image: Some(vec![]) },
        Pictured { entry: 5.5f64, image: None },
    ];
    let shown = show_pictured(cached);
    assert_eq!(shown.len(), 2);
    assert_eq!(shown[0].entry, 2.5);
    assert_eq!(shown[0].image, "Zm9v");
    assert_eq!(shown[1].entry, 4.5);
    assert_eq!(shown[1].image, "");
    assert!(show_pictured(Vec::<Pictured<u8>>::new()).is_empty());
    assert!(show_pictured(vec![Pictured { entry: 1u8, image: None }]).is_empty());
}

#[test]
fn a_cached_venue_is_shown_with_the_picture_it_was_given() {
    let mut entries = restaurant_cache_entries(&vec![restaurant("R1", b"")]);
    let shown = show_pictured(vec![Pictured { entry: entries.pop().unwrap(), image: Some(b"fo".to_vec()) }]);
    let response = cached_restaurant_response(&shown[0]);
    assert_eq!(response.restaurant_id, "R1");
    assert_eq!(response.name, "Galaxy Grill");
    assert_eq!(response.description, "Burgers");
    assert_eq!(response.cuisine_type, "American");
    assert_eq!(response.required_waiter, 4);
    assert_eq!(response.image, "Zm8=");

    let mut entries = store_cache_entries(&vec![store("S1", b"")]);
    let shown = show_pictured(vec![Pictured { entry: entries.pop().unwrap(), image: Some(vec![]) }]);
    let response = cached_store_response(&shown[0]);
    assert_eq!(response.store_id, "S1");
    assert_eq!(response.sales_associate_id, "U5");
    assert_eq!(response.image, "");
}

#[test]
fn a_write_invalidates_every_key_it_is_given() {
    assert_eq!(one_key("a"), vec![s("a")]);
    assert_eq!(two_keys("a", "b"), vec![s("a"), s("b")]);
    let both = written_all(1u8, two_keys("list", "item_1"));
    assert!(invalidates_all(&both, &["list", "item_1"]));
    assert_eq!(data(both), 1);
    assert!(invalidates_all(&saved_all(Ok(1u8), two_keys("a", "b"), "no: "), &["a", "b"]));
    let failed_save = saved_all::<u8>(Err(s("x")), two_keys("a", "b"), "no: ");
    assert!(untouched(&failed_save));
    assert_eq!(failure(&failed_save), "no: x");
    assert!(invalidates_all(
        &removed_all(Ok(2), "ID", two_keys("a", "b"), "missing ", "failed "),
        &["a", "b"]
    ));
    let none = removed_all(Ok(0), "ID", two_keys("a", "b"), "missing ", "failed ");
    assert!(untouched(&none));
    assert_eq!(failure(&none), "missing ID");
    let err = removed_all(Err(s("x")), "ID", two_keys("a", "b"), "missing ", "failed ");
    assert!(untouched(&err));
    assert_eq!(failure(&err), "failed x");
}

#[test]
fn records_are_cached_under_keys_of_their_own() {
    assert_eq!(vortekia::catalog::menu_key("M1"), "menu_M1");
    assert_eq!(vortekia::catalog::ride_key("R1"), "ride_R1");
    assert_eq!(vortekia::catalog::souvenir_key("S1"), "souvenir_S1");
    assert_eq!(vortekia::catalog::menu_keys("M1"), vec![s("get_all_menus_cache"), s("menu_M1")]);
    assert_eq!(vortekia::catalog::ride_keys("R1"), vec![s("get_all_rides_cache"), s("ride_R1")]);
    assert_eq!(
        vortekia::orders::order_keys(&order("O1", "C1", "restaurant")),
        vec![s("get_all_orders_cache"), s("orders_C1_restaurant")]
    );
    assert_eq!(vortekia::users::user_keys("U1"), vec![s("user_U1"), s("user_lite_U1")]);
}
