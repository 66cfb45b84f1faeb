//! Chat rooms: where a room's messages live in the remote document store,
//! how a subscription to a room is started, and what a message that is sent
//! to a room looks like.

use vstd::prelude::*;
use vstd::string::*;
use tokio::task::JoinHandle;
use crate::outside::{random_uuid_text, utc_now_rfc3339};
use crate::registry::{after_stop, refuses, ListenerRegistry, StartError};
use crate::text::{join2, last_segment, last_segment_of};

verus! {

/// A staff group.
#[derive(Debug)]
pub struct GroupInfo {
    pub name: String,
    pub members: Vec<String>,
}

/// A message of a staff group's room.
#[derive(Debug)]
pub struct GroupChatMessage {
    pub message_id: String,
    pub sender_id: String,
    pub content: String,
    pub timestamp: String,
    pub status: String,
    pub kind: String,
}

/// A message of a customer's room with the maintenance division.
#[derive(Debug)]
pub struct OfficialChatMessage {
    pub message_id: String,
    pub sender_id: String,
    pub content: String,
    pub timestamp: String,
    pub status: String,
    pub message_type: String,
}

/// A customer who has a room with the maintenance division.
#[derive(Debug)]
pub struct CustomerInfo {
    pub id: String,
    pub name: String,
    pub email: Option<String>,
    pub avatar: Option<String>,
}

/// Whom a broadcast goes to.
#[derive(Debug)]
pub struct BroadcastRecipients {
    pub all_customers: bool,
    pub customer_departments: Vec<String>,
    pub all_staff: bool,
    pub staff_departments: Vec<String>,
}

/// A broadcast: its text and its recipients.
#[derive(Debug)]
pub struct BroadcastPayload {
    pub content: String,
    pub recipients: BroadcastRecipients,
}

/// The kinds of room.
#[derive(Clone, Copy, Debug, PartialEq, Eq, Structural)]
pub enum ChatChannel {
    /// The room of a staff group.
    Group,
    /// The room of a customer with the maintenance division.
    Maintenance,
    /// The room of a customer with customer service.
    CustomerService,
}

/// The collection that holds the rooms of a channel.
pub open spec fn collection_of(channel: ChatChannel) -> Seq<char> {
    match channel {
        ChatChannel::Group => "groups"@,
        ChatChannel::Maintenance => "official_chat_maintenance_division"@,
        ChatChannel::CustomerService => "official_chat_customer_service"@,
    }
}

/// The name under which a channel's messages reach the user interface.
pub open spec fn event_name_of(channel: ChatChannel) -> Seq<char> {
    match channel {
        ChatChannel::Group => "firestore-message-update"@,
        ChatChannel::Maintenance => "firestore-maintenance-chat-update"@,
        ChatChannel::CustomerService => "firestore-customer-service-chat-update"@,
    }
}

/// The number a channel's listen target is registered under.
pub open spec fn target_id_of(channel: ChatChannel) -> u32 {
    match channel {
        ChatChannel::Group => 99,
        ChatChannel::Maintenance => 101,
        ChatChannel::CustomerService => 100,
    }
}

impl ChatChannel {
    /// The collection that holds the channel's rooms.
    pub fn collection(&self) -> (name: &'static str)
        ensures
            name@ == collection_of(*self),
    {
        match self {
            ChatChannel::Group => "groups",
            ChatChannel::Maintenance => "official_chat_maintenance_division",
            ChatChannel::CustomerService => "official_chat_customer_service",
        }
    }

    /// The name under which the channel's messages reach the user interface.
    pub fn event_name(&self) -> (name: &'static str)
        ensures
            name@ == event_name_of(*self),
    {
        match self {
            ChatChannel::Group => "firestore-message-update",
            ChatChannel::Maintenance => "firestore-maintenance-chat-update",
            ChatChannel::CustomerService => "firestore-customer-service-chat-update",
        }
    }

    /// The number the channel's listen target is registered under.
    pub fn target_id(&self) -> (id: u32)
        ensures
            id == target_id_of(*self),
    {
        match self {
            ChatChannel::Group => 99,
            ChatChannel::Maintenance => 101,
            ChatChannel::CustomerService => 100,
        }
    }
}

/// What a worker is to listen to: the messages below one room.
pub struct ListenTarget {
    /// The number of the worker that is launched for this target: what the
    /// worker names itself by when it reports that it has left.
    pub worker: u64,
    pub channel: ChatChannel,
    pub collection: String,
    pub room_id: String,
    pub messages: String,
    pub target_id: u32,
    pub event_name: String,
}

/// Whether `target` is the listen target of `room` in `channel` for the
/// worker numbered `worker`.
pub open spec fn is_target_of(
    target: ListenTarget,
    channel: ChatChannel,
    room: Seq<char>,
    worker: int,
) -> bool {
    &&& target.worker == worker
    &&& target.channel == channel
    &&& target.collection@ == collection_of(channel)
    &&& target.room_id@ == room
    &&& target.messages@ == "messages"@
    &&& target.target_id == target_id_of(channel)
    &&& target.event_name@ == event_name_of(channel)
}

/// The listen target of `room_id` in `channel` for the worker numbered
/// `worker`.
pub fn listen_target(channel: ChatChannel, room_id: &str, worker: u64) -> (target: ListenTarget)
    ensures
        is_target_of(target, channel, room_id@, worker as int),
{
    ListenTarget {
        worker,
        channel,
        collection: String::from_str(channel.collection()),
        room_id: String::from_str(room_id),
        messages: String::from_str("messages"),
        target_id: channel.target_id(),
        event_name: String::from_str(channel.event_name()),
    }
}

/// What the caller of a start is told when it fails.
pub open spec fn start_failure_text(error: StartError) -> Seq<char> {
    match error {
        StartError::Connection(reason) => reason@,
        StartError::Halted => "Realtime updates are halted"@,
    }
}

/// The text a failed start is reported with.
pub fn describe_start_error(error: StartError) -> (text: String)
    ensures
        text@ == start_failure_text(error),
        error matches StartError::Connection(reason) ==> text == reason,
{
    match error {
        StartError::Connection(reason) => reason,
        StartError::Halted => String::from_str("Realtime updates are halted"),
    }
}

/// Whether `res` is a failure reported with `text`.
pub open spec fn fails_with(res: Result<(), String>, text: Seq<char>) -> bool {
    res is Err && res->Err_0@ == text
}

/// What opening a request to listen to `room` in `channel` leaves behind and
/// returns.
///
/// Without a document store the registry is as before and the request fails;
/// a registry that refuses is as before too. Otherwise whatever held the slot
/// is retired, which is to say that the runtime was asked to cancel its
/// worker, the slot is empty, and the caller gets the listen target of the
/// room, for the worker with the number that is next.
pub open spec fn listening_begun(
    before: ListenerRegistry,
    after: ListenerRegistry,
    channel: ChatChannel,
    store_ready: bool,
    room: Seq<char>,
    res: Result<ListenTarget, String>,
) -> bool {
    if !store_ready {
        &&& after@ == before@
        &&& after.active_handle() == before.active_handle()
        &&& after.aborted_last() == before.aborted_last()
        &&& res is Err
        &&& res->Err_0@ == "Firestore instance not initialized"@
    } else if refuses(before@) {
        &&& after@ == before@
        &&& after.active_handle() == before.active_handle()
        &&& after.aborted_last() == before.aborted_last()
        &&& res is Err
        &&& res->Err_0@ == start_failure_text(StartError::Halted)
    } else {
        &&& after@ == after_stop(before@)
        &&& after.active_handle() is None
        &&& after.aborted_last() == before.aborted_after_retiring()
        &&& res is Ok
        &&& is_target_of(res->Ok_0, channel, room, before@.workers.len() as int)
    }
}

/// Opens a request to listen to a room of `channel`: whatever holds the slot
/// is retired, and the caller gets the room's listen target to connect to.
///
/// Without a document store (`store_ready` is false) nothing is touched and
/// the request fails; a registry that starts nothing any more refuses it. The
/// caller is to connect, launch the worker and hand the outcome to
/// [`finish_listening`].
pub fn begin_listening(
    registry: &mut ListenerRegistry,
    channel: ChatChannel,
    store_ready: bool,
    room_id: &str,
) -> (res: Result<ListenTarget, String>)
    requires
        old(registry).wf(),
    ensures
        final(registry).wf(),
        listening_begun(*old(registry), *final(registry), channel, store_ready, room_id@, res),
{
    if !store_ready {
        return Err(String::from_str("Firestore instance not initialized"));
    }
    if registry.refuses_starts() {
        return Err(describe_start_error(StartError::Halted));
    }
    let worker = registry.next_worker();
    registry.stop();
    Ok(listen_target(channel, room_id, worker))
}

/// Opens a request to listen to the room of the staff group `group_id`.
pub fn listen_to_group_chat(registry: &mut ListenerRegistry, store_ready: bool, group_id: &str) -> (res:
    Result<ListenTarget, String>)
    requires
        old(registry).wf(),
    ensures
        final(registry).wf(),
        listening_begun(
            *old(registry),
            *final(registry),
            ChatChannel::Group,
            store_ready,
            group_id@,
            res,
        ),
{
    begin_listening(registry, ChatChannel::Group, store_ready, group_id)
}

/// Opens a request to listen to the room of the customer `customer_id` with
/// the maintenance division.
pub fn listen_to_maintenance_chat(
    registry: &mut ListenerRegistry,
    store_ready: bool,
    customer_id: &str,
) -> (res: Result<ListenTarget, String>)
    requires
        old(registry).wf(),
    ensures
        final(registry).wf(),
        listening_begun(
            *old(registry),
            *final(registry),
            ChatChannel::Maintenance,
            store_ready,
            customer_id@,
            res,
        ),
{
    begin_listening(registry, ChatChannel::Maintenance, store_ready, customer_id)
}

/// Closes a request to listen to `room_id` with the outcome of the launch:
/// a launched worker takes the slot; a failed launch leaves the slot empty
/// and fails the request with the reason given. A registry that starts
/// nothing any more refuses, and has the runtime asked to cancel a worker
/// that was launched all the same.
pub fn finish_listening(
    registry: &mut ListenerRegistry,
    room_id: String,
    launch: Result<JoinHandle<()>, String>,
) -> (res: Result<(), String>)
    requires
        old(registry).wf(),
    ensures
        final(registry).wf(),
        exists|settled: Result<(), StartError>|
            {
                &&& old(registry).settled(*final(registry), room_id@, launch, settled)
                &&& match settled {
                    Ok(_) => res is Ok,
                    Err(StartError::Connection(reason)) => res == Err::<(), String>(reason),
                    Err(StartError::Halted) => fails_with(
                        res,
                        start_failure_text(StartError::Halted),
                    ),
                }
            },
{
    let settled = registry.settle(room_id, launch);
    match settled {
        Ok(()) => Ok(()),
        Err(error) => Err(describe_start_error(error)),
    }
}

/// Whether `id` is `prefix` followed by the 36 characters of an identifier.
pub open spec fn is_message_id(id: Seq<char>, prefix: Seq<char>) -> bool {
    id.len() == prefix.len() + 36 && id.subrange(0, prefix.len() as int) == prefix
}

/// A fresh message identifier: `prefix` followed by a random identifier.
pub fn new_message_id(prefix: &str) -> (id: String)
    ensures
        is_message_id(id@, prefix@),
{
    let suffix = random_uuid_text();
    let id = join2(prefix, suffix.as_str());
    assert(id@.subrange(0, prefix@.len() as int) =~= prefix@);
    id
}

/// The message that `sender_id` sends to a staff group, under the identifier
/// and with the timestamp given: marked as sent, of the kind `staff`.
pub fn compose_group_message(
    message_id: String,
    sender_id: String,
    content: String,
    timestamp: String,
) -> (message: GroupChatMessage)
    ensures
        message.message_id == message_id,
        message.sender_id == sender_id,
        message.content == content,
        message.timestamp == timestamp,
        message.status@ == "sent"@,
        message.kind@ == "staff"@,
{
    GroupChatMessage {
        message_id,
        sender_id,
        content,
        timestamp,
        status: String::from_str("sent"),
        kind: String::from_str("staff"),
    }
}

/// The message that `sender_id` sends to a customer's room with the
/// maintenance division: marked as sent, of the type `maintenance`.
pub fn compose_maintenance_message(
    message_id: String,
    sender_id: String,
    content: String,
    timestamp: String,
) -> (message: OfficialChatMessage)
    ensures
        message.message_id == message_id,
        message.sender_id == sender_id,
        message.content == content,
        message.timestamp == timestamp,
        message.status@ == "sent"@,
        message.message_type@ == "maintenance"@,
{
    OfficialChatMessage {
        message_id,
        sender_id,
        content,
        timestamp,
        status: String::from_str("sent"),
        message_type: String::from_str("maintenance"),
    }
}

/// The message of a broadcast: sent by `SYSTEM`, marked as sent, of the kind
/// `broadcast`.
pub fn compose_broadcast_message(message_id: String, content: String, timestamp: String) -> (message:
    GroupChatMessage)
    ensures
        message.message_id == message_id,
        message.sender_id@ == "SYSTEM"@,
        message.content == content,
        message.timestamp == timestamp,
        message.status@ == "sent"@,
        message.kind@ == "broadcast"@,
{
    GroupChatMessage {
        message_id,
        sender_id: String::from_str("SYSTEM"),
        content,
        timestamp,
        status: String::from_str("sent"),
        kind: String::from_str("broadcast"),
    }
}

/// Where a message is written: the document `document_id` in the collection
/// `messages` below the room `room_id` of `collection`.
pub struct Delivery {
    pub channel: ChatChannel,
    pub collection: String,
    pub room_id: String,
    pub messages: String,
    pub document_id: String,
}

/// Whether `delivery` writes the document `document_id` to the messages of
/// `room` in `channel`.
pub open spec fn delivers_to(
    delivery: Delivery,
    channel: ChatChannel,
    room: Seq<char>,
    document_id: Seq<char>,
) -> bool {
    &&& delivery.channel == channel
    &&& delivery.collection@ == collection_of(channel)
    &&& delivery.room_id@ == room
    &&& delivery.messages@ == "messages"@
    &&& delivery.document_id@ == document_id
}

/// Where the message `message_id` is written for the room `room_id` of
/// `channel`.
pub fn delivery_to(channel: ChatChannel, room_id: &str, message_id: &str) -> (delivery: Delivery)
    ensures
        delivers_to(delivery, channel, room_id@, message_id@),
{
    Delivery {
        channel,
        collection: String::from_str(channel.collection()),
        room_id: String::from_str(room_id),
        messages: String::from_str("messages"),
        document_id: String::from_str(message_id),
    }
}

/// A message that is to be written, and where.
pub struct Outgoing<M> {
    /// The message.
    pub message: M,
    /// Where it is written: under its own identifier, below its room.
    pub delivery: Delivery,
    /// Whether the room's own document, which holds the room's identifier, is
    /// written before the message; the outcome of that write is not looked
    /// at, for the document may be there already.
    pub room_document: bool,
}

/// Writes the message that `sender_id` sends to the staff group `group_id`,
/// with a fresh identifier and the current time, and says where it goes: to
/// the messages of that group, under the message's own identifier. Without a
/// document store the call fails.
pub fn send_group_message(
    store_ready: bool,
    group_id: &str,
    sender_id: String,
    content: String,
) -> (res: Result<Outgoing<GroupChatMessage>, String>)
    ensures
        !store_ready ==> res is Err && res->Err_0@ == "Firestore instance not initialized"@,
        store_ready ==> res is Ok && ({
            let message = res->Ok_0.message;
            &&& is_message_id(message.message_id@, "MSG-"@)
            &&& message.sender_id == sender_id
            &&& message.content == content
            &&& message.status@ == "sent"@
            &&& message.kind@ == "staff"@
            &&& delivers_to(res->Ok_0.delivery, ChatChannel::Group, group_id@, message.message_id@)
            &&& !res->Ok_0.room_document
        }),
{
    if !store_ready {
        return Err(String::from_str("Firestore instance not initialized"));
    }
    let message_id = new_message_id("MSG-");
    let timestamp = utc_now_rfc3339();
    let delivery = delivery_to(ChatChannel::Group, group_id, message_id.as_str());
    let message = compose_group_message(message_id, sender_id, content, timestamp);
    Ok(Outgoing { message, delivery, room_document: false })
}

/// Writes the message that `sender_id` sends to the room of the customer
/// `customer_id` with the maintenance division, with a fresh identifier and
/// the current time, and says where it goes: to the messages of that room,
/// under the message's own identifier, after the room's own document. Without
/// a document store the call fails.
pub fn send_maintenance_chat_message(
    store_ready: bool,
    customer_id: &str,
    sender_id: String,
    content: String,
) -> (res: Result<Outgoing<OfficialChatMessage>, String>)
    ensures
        !store_ready ==> res is Err && res->Err_0@ == "Firestore instance not initialized"@,
        store_ready ==> res is Ok && ({
            let message = res->Ok_0.message;
            &&& is_message_id(message.message_id@, "MSG-"@)
            &&& message.sender_id == sender_id
            &&& message.content == content
            &&& message.status@ == "sent"@
            &&& message.message_type@ == "maintenance"@
            &&& delivers_to(
                res->Ok_0.delivery,
                ChatChannel::Maintenance,
                customer_id@,
                message.message_id@,
            )
            &&& res->Ok_0.room_document
        }),
{
    if !store_ready {
        return Err(String::from_str("Firestore instance not initialized"));
    }
    let message_id = new_message_id("MSG-");
    let timestamp = utc_now_rfc3339();
    let delivery = delivery_to(ChatChannel::Maintenance, customer_id, message_id.as_str());
    let message = compose_maintenance_message(message_id, sender_id, content, timestamp);
    Ok(Outgoing { message, delivery, room_document: true })
}

/// Whether `deliveries` writes the document `document_id` to each of `rooms`
/// in `channel`, one delivery for each room and in the order of the rooms.
pub open spec fn delivers_to_each(
    deliveries: Seq<Delivery>,
    channel: ChatChannel,
    rooms: Seq<Seq<char>>,
    document_id: Seq<char>,
) -> bool {
    &&& deliveries.len() == rooms.len()
    &&& forall|i: int|
        0 <= i < deliveries.len() ==> delivers_to(
            #[trigger] deliveries[i],
            channel,
            rooms[i],
            document_id,
        )
}

/// The staff groups of `departments`, by the texts of their identifiers.
pub open spec fn rooms_of(departments: Seq<String>) -> Seq<Seq<char>> {
    Seq::new(departments.len(), |i: int| departments[i]@)
}

/// The customers of `documents`, the full names of their documents: each by
/// the last segment of the name.
pub open spec fn customers_of(documents: Seq<String>) -> Seq<Seq<char>> {
    Seq::new(documents.len(), |i: int| last_segment_of(documents[i]@))
}

/// Where the message `message_id` is written for the staff groups of
/// `departments`: one delivery for each group, in the order given.
pub fn staff_deliveries(departments: &Vec<String>, message_id: &str) -> (deliveries: Vec<Delivery>)
    ensures
        delivers_to_each(deliveries@, ChatChannel::Group, rooms_of(departments@), message_id@),
{
    let mut deliveries: Vec<Delivery> = Vec::new();
    let mut i: usize = 0;
    while i < departments.len()
        invariant
            i <= departments@.len(),
            deliveries@.len() == i,
            forall|j: int|
                0 <= j < i ==> delivers_to(
                    #[trigger] deliveries@[j],
                    ChatChannel::Group,
                    departments@[j]@,
                    message_id@,
                ),
        decreases departments@.len() - i,
    {
        deliveries.push(delivery_to(ChatChannel::Group, departments[i].as_str(), message_id));
        i += 1;
    }
    deliveries
}

/// A broadcast that is to be written.
pub struct Broadcast {
    /// The one message that every room gets.
    pub message: GroupChatMessage,
    /// Where it is written first: the rooms of the staff groups named, in
    /// the order given.
    pub staff: Vec<Delivery>,
    /// Whether it then goes to the room of every customer; if so the caller
    /// lists the customers and asks [`customer_deliveries`] where to write.
    pub all_customers: bool,
}

/// Writes the message of a broadcast, with a fresh identifier and the
/// current time, and says where it goes: to the staff groups that the
/// broadcast names, under the message's own identifier in each, and then to
/// all customers if the broadcast says so. Without a document store the call
/// fails.
pub fn send_broadcast_message(store_ready: bool, payload: BroadcastPayload) -> (res: Result<
    Broadcast,
    String,
>)
    ensures
        !store_ready ==> res is Err && res->Err_0@ == "Firestore not initialized"@,
        store_ready ==> res is Ok && ({
            let message = res->Ok_0.message;
            &&& is_message_id(message.message_id@, "BROADCAST-"@)
            &&& message.sender_id@ == "SYSTEM"@
            &&& message.content == payload.content
            &&& message.status@ == "sent"@
            &&& message.kind@ == "broadcast"@
            &&& delivers_to_each(
                res->Ok_0.staff@,
                ChatChannel::Group,
                rooms_of(payload.recipients.staff_departments@),
                message.message_id@,
            )
            &&& res->Ok_0.all_customers == payload.recipients.all_customers
        }),
{
    if !store_ready {
        return Err(String::from_str("Firestore not initialized"));
    }
    let message_id = new_message_id("BROADCAST-");
    let timestamp = utc_now_rfc3339();
    let staff = staff_deliveries(&payload.recipients.staff_departments, message_id.as_str());
    let all_customers = payload.recipients.all_customers;
    let message = compose_broadcast_message(message_id, payload.content, timestamp);
    Ok(Broadcast { message, staff, all_customers })
}

/// Where the message `message_id` of a broadcast to all customers is
/// written, once the customers were listed: `listed` holds the full names of
/// their documents, or the store's account of why it could not list them.
///
/// Each customer gets one delivery, to the customer-service room named by the
/// last segment of the document's name, in the order listed. A listing that
/// failed fails the broadcast.
pub fn customer_deliveries(listed: Result<Vec<String>, String>, message_id: &str) -> (res: Result<
    Vec<Delivery>,
    String,
>)
    ensures
        match listed {
            Ok(documents) => res is Ok && delivers_to_each(
                res->Ok_0@,
                ChatChannel::CustomerService,
                customers_of(documents@),
                message_id@,
            ),
            Err(detail) => res is Err && res->Err_0@ == "Failed fetching customers: "@ + detail@,
        },
{
    match listed {
        Ok(documents) => {
            let mut deliveries: Vec<Delivery> = Vec::new();
            let mut i: usize = 0;
            while i < documents.len()
                invariant
                    i <= documents@.len(),
                    deliveries@.len() == i,
                    forall|j: int|
                        0 <= j < i ==> delivers_to(
                            #[trigger] deliveries@[j],
                            ChatChannel::CustomerService,
                            last_segment_of(documents@[j]@),
                            message_id@,
                        ),
                decreases documents@.len() - i,
            {
                let customer = last_segment(documents[i].as_str());
                deliveries.push(
                    delivery_to(ChatChannel::CustomerService, customer.as_str(), message_id),
                );
                i += 1;
            }
            Ok(deliveries)
        },
        Err(detail) => Err(join2("Failed fetching customers: ", detail.as_str())),
    }
}

/// Whether `customer` is the customer whose document has the full name
/// `document`: known by the last segment of the name, called `Customer`
/// followed by it, with no address and no picture.
pub open spec fn is_customer_of(customer: CustomerInfo, document: Seq<char>) -> bool {
    &&& customer.id@ == last_segment_of(document)
    &&& customer.name@ == "Customer "@ + last_segment_of(document)
    &&& customer.email is None
    &&& customer.avatar is None
}

/// The customer whose document has the full name `document`.
pub fn customer_from_document(document: &str) -> (customer: CustomerInfo)
    ensures
        is_customer_of(customer, document@),
{
    let id = last_segment(document);
    let name = join2("Customer ", id.as_str());
    CustomerInfo { id, name, email: None, avatar: None }
}

/// The customers who have a room with the maintenance division, from the
/// full names of their documents, in the order given.
pub fn fetch_maintenance_chat_customers(documents: &Vec<String>) -> (customers: Vec<CustomerInfo>)
    ensures
        customers@.len() == documents@.len(),
        forall|i: int|
            0 <= i < customers@.len() ==> is_customer_of(#[trigger] customers@[i], documents@[i]@),
{
    let mut customers: Vec<CustomerInfo> = Vec::new();
    let mut i: usize = 0;
    while i < documents.len()
        invariant
            i <= documents@.len(),
            customers@.len() == i,
            forall|j: int|
                0 <= j < i ==> is_customer_of(#[trigger] customers@[j], documents@[j]@),
        decreases documents@.len() - i,
    {
        customers.push(customer_from_document(documents[i].as_str()));
        i += 1;
    }
    customers
}

/// How an exchange with the document store ended.
pub enum StoreOutcome<T> {
    /// There is no document store to talk to.
    NotReady,
    /// The path of the room could not be built; the text is the store's
    /// account of it.
    PathFailed(String),
    /// The store failed the request; the text is its account of it.
    Failed(String),
    /// The store carried the request out.
    Completed(T),
}

/// What the caller of a chat request gets for `outcome`: the result, or a
/// failure with `not_ready` where there is no store, with `path_failure`
/// followed by the store's account where the room's path could not be built,
/// and with `failure` followed by the store's account where the request
/// failed.
pub open spec fn chat_result<T>(
    res: Result<T, String>,
    outcome: StoreOutcome<T>,
    not_ready: Seq<char>,
    path_failure: Seq<char>,
    failure: Seq<char>,
) -> bool {
    match outcome {
        StoreOutcome::NotReady => res is Err && res->Err_0@ == not_ready,
        StoreOutcome::PathFailed(detail) => res is Err && res->Err_0@ == path_failure + detail@,
        StoreOutcome::Failed(detail) => res is Err && res->Err_0@ == failure + detail@,
        StoreOutcome::Completed(data) => res == Ok::<T, String>(data),
    }
}

fn settle_chat<T>(outcome: StoreOutcome<T>, not_ready: &str, path_failure: &str, failure: &str) -> (res:
    Result<T, String>)
    ensures
        chat_result(res, outcome, not_ready@, path_failure@, failure@),
{
    match outcome {
        StoreOutcome::NotReady => Err(String::from_str(not_ready)),
        StoreOutcome::PathFailed(detail) => Err(join2(path_failure, detail.as_str())),
        StoreOutcome::Failed(detail) => Err(join2(failure, detail.as_str())),
        StoreOutcome::Completed(data) => Ok(data),
    }
}

/// Answers a request for one staff group.
pub fn fetch_group_info(outcome: StoreOutcome<GroupInfo>) -> (res: Result<GroupInfo, String>)
    ensures
        chat_result(
            res,
            outcome,
            "Firestore instance not initialized"@,
            "Error creating parent path: "@,
            "Failed to fetch group: "@,
        ),
{
    settle_chat(
        outcome,
        "Firestore instance not initialized",
        "Error creating parent path: ",
        "Failed to fetch group: ",
    )
}

/// Answers a request for all staff groups.
pub fn get_all_groups(outcome: StoreOutcome<Vec<GroupInfo>>) -> (res: Result<Vec<GroupInfo>, String>)
    ensures
        chat_result(
            res,
            outcome,
            "Firestore not initialized"@,
            "Error creating parent path: "@,
            "Failed to fetch groups: "@,
        ),
{
    settle_chat(
        outcome,
        "Firestore not initialized",
        "Error creating parent path: ",
        "Failed to fetch groups: ",
    )
}

/// Answers a request for the messages of a staff group's room, oldest first
/// as the store gave them.
pub fn fetch_group_chat_messages(outcome: StoreOutcome<Vec<GroupChatMessage>>) -> (res: Result<
    Vec<GroupChatMessage>,
    String,
>)
    ensures
        chat_result(
            res,
            outcome,
            "Firestore instance not initialized"@,
            "Error creating parent path: "@,
            "Failed to fetch messages: "@,
        ),
{
    settle_chat(
        outcome,
        "Firestore instance not initialized",
        "Error creating parent path: ",
        "Failed to fetch messages: ",
    )
}

/// Answers a request for the messages of a customer's room with the
/// maintenance division, oldest first as the store gave them.
pub fn fetch_maintenance_chat_messages(outcome: StoreOutcome<Vec<OfficialChatMessage>>) -> (res:
    Result<Vec<OfficialChatMessage>, String>)
    ensures
        chat_result(
            res,
            outcome,
            "Firestore instance not initialized"@,
            "Error creating parent path: "@,
            "Failed to fetch messages: "@,
        ),
{
    settle_chat(
        outcome,
        "Firestore instance not initialized",
        "Error creating parent path: ",
        "Failed to fetch messages: ",
    )
}

/// Answers a request to send a message to a room, once the store was asked
/// to write it.
pub fn message_sent(outcome: StoreOutcome<()>) -> (res: Result<(), String>)
    ensures
        chat_result(
            res,
            outcome,
            "Firestore instance not initialized"@,
            "Error creating parent path: "@,
            "Failed to send message: "@,
        ),
{
    settle_chat(
        outcome,
        "Firestore instance not initialized",
        "Error creating parent path: ",
        "Failed to send message: ",
    )
}

/// The account of a broadcast that could not be written to the room of
/// `delivery`: which room it was, followed by the store's account.
pub open spec fn delivery_failure_text(delivery: Delivery, detail: Seq<char>) -> Seq<char> {
    match delivery.channel {
        ChatChannel::Group => "Failed to send to staff group "@ + delivery.room_id@ + ": "@
            + detail,
        _ => "Failed to send to customer "@ + delivery.room_id@ + ": "@ + detail,
    }
}

/// The text a broadcast fails with where it could not be written to the room
/// of `delivery`.
pub fn describe_delivery_failure(delivery: &Delivery, detail: &str) -> (text: String)
    ensures
        text@ == delivery_failure_text(*delivery, detail@),
{
    let mut text = match delivery.channel {
        ChatChannel::Group => String::from_str("Failed to send to staff group "),
        _ => String::from_str("Failed to send to customer "),
    };
    text.append(delivery.room_id.as_str());
    text.append(": ");
    text.append(detail);
    text
}

/// The account of a broadcast whose room's path could not be built.
pub open spec fn path_failure_text(delivery: Delivery, detail: Seq<char>) -> Seq<char> {
    match delivery.channel {
        ChatChannel::Group => "Failed group parent path: "@ + detail,
        _ => "Failed customer path: "@ + detail,
    }
}

/// What a broadcast does once one of its deliveries was attempted.
pub enum BroadcastStep {
    /// The room has the message: go on with the next delivery.
    Continue,
    /// The room does not have it: write to no further room and fail the
    /// broadcast with this text.
    Stop(String),
}

/// What the broadcast does after the attempt to write to the room of
/// `delivery` ended in `outcome`.
pub open spec fn step_after(delivery: Delivery, outcome: StoreOutcome<()>) -> Option<Seq<char>> {
    match outcome {
        StoreOutcome::Completed(_) => None,
        StoreOutcome::NotReady => Some("Firestore not initialized"@),
        StoreOutcome::PathFailed(detail) => Some(path_failure_text(delivery, detail@)),
        StoreOutcome::Failed(detail) => Some(delivery_failure_text(delivery, detail@)),
    }
}

/// Decides how a broadcast goes on after one delivery was attempted: on to
/// the next room where the write went through, and no further where it did
/// not. The first room that fails ends the broadcast, with a text that names
/// the room.
pub fn broadcast_step(delivery: &Delivery, outcome: StoreOutcome<()>) -> (step: BroadcastStep)
    ensures
        match step_after(*delivery, outcome) {
            None => step is Continue,
            Some(text) => step matches BroadcastStep::Stop(reason) && reason@ == text,
        },
{
    match outcome {
        StoreOutcome::Completed(_) => BroadcastStep::Continue,
        StoreOutcome::NotReady => BroadcastStep::Stop(String::from_str("Firestore not initialized")),
        StoreOutcome::PathFailed(detail) => {
            let what = match delivery.channel {
                ChatChannel::Group => "Failed group parent path: ",
                _ => "Failed customer path: ",
            };
            BroadcastStep::Stop(join2(what, detail.as_str()))
        },
        StoreOutcome::Failed(detail) => BroadcastStep::Stop(
            describe_delivery_failure(delivery, detail.as_str()),
        ),
    }
}

/// The course of one list of deliveries of a broadcast: which rooms have the
/// message, which room is next, and whether a room has failed.
pub struct BroadcastRun {
    deliveries: Vec<Delivery>,
    position: usize,
    failure: Option<String>,
}

impl BroadcastRun {
    /// The deliveries, in the order in which they are attempted.
    pub closed spec fn deliveries(&self) -> Seq<Delivery> {
        self.deliveries@
    }

    /// How many rooms have the message: the deliveries before this position
    /// went through.
    pub closed spec fn written(&self) -> int {
        self.position as int
    }

    /// The text the broadcast failed with, if a room has failed.
    pub closed spec fn failure(&self) -> Option<Seq<char>> {
        match self.failure {
            Some(text) => Some(text@),
            None => None,
        }
    }

    /// No more rooms have the message than there are deliveries, and a room
    /// that failed is one of them.
    pub closed spec fn wf(&self) -> bool {
        &&& self.position <= self.deliveries@.len()
        &&& self.failure is Some ==> self.position < self.deliveries@.len()
    }

    /// The delivery that is attempted next: the one behind the rooms that
    /// have the message, unless a room has failed or every room has it.
    pub open spec fn pending(&self) -> Option<Delivery> {
        if self.failure() is None && self.written() < self.deliveries().len() {
            Some(self.deliveries()[self.written()])
        } else {
            None
        }
    }

    /// The course of `deliveries` before any was attempted.
    pub fn new(deliveries: Vec<Delivery>) -> (run: BroadcastRun)
        ensures
            run.wf(),
            run.deliveries() == deliveries@,
            run.written() == 0,
            run.failure() is None,
    {
        BroadcastRun { deliveries, position: 0, failure: None }
    }

    /// The delivery to attempt next, or `None` where there is none: once a
    /// room has failed, no further room is written to.
    pub fn next(&self) -> (delivery: Option<&Delivery>)
        requires
            self.wf(),
        ensures
            match delivery {
                Some(d) => self.pending() == Some(*d),
                None => self.pending() is None,
            },
    {
        if self.failure.is_none() && self.position < self.deliveries.len() {
            Some(&self.deliveries[self.position])
        } else {
            None
        }
    }

    /// Takes the outcome of the attempt at the pending delivery: a write that
    /// went through moves on to the next room; any other outcome fails the
    /// broadcast, with a text that names the room. With no delivery pending,
    /// nothing changes.
    pub fn record(&mut self, outcome: StoreOutcome<()>)
        requires
            old(self).wf(),
        ensures
            final(self).wf(),
            final(self).deliveries() == old(self).deliveries(),
            match old(self).pending() {
                Some(delivery) => match step_after(delivery, outcome) {
                    None => final(self).written() == old(self).written() + 1
                        && final(self).failure() is None,
                    Some(text) => final(self).written() == old(self).written()
                        && final(self).failure() == Some(text),
                },
                None => final(self).written() == old(self).written() && final(self).failure()
                    == old(self).failure(),
            },
    {
        if self.failure.is_none() && self.position < self.deliveries.len() {
            match broadcast_step(&self.deliveries[self.position], outcome) {
                BroadcastStep::Continue => {
                    self.position = self.position + 1;
                },
                BroadcastStep::Stop(text) => {
                    self.failure = Some(text);
                },
            }
        }
    }

    /// How the deliveries ended: with the failure of the room that failed, or
    /// well.
    pub fn finish(self) -> (res: Result<(), String>)
        ensures
            match self.failure() {
                Some(text) => res is Err && res->Err_0@ == text,
                None => res is Ok,
            },
    {
        match self.failure {
            Some(text) => Err(text),
            None => Ok(()),
        }
    }
}

/// Once a room has failed, the broadcast stays failed and attempts nothing
/// more, whatever it is told.
pub proof fn law_broadcast_stops_at_first_failure(run: BroadcastRun)
    requires
        run.wf(),
        run.failure() is Some,
    ensures
        run.pending() is None,
{
}

} // verus!
