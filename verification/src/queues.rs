//! Ride queues: what the queue handlers answer, given what the cache and the
//! store gave them.

use vstd::prelude::*;
use vstd::string::*;
use crate::response::{
    done, failed, removed, saved, served_from_store, turned_down, written, Handled, ReadSource,
    UpdatePlan,
};
use crate::rows::map_all;
use crate::text::join3;

verus! {

/// A place in a ride's queue as the store holds it.
pub struct QueueRecord {
    pub queue_id: String,
    pub ride_id: String,
    pub customer_id: String,
    pub joined_at: String,
    pub position: i32,
}

/// A place in a ride's queue as a caller sees it.
pub struct QueueResponse {
    pub queue_id: String,
    pub ride_id: String,
    pub customer_id: String,
    pub joined_at: String,
    pub position: i32,
}

/// A request to join the queue of a ride.
pub struct CreateQueueRequest {
    pub queue_id: String,
    pub ride_id: String,
    pub customer_id: String,
    pub joined_at: String,
}

/// A request to move a place in a queue to another position.
pub struct EditQueueRequest {
    pub queue_id: String,
    pub new_position: i32,
}

/// A request to leave a queue.
pub struct DeleteQueueRequest {
    pub queue_id: String,
}

/// Seconds for which the list of queues stays cached.
pub const QUEUES_TTL: usize = 60;

/// The key under which the list of all queues is cached.
pub const ALL_QUEUES_KEY: &'static str = "get_all_queues_cache";

/// [`ALL_QUEUES_KEY`], as contracts speak of it.
pub open spec fn all_queues_key() -> Seq<char> {
    ALL_QUEUES_KEY@
}

/// Whether `response` shows `record`, field by field.
pub open spec fn shows_queue(response: QueueResponse, record: QueueRecord) -> bool {
    &&& response.queue_id == record.queue_id
    &&& response.ride_id == record.ride_id
    &&& response.customer_id == record.customer_id
    &&& response.joined_at == record.joined_at
    &&& response.position == record.position
}

/// Whether `responses` shows `records`, one for one and in order.
pub open spec fn shows_queues(responses: Seq<QueueResponse>, records: Seq<QueueRecord>) -> bool {
    &&& responses.len() == records.len()
    &&& forall|i: int| 0 <= i < responses.len() ==> shows_queue(#[trigger] responses[i], records[i])
}

/// What a caller sees of `record`.
pub fn queue_response(record: &QueueRecord) -> (response: QueueResponse)
    ensures
        shows_queue(response, *record),
{
    QueueResponse {
        queue_id: record.queue_id.clone(),
        ride_id: record.ride_id.clone(),
        customer_id: record.customer_id.clone(),
        joined_at: record.joined_at.clone(),
        position: record.position,
    }
}

/// Answers a request for all queues, from the records that the cache held or
/// that the store gave in the order of their positions; those of the store
/// are then cached for a minute.
pub fn view_all_queues(source: ReadSource<Vec<QueueRecord>, Vec<QueueRecord>>) -> (handled: Handled<
    Vec<QueueResponse>,
>)
    ensures
        match source {
            ReadSource::Cache(cached) => handled.succeeds() && shows_queues(
                handled.data()@,
                cached@,
            ) && handled.leaves_cache(),
            ReadSource::Store(Ok(records)) => handled.succeeds() && shows_queues(
                handled.data()@,
                records@,
            ) && handled.refreshes(all_queues_key(), QUEUES_TTL),
            ReadSource::Store(Err(detail)) => handled.fails_with("Database error: "@ + detail@)
                && handled.leaves_cache(),
        },
{
    match source {
        ReadSource::Cache(cached) => done(map_all(&cached, queue_response)),
        ReadSource::Store(Ok(records)) => served_from_store(
            map_all(&records, queue_response),
            ALL_QUEUES_KEY,
            QUEUES_TTL,
        ),
        ReadSource::Store(Err(detail)) => failed("Database error: ", detail.as_str()),
    }
}

/// Answers a request for the queue of one ride, from the records the store
/// gave in the order of their positions. Nothing is cached.
pub fn get_queues_by_ride(records: Result<Vec<QueueRecord>, String>, ride_id: &str) -> (handled:
    Handled<Vec<QueueResponse>>)
    ensures
        handled.leaves_cache(),
        match records {
            Ok(rows) => handled.succeeds() && shows_queues(handled.data()@, rows@),
            Err(detail) => handled.fails_with(
                "Failed to fetch queue for ride "@ + ride_id@ + ": "@ + detail@,
            ),
        },
{
    match records {
        Ok(rows) => done(map_all(&rows, queue_response)),
        Err(detail) => {
            let what = join3("Failed to fetch queue for ride ", ride_id, ": ");
            failed(what.as_str(), detail.as_str())
        },
    }
}

/// The position behind `last`, the highest position taken in a ride's queue:
/// one more, and 1 in an empty queue.
pub open spec fn position_behind(last: Option<i32>) -> int {
    match last {
        Some(position) => position + 1,
        None => 1,
    }
}

/// The position that a newcomer to a ride's queue gets, or `None` where the
/// queue has run out of positions.
pub fn next_position(last: Option<i32>) -> (position: Option<i32>)
    ensures
        position is Some <==> position_behind(last) <= i32::MAX,
        position matches Some(p) ==> p == position_behind(last),
{
    match last {
        Some(taken) => {
            if taken < i32::MAX {
                Some(taken + 1)
            } else {
                None
            }
        },
        None => Some(1),
    }
}

/// What a request to join a queue comes to, once the last place in the queue
/// was looked up.
pub enum JoinPlan {
    /// Insert this record.
    Insert(QueueRecord),
    /// Turn the request down with this text.
    Refuse(String),
}

/// Decides a request to join a ride's queue, from the record that holds the
/// last place in it, if the queue has any.
///
/// The newcomer gets the position behind the last one. A lookup that the
/// store failed turns the request down, and so does a queue that has run out
/// of positions.
pub fn create_queue(payload: CreateQueueRequest, last: Result<Option<QueueRecord>, String>) -> (plan:
    JoinPlan)
    ensures
        match last {
            Ok(found) => {
                let taken = match found {
                    Some(record) => Some(record.position),
                    None => None,
                };
                if position_behind(taken) <= i32::MAX {
                    plan matches JoinPlan::Insert(record) && record.queue_id == payload.queue_id
                        && record.ride_id == payload.ride_id && record.customer_id
                        == payload.customer_id && record.joined_at == payload.joined_at
                        && record.position == position_behind(taken)
                } else {
                    plan matches JoinPlan::Refuse(text) && text@ == "Queue is full"@
                }
            },
            Err(detail) => plan matches JoinPlan::Refuse(text) && text@ == "Database error: "@
                + detail@,
        },
{
    match last {
        Ok(found) => {
            let taken = match found {
                Some(record) => Some(record.position),
                None => None,
            };
            match next_position(taken) {
                Some(position) => JoinPlan::Insert(
                    QueueRecord {
                        queue_id: payload.queue_id,
                        ride_id: payload.ride_id,
                        customer_id: payload.customer_id,
                        joined_at: payload.joined_at,
                        position,
                    },
                ),
                None => JoinPlan::Refuse(String::from_str("Queue is full")),
            }
        },
        Err(detail) => {
            let mut text = String::from_str("Database error: ");
            text.append(detail.as_str());
            JoinPlan::Refuse(text)
        },
    }
}

/// Answers a request to join a queue, once the store has inserted the record.
pub fn queue_created(inserted: Result<QueueRecord, String>) -> (handled: Handled<QueueRecord>)
    ensures
        match inserted {
            Ok(record) => handled.succeeds_with(record) && handled.invalidates(all_queues_key()),
            Err(detail) => handled.fails_with("Failed to create queue: "@ + detail@)
                && handled.leaves_cache(),
        },
{
    saved(inserted, ALL_QUEUES_KEY, "Failed to create queue: ")
}

/// Decides a request to move a place in a queue, once the place was looked
/// up: the record is to be written with the new position. A place that is
/// not there fails; a lookup that the store failed turns the request down.
pub fn edit_queue(found: Result<Option<QueueRecord>, String>, payload: &EditQueueRequest) -> (plan:
    UpdatePlan<QueueRecord, QueueRecord>)
    ensures
        match found {
            Ok(Some(existing)) => plan == UpdatePlan::<QueueRecord, QueueRecord>::Write(
                QueueRecord { position: payload.new_position, ..existing },
            ),
            Ok(None) => plan matches UpdatePlan::Answer(handled) && handled.fails_with(
                "Queue entry not found"@,
            ) && handled.leaves_cache(),
            Err(detail) => plan matches UpdatePlan::Answer(handled) && handled.aborts_with(
                "Database error: "@ + detail@,
            ) && handled.leaves_cache(),
        },
{
    match found {
        Ok(Some(existing)) => {
            let mut record = existing;
            record.position = payload.new_position;
            UpdatePlan::Write(record)
        },
        Ok(None) => {
            let handled = failed("Queue entry not found", "");
            assert("Queue entry not found"@ + ""@ =~= "Queue entry not found"@) by {
                reveal_strlit("");
            }
            UpdatePlan::Answer(handled)
        },
        Err(detail) => UpdatePlan::Answer(turned_down("Database error: ", detail.as_str())),
    }
}

/// Answers a request that moved a place in a queue, once the store has
/// written the record. A write that the store failed turns the request down.
pub fn queue_updated(updated: Result<QueueRecord, String>) -> (handled: Handled<QueueRecord>)
    ensures
        match updated {
            Ok(record) => handled.succeeds_with(record) && handled.invalidates(all_queues_key()),
            Err(detail) => handled.aborts_with("Failed to update queue: "@ + detail@)
                && handled.leaves_cache(),
        },
{
    match updated {
        Ok(record) => written(record, ALL_QUEUES_KEY),
        Err(detail) => turned_down("Failed to update queue: ", detail.as_str()),
    }
}

/// Answers a request to leave a queue, from the number of rows the store
/// removed.
pub fn delete_queue(payload: &DeleteQueueRequest, rows_affected: Result<u64, String>) -> (handled:
    Handled<()>)
    ensures
        match rows_affected {
            Ok(rows) => if rows == 0 {
                handled.fails_with("No queue found with ID: "@ + payload.queue_id@)
                    && handled.leaves_cache()
            } else {
                handled.succeeds_with(()) && handled.invalidates(all_queues_key())
            },
            Err(detail) => handled.fails_with("Failed to delete queue: "@ + detail@)
                && handled.leaves_cache(),
        },
{
    removed(
        rows_affected,
        payload.queue_id.as_str(),
        ALL_QUEUES_KEY,
        "No queue found with ID: ",
        "Failed to delete queue: ",
    )
}

} // verus!
