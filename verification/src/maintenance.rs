//! Maintenance requests: what their handlers answer, given what the cache
//! and the store gave them.

use vstd::prelude::*;
use vstd::string::*;
use crate::outside::utc_now_in_layout;
use crate::response::{
    served_from_cache, served_from_store, turned_down, written, Handled, ReadSource,
};
use crate::rows::map_all;

verus! {

/// A maintenance request as the store holds it.
pub struct MaintenanceRecord {
    pub maintenance_id: String,
    pub ride_id: String,
    pub kind: String,
    pub issue: String,
    pub date: String,
    pub status: String,
    pub maintenance_staff_id: Option<String>,
    pub sender_id: String,
}

/// A maintenance request as a caller sees it.
pub struct MaintenanceResponse {
    pub maintenance_id: String,
    pub ride_id: String,
    pub kind: String,
    pub issue: String,
    pub date: String,
    pub status: String,
    pub maintenance_staff_id: Option<String>,
    pub sender_id: String,
}

/// A request for maintenance on a ride.
pub struct CreateMaintenanceRequest {
    pub maintenance_id: String,
    pub ride_id: String,
    pub kind: String,
    pub issue: String,
    pub sender_id: String,
}

/// Seconds for which the list of maintenance requests stays cached.
pub const MAINTENANCE_TTL: usize = 60;

/// The key under which the list of maintenance requests is cached.
pub const ALL_MAINTENANCE_KEY: &'static str = "all_maintenance_cache";

/// [`ALL_MAINTENANCE_KEY`], as contracts speak of it.
pub open spec fn all_maintenance_key() -> Seq<char> {
    ALL_MAINTENANCE_KEY@
}

/// Whether `response` shows `record`, field by field.
pub open spec fn shows_maintenance(response: MaintenanceResponse, record: MaintenanceRecord) -> bool {
    &&& response.maintenance_id == record.maintenance_id
    &&& response.ride_id == record.ride_id
    &&& response.kind == record.kind
    &&& response.issue == record.issue
    &&& response.date == record.date
    &&& response.status == record.status
    &&& response.maintenance_staff_id == record.maintenance_staff_id
    &&& response.sender_id == record.sender_id
}

/// Whether `responses` shows `records`, one for one and in order.
pub open spec fn shows_all_maintenance(
    responses: Seq<MaintenanceResponse>,
    records: Seq<MaintenanceRecord>,
) -> bool {
    &&& responses.len() == records.len()
    &&& forall|i: int|
        0 <= i < responses.len() ==> shows_maintenance(#[trigger] responses[i], records[i])
}

/// What a caller sees of `record`.
pub fn maintenance_response(record: &MaintenanceRecord) -> (response: MaintenanceResponse)
    ensures
        shows_maintenance(response, *record),
{
    MaintenanceResponse {
        maintenance_id: record.maintenance_id.clone(),
        ride_id: record.ride_id.clone(),
        kind: record.kind.clone(),
        issue: record.issue.clone(),
        date: record.date.clone(),
        status: record.status.clone(),
        maintenance_staff_id: record.maintenance_staff_id.clone(),
        sender_id: record.sender_id.clone(),
    }
}

/// Answers a request for all maintenance requests: the cached list as it is,
/// or the list the store gave, which is then cached for a minute. A read
/// that the store failed turns the request down.
pub fn view_all_maintenance(
    source: ReadSource<Vec<MaintenanceResponse>, Vec<MaintenanceRecord>>,
) -> (handled: Handled<Vec<MaintenanceResponse>>)
    ensures
        match source {
            ReadSource::Cache(cached) => handled.succeeds_with(cached) && handled.leaves_cache(),
            ReadSource::Store(Ok(records)) => handled.succeeds() && shows_all_maintenance(
                handled.data()@,
                records@,
            ) && handled.refreshes(all_maintenance_key(), MAINTENANCE_TTL),
            ReadSource::Store(Err(detail)) => handled.aborts_with(
                "Failed to retrieve maintenance data: "@ + detail@,
            ) && handled.leaves_cache(),
        },
{
    match source {
        ReadSource::Cache(cached) => served_from_cache(cached),
        ReadSource::Store(Ok(records)) => served_from_store(
            map_all(&records, maintenance_response),
            ALL_MAINTENANCE_KEY,
            MAINTENANCE_TTL,
        ),
        ReadSource::Store(Err(detail)) => turned_down(
            "Failed to retrieve maintenance data: ",
            detail.as_str(),
        ),
    }
}

/// Whether `record` is the request `payload` as it is first stored: dated
/// `date`, pending, with no one assigned.
pub open spec fn is_new_request(
    record: MaintenanceRecord,
    payload: CreateMaintenanceRequest,
    date: String,
) -> bool {
    &&& record.maintenance_id == payload.maintenance_id
    &&& record.ride_id == payload.ride_id
    &&& record.kind == payload.kind
    &&& record.issue == payload.issue
    &&& record.date == date
    &&& record.status@ == "Pending"@
    &&& record.maintenance_staff_id is None
    &&& record.sender_id == payload.sender_id
}

/// The record of a new maintenance request dated `date`.
pub fn new_maintenance_request(payload: CreateMaintenanceRequest, date: String) -> (record:
    MaintenanceRecord)
    ensures
        is_new_request(record, payload, date),
{
    MaintenanceRecord {
        maintenance_id: payload.maintenance_id,
        ride_id: payload.ride_id,
        kind: payload.kind,
        issue: payload.issue,
        date,
        status: String::from_str("Pending"),
        maintenance_staff_id: None,
        sender_id: payload.sender_id,
    }
}

/// The record of a new maintenance request, dated now: the date and the
/// time of day, in digits.
pub fn create_maintenance_request(payload: CreateMaintenanceRequest) -> (record: MaintenanceRecord)
    ensures
        exists|date: String| is_new_request(record, payload, date),
{
    let date = utc_now_in_layout("%Y-%m-%d %H:%M:%S");
    let record = new_maintenance_request(payload, date);
    assert(is_new_request(record, payload, date));
    record
}

/// Answers a request for maintenance, once the store has inserted it: the
/// cached list of requests, which the new request is missing from, is
/// invalidated. An insertion that the store failed turns the request down.
pub fn maintenance_request_created(inserted: Result<MaintenanceRecord, String>) -> (handled:
    Handled<MaintenanceRecord>)
    ensures
        match inserted {
            Ok(record) => handled.succeeds_with(record) && handled.invalidates(
                all_maintenance_key(),
            ),
            Err(detail) => handled.aborts_with(
                "Failed to create maintenance request: "@ + detail@,
            ) && handled.leaves_cache(),
        },
{
    match inserted {
        Ok(record) => written(record, ALL_MAINTENANCE_KEY),
        Err(detail) => turned_down("Failed to create maintenance request: ", detail.as_str()),
    }
}

} // verus!
