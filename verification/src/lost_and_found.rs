//! Lost and found: what the handlers of lost items answer, given what the
//! cache and the store gave them.

use vstd::prelude::*;
use vstd::string::*;
use crate::outside::{base64_text, encode_base64};
use crate::response::{
    done, failed, found_for_update, removed, saved, served_from_store, Handled, ReadSource,
    Served, UpdatePlan,
};
use crate::rows::map_all;

verus! {

/// A lost item as the store holds it, with its picture.
pub struct LostItemRecord {
    pub item_id: String,
    pub name: String,
    pub kind: String,
    pub color: String,
    pub location: String,
    pub status: String,
    pub finder_id: Option<String>,
    pub owner_id: Option<String>,
    pub image: Vec<u8>,
}

/// A lost item as a caller sees it, its picture as base64 text.
pub struct LostAndFoundItemResponse {
    pub item_id: String,
    pub name: String,
    pub kind: String,
    pub color: String,
    pub location: String,
    pub status: String,
    pub finder_id: Option<String>,
    pub owner_id: Option<String>,
    pub image: String,
}

/// A request to report a lost item.
pub struct CreateLostItemRequest {
    pub item_id: String,
    pub name: String,
    pub kind: String,
    pub color: String,
    pub location: String,
    pub status: String,
    pub finder_id: Option<String>,
    pub owner_id: Option<String>,
    pub image: Vec<u8>,
}

/// A request to change a lost item: every field but the identifier is taken
/// over.
pub struct UpdateLostItemRequest {
    pub item_id: String,
    pub name: String,
    pub kind: String,
    pub color: String,
    pub location: String,
    pub status: String,
    pub finder_id: Option<String>,
    pub owner_id: Option<String>,
    pub image: Vec<u8>,
}

/// A request to delete a lost item.
pub struct DeleteLostItemRequest {
    pub item_id: String,
}

/// Seconds for which the list of lost items stays cached.
pub const LOST_ITEMS_TTL: usize = 60;

/// The key under which the list of all lost items is cached.
pub const ALL_LOST_ITEMS_KEY: &'static str = "get_all_lost_and_found_items_cache";

/// [`ALL_LOST_ITEMS_KEY`], as contracts speak of it.
pub open spec fn all_lost_items_key() -> Seq<char> {
    ALL_LOST_ITEMS_KEY@
}

/// Whether `response` shows `record`: the same in every field, the picture
/// as base64 text.
pub open spec fn shows_lost_item(response: LostAndFoundItemResponse, record: LostItemRecord) -> bool {
    &&& response.item_id == record.item_id
    &&& response.name == record.name
    &&& response.kind == record.kind
    &&& response.color == record.color
    &&& response.location == record.location
    &&& response.status == record.status
    &&& response.finder_id == record.finder_id
    &&& response.owner_id == record.owner_id
    &&& response.image@ == base64_text(record.image@)
}

/// Whether `responses` shows `records`, one for one and in order.
pub open spec fn shows_lost_items(
    responses: Seq<LostAndFoundItemResponse>,
    records: Seq<LostItemRecord>,
) -> bool {
    &&& responses.len() == records.len()
    &&& forall|i: int|
        0 <= i < responses.len() ==> shows_lost_item(#[trigger] responses[i], records[i])
}

/// What a caller sees of `record`.
pub fn lost_item_response(record: &LostItemRecord) -> (response: LostAndFoundItemResponse)
    ensures
        shows_lost_item(response, *record),
{
    LostAndFoundItemResponse {
        item_id: record.item_id.clone(),
        name: record.name.clone(),
        kind: record.kind.clone(),
        color: record.color.clone(),
        location: record.location.clone(),
        status: record.status.clone(),
        finder_id: record.finder_id.clone(),
        owner_id: record.owner_id.clone(),
        image: encode_base64(&record.image),
    }
}

/// Answers a request for all lost items, from the records that the cache
/// held or that the store gave; those of the store are then cached for a
/// minute, as the store gave them.
pub fn view_lost_and_found_items(
    source: ReadSource<Vec<LostItemRecord>, Vec<LostItemRecord>>,
) -> (served: Served<Vec<LostAndFoundItemResponse>, Vec<LostItemRecord>>)
    ensures
        match source {
            ReadSource::Cache(cached) => served.handled.succeeds() && shows_lost_items(
                served.handled.data()@,
                cached@,
            ) && served.handled.leaves_cache() && served.to_cache is None,
            ReadSource::Store(Ok(records)) => served.handled.succeeds() && shows_lost_items(
                served.handled.data()@,
                records@,
            ) && served.handled.refreshes(all_lost_items_key(), LOST_ITEMS_TTL)
                && served.to_cache == Some(records),
            ReadSource::Store(Err(detail)) => served.handled.fails_with(
                "Database error: "@ + detail@,
            ) && served.handled.leaves_cache() && served.to_cache is None,
        },
{
    match source {
        ReadSource::Cache(cached) => Served {
            handled: done(map_all(&cached, lost_item_response)),
            to_cache: None,
        },
        ReadSource::Store(Ok(records)) => Served {
            handled: served_from_store(
                map_all(&records, lost_item_response),
                ALL_LOST_ITEMS_KEY,
                LOST_ITEMS_TTL,
            ),
            to_cache: Some(records),
        },
        ReadSource::Store(Err(detail)) => Served {
            handled: failed("Database error: ", detail.as_str()),
            to_cache: None,
        },
    }
}

/// The record of a newly reported item: the request, field by field.
pub fn new_lost_item(payload: CreateLostItemRequest) -> (record: LostItemRecord)
    ensures
        record.item_id == payload.item_id,
        record.name == payload.name,
        record.kind == payload.kind,
        record.color == payload.color,
        record.location == payload.location,
        record.status == payload.status,
        record.finder_id == payload.finder_id,
        record.owner_id == payload.owner_id,
        record.image == payload.image,
{
    LostItemRecord {
        item_id: payload.item_id,
        name: payload.name,
        kind: payload.kind,
        color: payload.color,
        location: payload.location,
        status: payload.status,
        finder_id: payload.finder_id,
        owner_id: payload.owner_id,
        image: payload.image,
    }
}

/// Answers a request to report a lost item, once the store has inserted it.
pub fn create_lost_item(inserted: Result<LostItemRecord, String>) -> (handled: Handled<
    LostItemRecord,
>)
    ensures
        match inserted {
            Ok(record) => handled.succeeds_with(record) && handled.invalidates(
                all_lost_items_key(),
            ),
            Err(detail) => handled.fails_with("Failed to create item: "@ + detail@)
                && handled.leaves_cache(),
        },
{
    saved(inserted, ALL_LOST_ITEMS_KEY, "Failed to create item: ")
}

/// The item `existing` with everything but its identifier taken from
/// `payload`.
pub open spec fn lost_item_with(existing: LostItemRecord, payload: UpdateLostItemRequest) -> LostItemRecord {
    LostItemRecord {
        item_id: existing.item_id,
        name: payload.name,
        kind: payload.kind,
        color: payload.color,
        location: payload.location,
        status: payload.status,
        finder_id: payload.finder_id,
        owner_id: payload.owner_id,
        image: payload.image,
    }
}

/// Decides a request to change a lost item, once the item was looked up: the
/// item is to be written with the request's values.
pub fn update_lost_item(found: Result<Option<LostItemRecord>, String>, payload: UpdateLostItemRequest) -> (plan:
    UpdatePlan<LostItemRecord, LostItemRecord>)
    ensures
        match found {
            Ok(Some(existing)) => plan == UpdatePlan::<LostItemRecord, LostItemRecord>::Write(
                lost_item_with(existing, payload),
            ),
            Ok(None) => plan matches UpdatePlan::Answer(handled) && handled.fails_with(
                "No item found with ID: "@ + payload.item_id@,
            ) && handled.leaves_cache(),
            Err(detail) => plan matches UpdatePlan::Answer(handled) && handled.fails_with(
                "Database error while updating item: "@ + detail@,
            ) && handled.leaves_cache(),
        },
{
    match found_for_update(
        found,
        payload.item_id.as_str(),
        "No item found with ID: ",
        "Database error while updating item: ",
    ) {
        UpdatePlan::Write(existing) => UpdatePlan::Write(
            LostItemRecord {
                item_id: existing.item_id,
                name: payload.name,
                kind: payload.kind,
                color: payload.color,
                location: payload.location,
                status: payload.status,
                finder_id: payload.finder_id,
                owner_id: payload.owner_id,
                image: payload.image,
            },
        ),
        UpdatePlan::Answer(handled) => UpdatePlan::Answer(handled),
    }
}

/// Answers a request that changed a lost item, once the store has written it.
pub fn lost_item_updated(updated: Result<LostItemRecord, String>) -> (handled: Handled<
    LostItemRecord,
>)
    ensures
        match updated {
            Ok(record) => handled.succeeds_with(record) && handled.invalidates(
                all_lost_items_key(),
            ),
            Err(detail) => handled.fails_with("Failed to update item: "@ + detail@)
                && handled.leaves_cache(),
        },
{
    saved(updated, ALL_LOST_ITEMS_KEY, "Failed to update item: ")
}

/// Answers a request to delete a lost item, from the number of rows the
/// store removed.
pub fn delete_lost_item(payload: &DeleteLostItemRequest, rows_affected: Result<u64, String>) -> (handled:
    Handled<()>)
    ensures
        match rows_affected {
            Ok(rows) => if rows == 0 {
                handled.fails_with("No item found with ID: "@ + payload.item_id@)
                    && handled.leaves_cache()
            } else {
                handled.succeeds_with(()) && handled.invalidates(all_lost_items_key())
            },
            Err(detail) => handled.fails_with("Failed to delete item: "@ + detail@)
                && handled.leaves_cache(),
        },
{
    removed(
        rows_affected,
        payload.item_id.as_str(),
        ALL_LOST_ITEMS_KEY,
        "No item found with ID: ",
        "Failed to delete item: ",
    )
}

} // verus!
