//! Souvenir stores: what the store handlers answer, given what the cache and
//! the store of records gave them.

use vstd::prelude::*;
use vstd::string::*;
use crate::outside::base64_text;
use crate::pictures::{picture_text, show_pictured, shows_pictured, with_picture, Pictured, Shown};
use crate::response::{
    done, failed, found_for_update, removed, saved, served_from_store, Handled, ReadSource,
    Served, UpdatePlan,
};
use crate::rows::map_all;

verus! {

/// A store as the store holds it, with its picture.
pub struct StoreRecord {
    pub store_id: String,
    pub sales_associate_id: String,
    pub name: String,
    pub image: Vec<u8>,
    pub description: String,
    pub operational_status: String,
}

/// A store as a caller sees it, its picture as base64 text.
pub struct StoreResponse {
    pub store_id: String,
    pub sales_associate_id: String,
    pub name: String,
    pub image: String,
    pub description: String,
    pub operational_status: String,
}

/// A store as the cache holds it: everything but the picture.
pub struct StoreCache {
    pub store_id: String,
    pub sales_associate_id: String,
    pub name: String,
    pub description: String,
    pub operational_status: String,
}

/// A request to create a store.
pub struct CreateStoreRequest {
    pub store_id: String,
    pub sales_associate_id: String,
    pub name: String,
    pub image: Vec<u8>,
    pub description: String,
    pub operational_status: String,
}

/// A request to change a store: every field but the identifier is taken over.
pub struct UpdateStoreRequest {
    pub store_id: String,
    pub sales_associate_id: String,
    pub name: String,
    pub image: Vec<u8>,
    pub description: String,
    pub operational_status: String,
}

/// A request to delete a store.
pub struct DeleteStoreRequest {
    pub store_id: String,
}

/// Seconds for which the list of stores stays cached.
pub const STORES_TTL: usize = 60;

/// The key under which the list of all stores is cached.
pub const ALL_STORES_KEY: &'static str = "get_all_stores_cache";

/// [`ALL_STORES_KEY`], as contracts speak of it.
pub open spec fn all_stores_key() -> Seq<char> {
    ALL_STORES_KEY@
}

/// Whether `response` shows `record`: the same in every field, the picture
/// as base64 text.
pub open spec fn shows_store(response: StoreResponse, record: StoreRecord) -> bool {
    &&& response.store_id == record.store_id
    &&& response.sales_associate_id == record.sales_associate_id
    &&& response.name == record.name
    &&& response.description == record.description
    &&& response.operational_status == record.operational_status
    &&& response.image@ == base64_text(record.image@)
}

/// Whether `responses` shows `records`, one for one and in order.
pub open spec fn shows_stores(responses: Seq<StoreResponse>, records: Seq<StoreRecord>) -> bool {
    &&& responses.len() == records.len()
    &&& forall|i: int| 0 <= i < responses.len() ==> shows_store(#[trigger] responses[i], records[i])
}

/// What a caller sees of `record`.
pub fn store_response(record: &StoreRecord) -> (response: StoreResponse)
    ensures
        shows_store(response, *record),
{
    StoreResponse {
        store_id: record.store_id.clone(),
        sales_associate_id: record.sales_associate_id.clone(),
        name: record.name.clone(),
        description: record.description.clone(),
        operational_status: record.operational_status.clone(),
        image: picture_text(&record.image),
    }
}

/// Whether `entry` holds `record` without its picture.
pub open spec fn caches_store(entry: StoreCache, record: StoreRecord) -> bool {
    &&& entry.store_id == record.store_id
    &&& entry.sales_associate_id == record.sales_associate_id
    &&& entry.name == record.name
    &&& entry.description == record.description
    &&& entry.operational_status == record.operational_status
}

/// Whether `entries` holds `records`, one for one and in order.
pub open spec fn caches_stores(entries: Seq<StoreCache>, records: Seq<StoreRecord>) -> bool {
    &&& entries.len() == records.len()
    &&& forall|i: int| 0 <= i < entries.len() ==> caches_store(#[trigger] entries[i], records[i])
}

/// What the cache holds of `record`.
pub fn store_cache(record: &StoreRecord) -> (entry: StoreCache)
    ensures
        caches_store(entry, *record),
{
    StoreCache {
        store_id: record.store_id.clone(),
        sales_associate_id: record.sales_associate_id.clone(),
        name: record.name.clone(),
        description: record.description.clone(),
        operational_status: record.operational_status.clone(),
    }
}

/// What is cached of the stores that the store gave.
pub fn store_cache_entries(records: &Vec<StoreRecord>) -> (entries: Vec<StoreCache>)
    ensures
        caches_stores(entries@, records@),
{
    map_all(records, store_cache)
}

/// Whether `response` shows the cached `entry` with the picture `image`.
pub open spec fn shows_cached_store(response: StoreResponse, entry: StoreCache, image: Seq<u8>) -> bool {
    &&& response.store_id == entry.store_id
    &&& response.sales_associate_id == entry.sales_associate_id
    &&& response.name == entry.name
    &&& response.description == entry.description
    &&& response.operational_status == entry.operational_status
    &&& response.image@ == base64_text(image)
}

/// Whether `responses` shows those among `cached` whose picture the store
/// still has, one for one and in order.
pub open spec fn shows_cached_stores(
    responses: Seq<StoreResponse>,
    cached: Seq<Pictured<StoreCache>>,
) -> bool {
    let kept = with_picture(cached);
    &&& responses.len() == kept.len()
    &&& forall|i: int|
        0 <= i < responses.len() ==> shows_cached_store(
            #[trigger] responses[i],
            kept[i].entry,
            kept[i].image->0@,
        )
}

/// What a caller sees of a cached store and its picture.
pub fn cached_store_response(shown: &Shown<StoreCache>) -> (response: StoreResponse)
    ensures
        response.store_id == shown.entry.store_id,
        response.sales_associate_id == shown.entry.sales_associate_id,
        response.name == shown.entry.name,
        response.description == shown.entry.description,
        response.operational_status == shown.entry.operational_status,
        response.image == shown.image,
{
    StoreResponse {
        store_id: shown.entry.store_id.clone(),
        sales_associate_id: shown.entry.sales_associate_id.clone(),
        name: shown.entry.name.clone(),
        description: shown.entry.description.clone(),
        operational_status: shown.entry.operational_status.clone(),
        image: shown.image.clone(),
    }
}

fn show_cached(cached: Vec<Pictured<StoreCache>>) -> (responses: Vec<StoreResponse>)
    ensures
        shows_cached_stores(responses@, cached@),
{
    let shown = show_pictured(cached);
    let responses = map_all(&shown, cached_store_response);
    assert(shows_pictured(shown@, cached@));
    responses
}

/// Answers a request for all stores.
///
/// From the cache: every cached store whose picture the store still has, in
/// the cached order, with that picture; the others are left out. From the
/// store: every store it gave, and what is then cached for a minute is every
/// one of them without its picture, in the same order.
pub fn view_all_stores(source: ReadSource<Vec<Pictured<StoreCache>>, Vec<StoreRecord>>) -> (served:
    Served<Vec<StoreResponse>, Vec<StoreCache>>)
    ensures
        match source {
            ReadSource::Cache(cached) => served.handled.succeeds() && shows_cached_stores(
                served.handled.data()@,
                cached@,
            ) && served.handled.leaves_cache() && served.to_cache is None,
            ReadSource::Store(Ok(records)) => served.handled.succeeds() && shows_stores(
                served.handled.data()@,
                records@,
            ) && served.handled.refreshes(all_stores_key(), STORES_TTL)
                && served.to_cache is Some && caches_stores(served.to_cache->0@, records@),
            ReadSource::Store(Err(detail)) => served.handled.fails_with(
                "Database error: "@ + detail@,
            ) && served.handled.leaves_cache() && served.to_cache is None,
        },
{
    match source {
        ReadSource::Cache(cached) => Served {
            handled: done(show_cached(cached)),
            to_cache: None,
        },
        ReadSource::Store(Ok(records)) => Served {
            handled: served_from_store(
                map_all(&records, store_response),
                ALL_STORES_KEY,
                STORES_TTL,
            ),
            to_cache: Some(store_cache_entries(&records)),
        },
        ReadSource::Store(Err(detail)) => Served {
            handled: failed("Database error: ", detail.as_str()),
            to_cache: None,
        },
    }
}

/// The record of a new store: the request, field by field.
pub fn new_store(payload: CreateStoreRequest) -> (record: StoreRecord)
    ensures
        record.store_id == payload.store_id,
        record.sales_associate_id == payload.sales_associate_id,
        record.name == payload.name,
        record.description == payload.description,
        record.operational_status == payload.operational_status,
        record.image == payload.image,
{
    StoreRecord {
        store_id: payload.store_id,
        sales_associate_id: payload.sales_associate_id,
        name: payload.name,
        description: payload.description,
        operational_status: payload.operational_status,
        image: payload.image,
    }
}

/// Answers a request to create a store, once the store has inserted it.
pub fn create_store(inserted: Result<StoreRecord, String>) -> (handled: Handled<StoreRecord>)
    ensures
        match inserted {
            Ok(record) => handled.succeeds_with(record) && handled.invalidates(all_stores_key()),
            Err(detail) => handled.fails_with("Failed to create store: "@ + detail@)
                && handled.leaves_cache(),
        },
{
    saved(inserted, ALL_STORES_KEY, "Failed to create store: ")
}

/// The store `existing` with everything but its identifier taken from
/// `payload`.
pub open spec fn store_with(existing: StoreRecord, payload: UpdateStoreRequest) -> StoreRecord {
    StoreRecord {
        store_id: existing.store_id,
        sales_associate_id: payload.sales_associate_id,
        name: payload.name,
        description: payload.description,
        operational_status: payload.operational_status,
        image: payload.image,
    }
}

/// Decides a request to change a store, once the store was looked up: it is to
/// be written with the request's values.
pub fn update_store(found: Result<Option<StoreRecord>, String>, payload: UpdateStoreRequest) -> (plan:
    UpdatePlan<StoreRecord, StoreRecord>)
    ensures
        match found {
            Ok(Some(existing)) => plan == UpdatePlan::<StoreRecord, StoreRecord>::Write(
                store_with(existing, payload),
            ),
            Ok(None) => plan matches UpdatePlan::Answer(handled) && handled.fails_with(
                "No store found with ID: "@ + payload.store_id@,
            ) && handled.leaves_cache(),
            Err(detail) => plan matches UpdatePlan::Answer(handled) && handled.fails_with(
                "Database error while updating store: "@ + detail@,
            ) && handled.leaves_cache(),
        },
{
    match found_for_update(
        found,
        payload.store_id.as_str(),
        "No store found with ID: ",
        "Database error while updating store: ",
    ) {
        UpdatePlan::Write(existing) => UpdatePlan::Write(
            StoreRecord {
                store_id: existing.store_id,
                sales_associate_id: payload.sales_associate_id,
                name: payload.name,
                description: payload.description,
                operational_status: payload.operational_status,
                image: payload.image,
            },
        ),
        UpdatePlan::Answer(handled) => UpdatePlan::Answer(handled),
    }
}

/// Answers a request that changed a store, once the store has written it.
pub fn store_updated(updated: Result<StoreRecord, String>) -> (handled: Handled<StoreRecord>)
    ensures
        match updated {
            Ok(record) => handled.succeeds_with(record) && handled.invalidates(all_stores_key()),
            Err(detail) => handled.fails_with("Failed to update store: "@ + detail@)
                && handled.leaves_cache(),
        },
{
    saved(updated, ALL_STORES_KEY, "Failed to update store: ")
}

/// Answers a request to delete a store, from the number of rows the store
/// removed.
pub fn delete_store(payload: &DeleteStoreRequest, rows_affected: Result<u64, String>) -> (handled:
    Handled<()>)
    ensures
        match rows_affected {
            Ok(rows) => if rows == 0 {
                handled.fails_with("No store found with ID: "@ + payload.store_id@)
                    && handled.leaves_cache()
            } else {
                handled.succeeds_with(()) && handled.invalidates(all_stores_key())
            },
            Err(detail) => handled.fails_with("Failed to delete store: "@ + detail@)
                && handled.leaves_cache(),
        },
{
    removed(
        rows_affected,
        payload.store_id.as_str(),
        ALL_STORES_KEY,
        "No store found with ID: ",
        "Failed to delete store: ",
    )
}

} // verus!
