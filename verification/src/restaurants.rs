//! Restaurants: what the restaurant handlers answer, given what the cache
//! and the store gave them.

use vstd::prelude::*;
use vstd::string::*;
use crate::outside::base64_text;
use crate::pictures::{picture_text, show_pictured, shows_pictured, with_picture, Pictured, Shown};
use crate::response::{
    done, failed, found_for_update, removed, saved, served_from_store, Handled, ReadSource,
    Served, UpdatePlan,
};
use crate::rows::map_all;

verus! {

/// A restaurant as the store holds it, with its picture.
pub struct RestaurantRecord {
    pub restaurant_id: String,
    pub name: String,
    pub description: String,
    pub cuisine_type: String,
    pub image: Vec<u8>,
    pub location: String,
    pub required_waiter: i32,
    pub required_chef: i32,
    pub operational_status: String,
    pub operational_start_hours: String,
    pub operational_end_hours: String,
}

/// A restaurant as a caller sees it, its picture as base64 text.
pub struct RestaurantResponse {
    pub restaurant_id: String,
    pub name: String,
    pub description: String,
    pub cuisine_type: String,
    pub image: String,
    pub location: String,
    pub required_waiter: i32,
    pub required_chef: i32,
    pub operational_status: String,
    pub operational_start_hours: String,
    pub operational_end_hours: String,
}

/// A restaurant as the cache holds it: everything but the picture.
pub struct RestaurantCache {
    pub restaurant_id: String,
    pub name: String,
    pub description: String,
    pub cuisine_type: String,
    pub location: String,
    pub required_waiter: i32,
    pub required_chef: i32,
    pub operational_status: String,
    pub operational_start_hours: String,
    pub operational_end_hours: String,
}

/// A request to create a restaurant.
pub struct CreateRestaurantRequest {
    pub restaurant_id: String,
    pub name: String,
    pub description: String,
    pub cuisine_type: String,
    pub image: Vec<u8>,
    pub location: String,
    pub required_waiter: i32,
    pub required_chef: i32,
    pub operational_status: String,
    pub operational_start_hours: String,
    pub operational_end_hours: String,
}

/// A request to change a restaurant: every field but the identifier is taken over.
pub struct UpdateRestaurantRequest {
    pub restaurant_id: String,
    pub name: String,
    pub description: String,
    pub cuisine_type: String,
    pub image: Vec<u8>,
    pub location: String,
    pub required_waiter: i32,
    pub required_chef: i32,
    pub operational_status: String,
    pub operational_start_hours: String,
    pub operational_end_hours: String,
}

/// A request to delete a restaurant.
pub struct DeleteRestaurantRequest {
    pub restaurant_id: String,
}

/// Seconds for which the list of restaurants stays cached.
pub const RESTAURANTS_TTL: usize = 60;

/// The key under which the list of all restaurants is cached.
pub const ALL_RESTAURANTS_KEY: &'static str = "get_all_restaurants_cache";

/// [`ALL_RESTAURANTS_KEY`], as contracts speak of it.
pub open spec fn all_restaurants_key() -> Seq<char> {
    ALL_RESTAURANTS_KEY@
}

/// Whether `response` shows `record`: the same in every field, the picture
/// as base64 text.
pub open spec fn shows_restaurant(response: RestaurantResponse, record: RestaurantRecord) -> bool {
    &&& response.restaurant_id == record.restaurant_id
    &&& response.name == record.name
    &&& response.description == record.description
    &&& response.cuisine_type == record.cuisine_type
    &&& response.location == record.location
    &&& response.required_waiter == record.required_waiter
    &&& response.required_chef == record.required_chef
    &&& response.operational_status == record.operational_status
    &&& response.operational_start_hours == record.operational_start_hours
    &&& response.operational_end_hours == record.operational_end_hours
    &&& response.image@ == base64_text(record.image@)
}

/// Whether `responses` shows `records`, one for one and in order.
pub open spec fn shows_restaurants(responses: Seq<RestaurantResponse>, records: Seq<RestaurantRecord>) -> bool {
    &&& responses.len() == records.len()
    &&& forall|i: int| 0 <= i < responses.len() ==> shows_restaurant(#[trigger] responses[i], records[i])
}

/// What a caller sees of `record`.
pub fn restaurant_response(record: &RestaurantRecord) -> (response: RestaurantResponse)
    ensures
        shows_restaurant(response, *record),
{
    RestaurantResponse {
        restaurant_id: record.restaurant_id.clone(),
        name: record.name.clone(),
        description: record.description.clone(),
        cuisine_type: record.cuisine_type.clone(),
        location: record.location.clone(),
        required_waiter: record.required_waiter,
        required_chef: record.required_chef,
        operational_status: record.operational_status.clone(),
        operational_start_hours: record.operational_start_hours.clone(),
        operational_end_hours: record.operational_end_hours.clone(),
        image: picture_text(&record.image),
    }
}

/// Whether `entry` holds `record` without its picture.
pub open spec fn caches_restaurant(entry: RestaurantCache, record: RestaurantRecord) -> bool {
    &&& entry.restaurant_id == record.restaurant_id
    &&& entry.name == record.name
    &&& entry.description == record.description
    &&& entry.cuisine_type == record.cuisine_type
    &&& entry.location == record.location
    &&& entry.required_waiter == record.required_waiter
    &&& entry.required_chef == record.required_chef
    &&& entry.operational_status == record.operational_status
    &&& entry.operational_start_hours == record.operational_start_hours
    &&& entry.operational_end_hours == record.operational_end_hours
}

/// Whether `entries` holds `records`, one for one and in order.
pub open spec fn caches_restaurants(entries: Seq<RestaurantCache>, records: Seq<RestaurantRecord>) -> bool {
    &&& entries.len() == records.len()
    &&& forall|i: int| 0 <= i < entries.len() ==> caches_restaurant(#[trigger] entries[i], records[i])
}

/// What the cache holds of `record`.
pub fn restaurant_cache(record: &RestaurantRecord) -> (entry: RestaurantCache)
    ensures
        caches_restaurant(entry, *record),
{
    RestaurantCache {
        restaurant_id: record.restaurant_id.clone(),
        name: record.name.clone(),
        description: record.description.clone(),
        cuisine_type: record.cuisine_type.clone(),
        location: record.location.clone(),
        required_waiter: record.required_waiter,
        required_chef: record.required_chef,
        operational_status: record.operational_status.clone(),
        operational_start_hours: record.operational_start_hours.clone(),
        operational_end_hours: record.operational_end_hours.clone(),
    }
}

/// What is cached of the restaurants that the store gave.
pub fn restaurant_cache_entries(records: &Vec<RestaurantRecord>) -> (entries: Vec<RestaurantCache>)
    ensures
        caches_restaurants(entries@, records@),
{
    map_all(records, restaurant_cache)
}

/// Whether `response` shows the cached `entry` with the picture `image`.
pub open spec fn shows_cached_restaurant(response: RestaurantResponse, entry: RestaurantCache, image: Seq<u8>) -> bool {
    &&& response.restaurant_id == entry.restaurant_id
    &&& response.name == entry.name
    &&& response.description == entry.description
    &&& response.cuisine_type == entry.cuisine_type
    &&& response.location == entry.location
    &&& response.required_waiter == entry.required_waiter
    &&& response.required_chef == entry.required_chef
    &&& response.operational_status == entry.operational_status
    &&& response.operational_start_hours == entry.operational_start_hours
    &&& response.operational_end_hours == entry.operational_end_hours
    &&& response.image@ == base64_text(image)
}

/// Whether `responses` shows those among `cached` whose picture the store
/// still has, one for one and in order.
pub open spec fn shows_cached_restaurants(
    responses: Seq<RestaurantResponse>,
    cached: Seq<Pictured<RestaurantCache>>,
) -> bool {
    let kept = with_picture(cached);
    &&& responses.len() == kept.len()
    &&& forall|i: int|
        0 <= i < responses.len() ==> shows_cached_restaurant(
            #[trigger] responses[i],
            kept[i].entry,
            kept[i].image->0@,
        )
}

/// What a caller sees of a cached restaurant and its picture.
pub fn cached_restaurant_response(shown: &Shown<RestaurantCache>) -> (response: RestaurantResponse)
    ensures
        response.restaurant_id == shown.entry.restaurant_id,
        response.name == shown.entry.name,
        response.description == shown.entry.description,
        response.cuisine_type == shown.entry.cuisine_type,
        response.location == shown.entry.location,
        response.required_waiter == shown.entry.required_waiter,
        response.required_chef == shown.entry.required_chef,
        response.operational_status == shown.entry.operational_status,
        response.operational_start_hours == shown.entry.operational_start_hours,
        response.operational_end_hours == shown.entry.operational_end_hours,
        response.image == shown.image,
{
    RestaurantResponse {
        restaurant_id: shown.entry.restaurant_id.clone(),
        name: shown.entry.name.clone(),
        description: shown.entry.description.clone(),
        cuisine_type: shown.entry.cuisine_type.clone(),
        location: shown.entry.location.clone(),
        required_waiter: shown.entry.required_waiter,
        required_chef: shown.entry.required_chef,
        operational_status: shown.entry.operational_status.clone(),
        operational_start_hours: shown.entry.operational_start_hours.clone(),
        operational_end_hours: shown.entry.operational_end_hours.clone(),
        image: shown.image.clone(),
    }
}

fn show_cached(cached: Vec<Pictured<RestaurantCache>>) -> (responses: Vec<RestaurantResponse>)
    ensures
        shows_cached_restaurants(responses@, cached@),
{
    let shown = show_pictured(cached);
    let responses = map_all(&shown, cached_restaurant_response);
    assert(shows_pictured(shown@, cached@));
    responses
}

/// Answers a request for all restaurants.
///
/// From the cache: every cached restaurant whose picture the store still has, in
/// the cached order, with that picture; the others are left out. From the
/// store: every restaurant it gave, and what is then cached for a minute is every
/// one of them without its picture, in the same order.
pub fn view_all_restaurants(source: ReadSource<Vec<Pictured<RestaurantCache>>, Vec<RestaurantRecord>>) -> (served:
    Served<Vec<RestaurantResponse>, Vec<RestaurantCache>>)
    ensures
        match source {
            ReadSource::Cache(cached) => served.handled.succeeds() && shows_cached_restaurants(
                served.handled.data()@,
                cached@,
            ) && served.handled.leaves_cache() && served.to_cache is None,
            ReadSource::Store(Ok(records)) => served.handled.succeeds() && shows_restaurants(
                served.handled.data()@,
                records@,
            ) && served.handled.refreshes(all_restaurants_key(), RESTAURANTS_TTL)
                && served.to_cache is Some && caches_restaurants(served.to_cache->0@, records@),
            ReadSource::Store(Err(detail)) => served.handled.fails_with(
                "Database error: "@ + detail@,
            ) && served.handled.leaves_cache() && served.to_cache is None,
        },
{
    match source {
        ReadSource::Cache(cached) => Served {
            handled: done(show_cached(cached)),
            to_cache: None,
        },
        ReadSource::Store(Ok(records)) => Served {
            handled: served_from_store(
                map_all(&records, restaurant_response),
                ALL_RESTAURANTS_KEY,
                RESTAURANTS_TTL,
            ),
            to_cache: Some(restaurant_cache_entries(&records)),
        },
        ReadSource::Store(Err(detail)) => Served {
            handled: failed("Database error: ", detail.as_str()),
            to_cache: None,
        },
    }
}

/// The record of a new restaurant: the request, field by field.
pub fn new_restaurant(payload: CreateRestaurantRequest) -> (record: RestaurantRecord)
    ensures
        record.restaurant_id == payload.restaurant_id,
        record.name == payload.name,
        record.description == payload.description,
        record.cuisine_type == payload.cuisine_type,
        record.location == payload.location,
        record.required_waiter == payload.required_waiter,
        record.required_chef == payload.required_chef,
        record.operational_status == payload.operational_status,
        record.operational_start_hours == payload.operational_start_hours,
        record.operational_end_hours == payload.operational_end_hours,
        record.image == payload.image,
{
    RestaurantRecord {
        restaurant_id: payload.restaurant_id,
        name: payload.name,
        description: payload.description,
        cuisine_type: payload.cuisine_type,
        location: payload.location,
        required_waiter: payload.required_waiter,
        required_chef: payload.required_chef,
        operational_status: payload.operational_status,
        operational_start_hours: payload.operational_start_hours,
        operational_end_hours: payload.operational_end_hours,
        image: payload.image,
    }
}

/// Answers a request to create a restaurant, once the store has inserted it.
pub fn create_restaurant(inserted: Result<RestaurantRecord, String>) -> (handled: Handled<RestaurantRecord>)
    ensures
        match inserted {
            Ok(record) => handled.succeeds_with(record) && handled.invalidates(all_restaurants_key()),
            Err(detail) => handled.fails_with("Failed to create restaurant: "@ + detail@)
                && handled.leaves_cache(),
        },
{
    saved(inserted, ALL_RESTAURANTS_KEY, "Failed to create restaurant: ")
}

/// The restaurant `existing` with everything but its identifier taken from
/// `payload`.
pub open spec fn restaurant_with(existing: RestaurantRecord, payload: UpdateRestaurantRequest) -> RestaurantRecord {
    RestaurantRecord {
        restaurant_id: existing.restaurant_id,
        name: payload.name,
        description: payload.description,
        cuisine_type: payload.cuisine_type,
        location: payload.location,
        required_waiter: payload.required_waiter,
        required_chef: payload.required_chef,
        operational_status: payload.operational_status,
        operational_start_hours: payload.operational_start_hours,
        operational_end_hours: payload.operational_end_hours,
        image: payload.image,
    }
}

/// Decides a request to change a restaurant, once the restaurant was looked up: it is to
/// be written with the request's values.
pub fn update_restaurant(found: Result<Option<RestaurantRecord>, String>, payload: UpdateRestaurantRequest) -> (plan:
    UpdatePlan<RestaurantRecord, RestaurantRecord>)
    ensures
        match found {
            Ok(Some(existing)) => plan == UpdatePlan::<RestaurantRecord, RestaurantRecord>::Write(
                restaurant_with(existing, payload),
            ),
            Ok(None) => plan matches UpdatePlan::Answer(handled) && handled.fails_with(
                "No restaurant found with ID: "@ + payload.restaurant_id@,
            ) && handled.leaves_cache(),
            Err(detail) => plan matches UpdatePlan::Answer(handled) && handled.fails_with(
                "Database error while updating restaurant: "@ + detail@,
            ) && handled.leaves_cache(),
        },
{
    match found_for_update(
        found,
        payload.restaurant_id.as_str(),
        "No restaurant found with ID: ",
        "Database error while updating restaurant: ",
    ) {
        UpdatePlan::Write(existing) => UpdatePlan::Write(
            RestaurantRecord {
                restaurant_id: existing.restaurant_id,
                name: payload.name,
                description: payload.description,
                cuisine_type: payload.cuisine_type,
                location: payload.location,
                required_waiter: payload.required_waiter,
                required_chef: payload.required_chef,
                operational_status: payload.operational_status,
                operational_start_hours: payload.operational_start_hours,
                operational_end_hours: payload.operational_end_hours,
                image: payload.image,
            },
        ),
        UpdatePlan::Answer(handled) => UpdatePlan::Answer(handled),
    }
}

/// Answers a request that changed a restaurant, once the store has written it.
pub fn restaurant_updated(updated: Result<RestaurantRecord, String>) -> (handled: Handled<RestaurantRecord>)
    ensures
        match updated {
            Ok(record) => handled.succeeds_with(record) && handled.invalidates(all_restaurants_key()),
            Err(detail) => handled.fails_with("Failed to update restaurant: "@ + detail@)
                && handled.leaves_cache(),
        },
{
    saved(updated, ALL_RESTAURANTS_KEY, "Failed to update restaurant: ")
}

/// Answers a request to delete a restaurant, from the number of rows the store
/// removed.
pub fn delete_restaurant(payload: &DeleteRestaurantRequest, rows_affected: Result<u64, String>) -> (handled:
    Handled<()>)
    ensures
        match rows_affected {
            Ok(rows) => if rows == 0 {
                handled.fails_with("No restaurant found with ID: "@ + payload.restaurant_id@)
                    && handled.leaves_cache()
            } else {
                handled.succeeds_with(()) && handled.invalidates(all_restaurants_key())
            },
            Err(detail) => handled.fails_with("Failed to delete restaurant: "@ + detail@)
                && handled.leaves_cache(),
        },
{
    removed(
        rows_affected,
        payload.restaurant_id.as_str(),
        ALL_RESTAURANTS_KEY,
        "No restaurant found with ID: ",
        "Failed to delete restaurant: ",
    )
}

} // verus!
