//! Menus, rides, souvenirs and proposals: what their handlers answer, given
//! what the cache and the store gave them.
//!
//! Their records carry prices, which this crate does not compute with, so a
//! record passes through these functions as the caller holds it.

use vstd::prelude::*;
use vstd::string::*;
use crate::outside::utc_now_in_layout;
use crate::response::{
    found_for_update, key_texts, read_list, read_one, removed_all, saved, saved_all,
    served_from_cache, served_from_store, turned_down, two_keys, written, CacheAction, Handled,
    ReadSource, UpdatePlan,
};
use crate::text::join2;

verus! {

/// A request to delete a menu.
pub struct DeleteMenuRequest {
    pub menu_id: String,
}

/// A request to delete a ride.
pub struct DeleteRideRequest {
    pub ride_id: String,
}

/// Seconds for which what this module caches stays cached.
pub const CATALOG_TTL: usize = 60;

/// The key under which the list of all menus is cached.
pub const ALL_MENUS_KEY: &'static str = "get_all_menus_cache";

/// [`ALL_MENUS_KEY`], as contracts speak of it.
pub open spec fn all_menus_key() -> Seq<char> {
    ALL_MENUS_KEY@
}

/// The key under which the list of all rides is cached.
pub const ALL_RIDES_KEY: &'static str = "get_all_rides_cache";

/// [`ALL_RIDES_KEY`], as contracts speak of it.
pub open spec fn all_rides_key() -> Seq<char> {
    ALL_RIDES_KEY@
}

/// The key under which the list of all souvenirs is cached.
pub const ALL_SOUVENIRS_KEY: &'static str = "get_all_souvenirs_cache";

/// [`ALL_SOUVENIRS_KEY`], as contracts speak of it.
pub open spec fn all_souvenirs_key() -> Seq<char> {
    ALL_SOUVENIRS_KEY@
}

/// The key under which the list of all proposals is cached.
pub const ALL_PROPOSALS_KEY: &'static str = "all_proposals_cache";

/// [`ALL_PROPOSALS_KEY`], as contracts speak of it.
pub open spec fn all_proposals_key() -> Seq<char> {
    ALL_PROPOSALS_KEY@
}

/// The key under which one menu is cached.
pub open spec fn menu_key_of(menu_id: Seq<char>) -> Seq<char> {
    "menu_"@ + menu_id
}

/// The key under which the menu `menu_id` is cached.
pub fn menu_key(menu_id: &str) -> (key: String)
    ensures
        key@ == menu_key_of(menu_id@),
{
    join2("menu_", menu_id)
}

/// The keys under which the menu `menu_id` is cached: the list of all menus and
/// the menu's own.
pub fn menu_keys(menu_id: &str) -> (keys: Vec<String>)
    ensures
        key_texts(keys@) == seq![all_menus_key(), menu_key_of(menu_id@)],
{
    let own = menu_key(menu_id);
    two_keys(ALL_MENUS_KEY, own.as_str())
}

/// The key under which one ride is cached.
pub open spec fn ride_key_of(ride_id: Seq<char>) -> Seq<char> {
    "ride_"@ + ride_id
}

/// The key under which the ride `ride_id` is cached.
pub fn ride_key(ride_id: &str) -> (key: String)
    ensures
        key@ == ride_key_of(ride_id@),
{
    join2("ride_", ride_id)
}

/// The keys under which the ride `ride_id` is cached: the list of all rides and
/// the ride's own.
pub fn ride_keys(ride_id: &str) -> (keys: Vec<String>)
    ensures
        key_texts(keys@) == seq![all_rides_key(), ride_key_of(ride_id@)],
{
    let own = ride_key(ride_id);
    two_keys(ALL_RIDES_KEY, own.as_str())
}

/// The key under which one souvenir is cached.
pub open spec fn souvenir_key_of(souvenir_id: Seq<char>) -> Seq<char> {
    "souvenir_"@ + souvenir_id
}

/// The key under which the souvenir `souvenir_id` is cached.
pub fn souvenir_key(souvenir_id: &str) -> (key: String)
    ensures
        key@ == souvenir_key_of(souvenir_id@),
{
    join2("souvenir_", souvenir_id)
}

/// What a read of a whole list comes to: served from the cache, or served
/// from the store and then cached for a minute under `key`, or a failure
/// where the store could not be read.
pub open spec fn list_read<T>(handled: Handled<T>, source: ReadSource<T, T>, key: Seq<char>) -> bool {
    match source {
        ReadSource::Cache(cached) => handled.succeeds_with(cached) && handled.leaves_cache(),
        ReadSource::Store(Ok(data)) => handled.succeeds_with(data) && handled.refreshes(
            key,
            CATALOG_TTL,
        ),
        ReadSource::Store(Err(detail)) => handled.fails_with("Database error: "@ + detail@)
            && handled.leaves_cache(),
    }
}

/// What a read of one record comes to: served from the cache, or served from
/// the store and then cached for a minute under `key`, or a failure with
/// `missing` where the store has no such record, or a failure where the store
/// could not be read.
pub open spec fn item_read<T>(
    handled: Handled<T>,
    source: ReadSource<T, Option<T>>,
    key: Seq<char>,
    missing: Seq<char>,
) -> bool {
    match source {
        ReadSource::Cache(cached) => handled.succeeds_with(cached) && handled.leaves_cache(),
        ReadSource::Store(Ok(Some(data))) => handled.succeeds_with(data) && handled.refreshes(
            key,
            CATALOG_TTL,
        ),
        ReadSource::Store(Ok(None)) => handled.fails_with(missing) && handled.leaves_cache(),
        ReadSource::Store(Err(detail)) => handled.fails_with("Database error: "@ + detail@)
            && handled.leaves_cache(),
    }
}

/// Answers a request for all menus, with the menus that the cache held or
/// that the store gave.
pub fn view_all_menus<T>(source: ReadSource<T, T>) -> (handled: Handled<T>)
    ensures
        list_read(handled, source, all_menus_key()),
{
    read_list(source, ALL_MENUS_KEY, CATALOG_TTL, "Database error: ")
}

/// Answers a request for one menu, with the menu that the cache held or that
/// the store gave, cached under the menu's own key.
pub fn view_menu<T>(source: ReadSource<T, Option<T>>, menu_id: &str) -> (handled: Handled<T>)
    ensures
        item_read(handled, source, menu_key_of(menu_id@), "Menu not found"@),
{
    let key = menu_key(menu_id);
    read_one(source, key.as_str(), CATALOG_TTL, "Menu not found", "Database error: ")
}

/// Answers a request to create a menu, once the store has inserted it.
pub fn create_menu<R>(inserted: Result<R, String>) -> (handled: Handled<R>)
    ensures
        match inserted {
            Ok(record) => handled.succeeds_with(record) && handled.invalidates(all_menus_key()),
            Err(detail) => handled.fails_with("Failed to create menu: "@ + detail@)
                && handled.leaves_cache(),
        },
{
    saved(inserted, ALL_MENUS_KEY, "Failed to create menu: ")
}

/// Decides a request to change a menu, once the menu was looked up: the menu
/// found is to be written with the request's values.
pub fn update_menu<R>(found: Result<Option<R>, String>, menu_id: &str) -> (plan: UpdatePlan<R, R>)
    ensures
        match found {
            Ok(Some(record)) => plan == UpdatePlan::<R, R>::Write(record),
            Ok(None) => plan matches UpdatePlan::Answer(handled) && handled.fails_with(
                "No menu found with ID: "@ + menu_id@,
            ) && handled.leaves_cache(),
            Err(detail) => plan matches UpdatePlan::Answer(handled) && handled.fails_with(
                "Database error while updating menu: "@ + detail@,
            ) && handled.leaves_cache(),
        },
{
    found_for_update(found, menu_id, "No menu found with ID: ", "Database error while updating menu: ")
}

/// Answers a request that changed the menu `menu_id`, once the store has
/// written it: both keys under which the menu is cached are invalidated, the
/// list and its own.
pub fn menu_updated<R>(updated: Result<R, String>, menu_id: &str) -> (handled: Handled<R>)
    ensures
        match updated {
            Ok(record) => handled.succeeds_with(record) && handled.invalidates_all(
                seq![all_menus_key(), menu_key_of(menu_id@)],
            ),
            Err(detail) => handled.fails_with("Failed to update menu: "@ + detail@)
                && handled.leaves_cache(),
        },
{
    saved_all(updated, menu_keys(menu_id), "Failed to update menu: ")
}

/// Answers a request to delete a menu, from the number of rows the store
/// removed: a removal invalidates both keys under which the menu was cached.
pub fn delete_menu(payload: &DeleteMenuRequest, rows_affected: Result<u64, String>) -> (handled:
    Handled<()>)
    ensures
        match rows_affected {
            Ok(rows) => if rows == 0 {
                handled.fails_with("No menu found with ID: "@ + payload.menu_id@)
                    && handled.leaves_cache()
            } else {
                handled.succeeds_with(()) && handled.invalidates_all(
                    seq![all_menus_key(), menu_key_of(payload.menu_id@)],
                )
            },
            Err(detail) => handled.fails_with("Failed to delete menu: "@ + detail@)
                && handled.leaves_cache(),
        },
{
    removed_all(
        rows_affected,
        payload.menu_id.as_str(),
        menu_keys(payload.menu_id.as_str()),
        "No menu found with ID: ",
        "Failed to delete menu: ",
    )
}

/// Answers a request for all rides, with the rides that the cache held or
/// that the store gave, which are then cached for a minute. A read that the
/// store failed turns the request down with the store's account.
pub fn view_all_rides<T>(source: ReadSource<T, T>) -> (handled: Handled<T>)
    ensures
        match source {
            ReadSource::Cache(cached) => handled.succeeds_with(cached) && handled.leaves_cache(),
            ReadSource::Store(Ok(data)) => handled.succeeds_with(data) && handled.refreshes(
                all_rides_key(),
                CATALOG_TTL,
            ),
            ReadSource::Store(Err(detail)) => handled.aborts_with(detail@)
                && handled.leaves_cache(),
        },
{
    match source {
        ReadSource::Cache(cached) => served_from_cache(cached),
        ReadSource::Store(Ok(data)) => served_from_store(data, ALL_RIDES_KEY, CATALOG_TTL),
        ReadSource::Store(Err(detail)) => Handled {
            result: Err(detail),
            cache: CacheAction::Nothing,
        },
    }
}

/// Answers a request for one ride, with the ride that the cache held or that
/// the store gave, cached under the ride's own key.
pub fn view_ride<T>(source: ReadSource<T, Option<T>>, ride_id: &str) -> (handled: Handled<T>)
    ensures
        item_read(handled, source, ride_key_of(ride_id@), "ride not found"@),
{
    let key = ride_key(ride_id);
    read_one(source, key.as_str(), CATALOG_TTL, "ride not found", "Database error: ")
}

/// Answers a request to create a ride, once the store has inserted it.
pub fn create_ride<R>(inserted: Result<R, String>) -> (handled: Handled<R>)
    ensures
        match inserted {
            Ok(record) => handled.succeeds_with(record) && handled.invalidates(all_rides_key()),
            Err(detail) => handled.fails_with("Failed to create ride: "@ + detail@)
                && handled.leaves_cache(),
        },
{
    saved(inserted, ALL_RIDES_KEY, "Failed to create ride: ")
}

/// Decides a request to change a ride, once the ride was looked up: the ride
/// found is to be written with the request's values.
pub fn update_ride<R>(found: Result<Option<R>, String>, ride_id: &str) -> (plan: UpdatePlan<R, R>)
    ensures
        match found {
            Ok(Some(record)) => plan == UpdatePlan::<R, R>::Write(record),
            Ok(None) => plan matches UpdatePlan::Answer(handled) && handled.fails_with(
                "No ride found with ID: "@ + ride_id@,
            ) && handled.leaves_cache(),
            Err(detail) => plan matches UpdatePlan::Answer(handled) && handled.fails_with(
                "Database error while updating ride: "@ + detail@,
            ) && handled.leaves_cache(),
        },
{
    found_for_update(found, ride_id, "No ride found with ID: ", "Database error while updating ride: ")
}

/// Answers a request that changed the ride `ride_id`, once the store has
/// written it: both keys under which the ride is cached are invalidated, the
/// list and its own.
pub fn ride_updated<R>(updated: Result<R, String>, ride_id: &str) -> (handled: Handled<R>)
    ensures
        match updated {
            Ok(record) => handled.succeeds_with(record) && handled.invalidates_all(
                seq![all_rides_key(), ride_key_of(ride_id@)],
            ),
            Err(detail) => handled.fails_with("Failed to update ride: "@ + detail@)
                && handled.leaves_cache(),
        },
{
    saved_all(updated, ride_keys(ride_id), "Failed to update ride: ")
}

/// Answers a request to delete a ride, from the number of rows the store
/// removed: a removal invalidates both keys under which the ride was cached.
pub fn delete_ride(payload: &DeleteRideRequest, rows_affected: Result<u64, String>) -> (handled:
    Handled<()>)
    ensures
        match rows_affected {
            Ok(rows) => if rows == 0 {
                handled.fails_with("No ride found with ID: "@ + payload.ride_id@)
                    && handled.leaves_cache()
            } else {
                handled.succeeds_with(()) && handled.invalidates_all(
                    seq![all_rides_key(), ride_key_of(payload.ride_id@)],
                )
            },
            Err(detail) => handled.fails_with("Failed to delete ride: "@ + detail@)
                && handled.leaves_cache(),
        },
{
    removed_all(
        rows_affected,
        payload.ride_id.as_str(),
        ride_keys(payload.ride_id.as_str()),
        "No ride found with ID: ",
        "Failed to delete ride: ",
    )
}

/// Answers a request for all souvenirs, with the souvenirs that the cache
/// held or that the store gave.
pub fn view_all_souvenirs<T>(source: ReadSource<T, T>) -> (handled: Handled<T>)
    ensures
        list_read(handled, source, all_souvenirs_key()),
{
    read_list(source, ALL_SOUVENIRS_KEY, CATALOG_TTL, "Database error: ")
}

/// Answers a request for one souvenir, with the souvenir that the cache held
/// or that the store gave, cached under the souvenir's own key.
pub fn view_souvenir<T>(source: ReadSource<T, Option<T>>, souvenir_id: &str) -> (handled: Handled<
    T,
>)
    ensures
        item_read(handled, source, souvenir_key_of(souvenir_id@), "Souvenir not found"@),
{
    let key = souvenir_key(souvenir_id);
    read_one(source, key.as_str(), CATALOG_TTL, "Souvenir not found", "Database error: ")
}

/// Answers a request for all proposals, with the proposals that the cache
/// held or that the store gave, which are then cached for a minute. A read
/// that the store failed turns the request down.
pub fn view_all_proposal<T>(source: ReadSource<T, T>) -> (handled: Handled<T>)
    ensures
        match source {
            ReadSource::Cache(cached) => handled.succeeds_with(cached) && handled.leaves_cache(),
            ReadSource::Store(Ok(data)) => handled.succeeds_with(data) && handled.refreshes(
                all_proposals_key(),
                CATALOG_TTL,
            ),
            ReadSource::Store(Err(detail)) => handled.aborts_with(
                "Failed to retrieve proposals: "@ + detail@,
            ) && handled.leaves_cache(),
        },
{
    match source {
        ReadSource::Cache(cached) => served_from_cache(cached),
        ReadSource::Store(Ok(data)) => served_from_store(data, ALL_PROPOSALS_KEY, CATALOG_TTL),
        ReadSource::Store(Err(detail)) => turned_down(
            "Failed to retrieve proposals: ",
            detail.as_str(),
        ),
    }
}

/// What a new proposal is stored with besides what its sender wrote: the
/// date and the status.
pub struct ProposalStamp {
    pub date: String,
    pub status: String,
}

/// Stamps a new proposal: dated today, the month by its name, and pending.
pub fn create_proposal() -> (stamp: ProposalStamp)
    ensures
        stamp.status@ == "Pending"@,
{
    ProposalStamp { date: utc_now_in_layout("%B %d, %Y"), status: String::from_str("Pending") }
}

/// Answers a request to file a proposal, once the store has inserted it. An
/// insertion that the store failed turns the request down.
pub fn proposal_created<R>(inserted: Result<R, String>) -> (handled: Handled<R>)
    ensures
        match inserted {
            Ok(record) => handled.succeeds_with(record) && handled.invalidates(
                all_proposals_key(),
            ),
            Err(detail) => handled.aborts_with("Failed to create proposal: "@ + detail@)
                && handled.leaves_cache(),
        },
{
    match inserted {
        Ok(record) => written(record, ALL_PROPOSALS_KEY),
        Err(detail) => turned_down("Failed to create proposal: ", detail.as_str()),
    }
}

} // verus!
