//! Users and staff: what their handlers answer, given what the cache and the
//! store gave them.
//!
//! An account's balance plays no part in any decision made here, so the
//! record of a user is held without it; where a handler hands a whole
//! account back, it hands back whatever the caller gave it.

use vstd::prelude::*;
use vstd::string::*;
use crate::catalog::{all_rides_key, ride_key_of, ride_keys};
use crate::response::{
    done, failed, failed_with, key_texts, read_one, saved_all, served_from_store, two_keys,
    written_all, CacheAction, Handled, ReadSource, UpdatePlan,
};
use crate::rows::map_all;
use crate::text::{join2, join3};

verus! {

/// What the store holds of a user, the balance left out.
pub struct UserRecord {
    pub user_id: String,
    pub name: String,
    pub email: String,
    pub role: String,
    pub password: Option<String>,
    pub status: Option<String>,
    pub restaurant_id: Option<String>,
}

/// A user in brief.
pub struct UserLiteResponse {
    pub user_id: String,
    pub name: String,
    pub role: String,
}

/// A member of the ride staff.
pub struct RideStaffResponse {
    pub user_id: String,
    pub name: String,
    pub role: String,
    pub status: Option<String>,
}

/// A request to assign a member of staff to a restaurant, or, with no
/// restaurant named, to take them off theirs.
pub struct AssignRestaurantStaffRequest {
    pub staff_id: String,
    pub restaurant_id: Option<String>,
}

/// A request to give a ride the member of staff who runs it.
pub struct AssignRideStaffRequest {
    pub ride_id: String,
    pub staff_id: String,
}

/// Seconds for which an account stays cached.
pub const USER_TTL: usize = 3600;

/// The key under which the account of one user is cached.
pub open spec fn user_key_of(user_id: Seq<char>) -> Seq<char> {
    "user_"@ + user_id
}

/// The key under which one user is cached in brief.
pub open spec fn user_lite_key_of(user_id: Seq<char>) -> Seq<char> {
    "user_lite_"@ + user_id
}

/// The key under which the account of `user_id` is cached.
pub fn user_key(user_id: &str) -> (key: String)
    ensures
        key@ == user_key_of(user_id@),
{
    join2("user_", user_id)
}

/// The key under which `user_id` is cached in brief.
pub fn user_lite_key(user_id: &str) -> (key: String)
    ensures
        key@ == user_lite_key_of(user_id@),
{
    join2("user_lite_", user_id)
}

/// The keys under which the user `user_id` is cached: the account and the
/// account in brief.
pub open spec fn user_keys_of(user_id: Seq<char>) -> Seq<Seq<char>> {
    seq![user_key_of(user_id), user_lite_key_of(user_id)]
}

/// The keys under which the user `user_id` is cached.
pub fn user_keys(user_id: &str) -> (keys: Vec<String>)
    ensures
        key_texts(keys@) == user_keys_of(user_id@),
{
    let account = user_key(user_id);
    let brief = user_lite_key(user_id);
    two_keys(account.as_str(), brief.as_str())
}

/// Whether `response` shows `record` in brief.
pub open spec fn shows_user_lite(response: UserLiteResponse, record: UserRecord) -> bool {
    &&& response.user_id == record.user_id
    &&& response.name == record.name
    &&& response.role == record.role
}

/// Whether `response` shows `record` as a member of the ride staff.
pub open spec fn shows_ride_staff(response: RideStaffResponse, record: UserRecord) -> bool {
    &&& response.user_id == record.user_id
    &&& response.name == record.name
    &&& response.role == record.role
    &&& response.status == record.status
}

/// `record` in brief.
pub fn user_lite(record: &UserRecord) -> (response: UserLiteResponse)
    ensures
        shows_user_lite(response, *record),
{
    UserLiteResponse {
        user_id: record.user_id.clone(),
        name: record.name.clone(),
        role: record.role.clone(),
    }
}

/// `record` as a member of the ride staff.
pub fn ride_staff(record: &UserRecord) -> (response: RideStaffResponse)
    ensures
        shows_ride_staff(response, *record),
{
    RideStaffResponse {
        user_id: record.user_id.clone(),
        name: record.name.clone(),
        role: record.role.clone(),
        status: record.status.clone(),
    }
}

/// Answers a request for all users in brief, from the records the store
/// gave. Nothing is cached.
pub fn get_all_users_lite(records: Result<Vec<UserRecord>, String>) -> (handled: Handled<
    Vec<UserLiteResponse>,
>)
    ensures
        handled.leaves_cache(),
        match records {
            Ok(rows) => handled.succeeds() && handled.data()@.len() == rows@.len() && forall|
                i: int,
            |
                0 <= i < rows@.len() ==> shows_user_lite(#[trigger] handled.data()@[i], rows@[i]),
            Err(detail) => handled.fails_with("Database error: "@ + detail@),
        },
{
    match records {
        Ok(rows) => done(map_all(&rows, user_lite)),
        Err(detail) => failed("Database error: ", detail.as_str()),
    }
}

/// Answers a request for the ride staff, from the records of the ride staff
/// that the store gave. Nothing is cached.
pub fn get_all_ride_staff(records: Result<Vec<UserRecord>, String>) -> (handled: Handled<
    Vec<RideStaffResponse>,
>)
    ensures
        handled.leaves_cache(),
        match records {
            Ok(rows) => handled.succeeds() && handled.data()@.len() == rows@.len() && forall|
                i: int,
            |
                0 <= i < rows@.len() ==> shows_ride_staff(#[trigger] handled.data()@[i], rows@[i]),
            Err(detail) => handled.fails_with("Database error: "@ + detail@),
        },
{
    match records {
        Ok(rows) => done(map_all(&rows, ride_staff)),
        Err(detail) => failed("Database error: ", detail.as_str()),
    }
}

/// Answers a request for all accounts, from what the store gave. Nothing is
/// cached.
pub fn get_all_users<T>(accounts: Result<T, String>) -> (handled: Handled<T>)
    ensures
        handled.leaves_cache(),
        match accounts {
            Ok(data) => handled.succeeds_with(data),
            Err(detail) => handled.fails_with("Database error: "@ + detail@),
        },
{
    match accounts {
        Ok(data) => done(data),
        Err(detail) => failed("Database error: ", detail.as_str()),
    }
}

/// Answers a request for one user in brief, from the record that the cache
/// held or that the store gave; that of the store is then cached for an hour
/// under the user's key.
pub fn get_user_lite_by_id(source: ReadSource<UserRecord, Option<UserRecord>>, user_id: &str) -> (handled:
    Handled<UserLiteResponse>)
    ensures
        match source {
            ReadSource::Cache(cached) => handled.succeeds() && shows_user_lite(
                handled.data(),
                cached,
            ) && handled.leaves_cache(),
            ReadSource::Store(Ok(Some(record))) => handled.succeeds() && shows_user_lite(
                handled.data(),
                record,
            ) && handled.refreshes(user_lite_key_of(user_id@), USER_TTL),
            ReadSource::Store(Ok(None)) => handled.fails_with("User not found"@)
                && handled.leaves_cache(),
            ReadSource::Store(Err(detail)) => handled.fails_with("Database error: "@ + detail@)
                && handled.leaves_cache(),
        },
{
    match source {
        ReadSource::Cache(cached) => done(user_lite(&cached)),
        ReadSource::Store(Ok(Some(record))) => {
            let key = user_lite_key(user_id);
            served_from_store(user_lite(&record), key.as_str(), USER_TTL)
        },
        ReadSource::Store(Ok(None)) => failed_with(String::from_str("User not found")),
        ReadSource::Store(Err(detail)) => failed("Database error: ", detail.as_str()),
    }
}

/// What a read of one account comes to: served from the cache, or served
/// from the store and then cached for an hour under the user's key, or a
/// failure where the store has no such user or could not be read.
pub open spec fn account_read<T>(
    handled: Handled<T>,
    source: ReadSource<T, Option<T>>,
    user_id: Seq<char>,
) -> bool {
    match source {
        ReadSource::Cache(cached) => handled.succeeds_with(cached) && handled.leaves_cache(),
        ReadSource::Store(Ok(Some(account))) => handled.succeeds_with(account)
            && handled.refreshes(user_key_of(user_id), USER_TTL),
        ReadSource::Store(Ok(None)) => handled.fails_with("User not found"@)
            && handled.leaves_cache(),
        ReadSource::Store(Err(detail)) => handled.fails_with("Database error: "@ + detail@)
            && handled.leaves_cache(),
    }
}

/// Answers a customer's login with the account that the cache held or that
/// the store gave.
pub fn login_user<T>(source: ReadSource<T, Option<T>>, user_id: &str) -> (handled: Handled<T>)
    ensures
        account_read(handled, source, user_id@),
{
    let key = user_key(user_id);
    read_one(source, key.as_str(), USER_TTL, "User not found", "Database error: ")
}

/// Answers a request for a user's balance with the account that the cache
/// held or that the store gave.
pub fn get_balance<T>(source: ReadSource<T, Option<T>>, user_id: &str) -> (handled: Handled<T>)
    ensures
        account_read(handled, source, user_id@),
{
    let key = user_key(user_id);
    read_one(source, key.as_str(), USER_TTL, "User not found", "Database error: ")
}

/// How a staff login ends for `user`, as a message of refusal, or `None`
/// where it is granted.
///
/// Customers are no staff. A member of staff needs a password on record, and
/// it has to be the one given.
pub open spec fn staff_refusal(user: UserRecord, password: Seq<char>) -> Option<Seq<char>> {
    if user.role@ == "Customer"@ {
        Some("User is not authorized as staff"@)
    } else {
        match user.password {
            Some(stored) => if stored@ == password {
                None
            } else {
                Some("Invalid password"@)
            },
            None => Some("Password is required for staff login"@),
        }
    }
}

/// Answers a staff login, from the record of the user that the store gave.
///
/// A login that is granted hands the record back and has the account cached
/// for an hour under the user's key. Every refusal leaves the cache alone.
pub fn staff_login(found: Result<Option<UserRecord>, String>, user_id: &str, password: &str) -> (handled:
    Handled<UserRecord>)
    ensures
        match found {
            Ok(Some(user)) => match staff_refusal(user, password@) {
                None => handled.succeeds_with(user) && handled.refreshes(
                    user_key_of(user_id@),
                    USER_TTL,
                ),
                Some(text) => handled.fails_with(text) && handled.leaves_cache(),
            },
            Ok(None) => handled.fails_with("User not found"@) && handled.leaves_cache(),
            Err(detail) => handled.fails_with("Database error: "@ + detail@)
                && handled.leaves_cache(),
        },
{
    match found {
        Ok(Some(user)) => {
            if user.role == String::from_str("Customer") {
                return failed_with(String::from_str("User is not authorized as staff"));
            }
            let matches = match &user.password {
                Some(stored) => Some(*stored == String::from_str(password)),
                None => None,
            };
            match matches {
                Some(true) => {
                    let key = user_key(user_id);
                    served_from_store(user, key.as_str(), USER_TTL)
                },
                Some(false) => failed_with(String::from_str("Invalid password")),
                None => failed_with(String::from_str("Password is required for staff login")),
            }
        },
        Ok(None) => failed_with(String::from_str("User not found")),
        Err(detail) => failed("Database error: ", detail.as_str()),
    }
}

/// Decides a top-up, once the account was looked up: the account found is
/// to be written with the amount added.
pub fn top_up_balance<T>(found: Result<Option<T>, String>) -> (plan: UpdatePlan<T, T>)
    ensures
        match found {
            Ok(Some(account)) => plan == UpdatePlan::<T, T>::Write(account),
            Ok(None) => plan matches UpdatePlan::Answer(handled) && handled.fails_with(
                "User not found"@,
            ) && handled.leaves_cache(),
            Err(detail) => plan matches UpdatePlan::Answer(handled) && handled.fails_with(
                "Database error: "@ + detail@,
            ) && handled.leaves_cache(),
        },
{
    match found {
        Ok(Some(account)) => UpdatePlan::Write(account),
        Ok(None) => UpdatePlan::Answer(failed_with(String::from_str("User not found"))),
        Err(detail) => UpdatePlan::Answer(failed("Database error: ", detail.as_str())),
    }
}

/// Answers a top-up, once the store has written the account: the account is
/// handed back, and both keys under which the user is cached are invalidated,
/// so that the next read shows the new balance.
pub fn balance_topped_up<T>(updated: Result<T, String>, user_id: &str) -> (handled: Handled<T>)
    ensures
        match updated {
            Ok(account) => handled.succeeds_with(account) && handled.invalidates_all(
                user_keys_of(user_id@),
            ),
            Err(detail) => handled.fails_with("Failed to top up: "@ + detail@)
                && handled.leaves_cache(),
        },
{
    saved_all(updated, user_keys(user_id), "Failed to top up: ")
}

/// The role a new customer is stored with.
pub fn customer_role() -> (role: String)
    ensures
        role@ == "Customer"@,
{
    String::from_str("Customer")
}

/// Answers a request to create a customer, once the store has inserted the
/// account. Nothing is cached.
pub fn create_customer<T>(inserted: Result<T, String>) -> (handled: Handled<T>)
    ensures
        handled.leaves_cache(),
        match inserted {
            Ok(account) => handled.succeeds_with(account),
            Err(detail) => handled.fails_with("Failed to create customer: "@ + detail@),
        },
{
    match inserted {
        Ok(account) => done(account),
        Err(detail) => failed("Failed to create customer: ", detail.as_str()),
    }
}

/// Decides a request to assign a member of staff to a restaurant, or to take
/// them off theirs, once the member was looked up: the record is to be
/// written with the restaurant of the request.
pub fn assign_restaurant_staff(
    found: Result<Option<UserRecord>, String>,
    payload: AssignRestaurantStaffRequest,
) -> (plan: UpdatePlan<UserRecord, ()>)
    ensures
        match found {
            Ok(Some(existing)) => plan == UpdatePlan::<UserRecord, ()>::Write(
                UserRecord { restaurant_id: payload.restaurant_id, ..existing },
            ),
            Ok(None) => plan matches UpdatePlan::Answer(handled) && handled.fails_with(
                "Staff dengan ID "@ + payload.staff_id@ + " tidak ditemukan"@,
            ) && handled.leaves_cache(),
            Err(detail) => plan matches UpdatePlan::Answer(handled) && handled.fails_with(
                "Kesalahan database: "@ + detail@,
            ) && handled.leaves_cache(),
        },
{
    match found {
        Ok(Some(existing)) => {
            let mut record = existing;
            record.restaurant_id = payload.restaurant_id;
            UpdatePlan::Write(record)
        },
        Ok(None) => UpdatePlan::Answer(
            failed_with(join3("Staff dengan ID ", payload.staff_id.as_str(), " tidak ditemukan")),
        ),
        Err(detail) => UpdatePlan::Answer(failed("Kesalahan database: ", detail.as_str())),
    }
}

/// Answers a request to assign the member of staff `staff_id` to a
/// restaurant, once the store has written the record: both keys under which
/// the member is cached are invalidated.
pub fn restaurant_staff_assigned(updated: Result<(), String>, staff_id: &str) -> (handled: Handled<
    (),
>)
    ensures
        match updated {
            Ok(_) => handled.succeeds_with(()) && handled.invalidates_all(
                user_keys_of(staff_id@),
            ),
            Err(detail) => handled.fails_with("Gagal memperbarui staff: "@ + detail@)
                && handled.leaves_cache(),
        },
{
    saved_all(updated, user_keys(staff_id), "Gagal memperbarui staff: ")
}

/// What becomes of the member of staff who is to run a ride.
pub enum StaffCheck<T> {
    /// Go on with this record: the member, marked as working.
    Proceed(UserRecord),
    /// Answer at once.
    Answer(Handled<T>),
}

/// Checks the member of staff who is to run a ride, from the record of the
/// ride staff with the request's identifier, if the store has one.
///
/// The member found is to be written as working. Where the store has no
/// such member of the ride staff the request fails; a lookup that the store
/// failed turns it down with the store's account.
pub fn assign_ride_staff<T>(staff: Result<Option<UserRecord>, String>) -> (check: StaffCheck<T>)
    ensures
        match staff {
            Ok(Some(member)) => check matches StaffCheck::Proceed(working) && working.status
                matches Some(status) && status@ == "Working"@ && working.user_id == member.user_id
                && working.name == member.name && working.email == member.email && working.role
                == member.role && working.password == member.password && working.restaurant_id
                == member.restaurant_id,
            Ok(None) => check matches StaffCheck::Answer(handled) && handled.fails_with(
                "Staff ID tidak valid atau bukan Ride Staff"@,
            ) && handled.leaves_cache(),
            Err(detail) => check matches StaffCheck::Answer(handled) && handled.aborts_with(
                detail@,
            ) && handled.leaves_cache(),
        },
{
    match staff {
        Ok(Some(member)) => {
            let mut working = member;
            working.status = Some(String::from_str("Working"));
            StaffCheck::Proceed(working)
        },
        Ok(None) => StaffCheck::Answer(
            failed_with(String::from_str("Staff ID tidak valid atau bukan Ride Staff")),
        ),
        Err(detail) => StaffCheck::Answer(
            Handled { result: Err(detail), cache: CacheAction::Nothing },
        ),
    }
}

/// Decides what is written to a ride that gets a member of staff, once the
/// ride was looked up: the ride found. A ride that is not there fails; a
/// lookup that the store failed turns the request down with the store's
/// account.
pub fn ride_for_staff<R>(ride: Result<Option<R>, String>, payload: &AssignRideStaffRequest) -> (plan:
    UpdatePlan<R, R>)
    ensures
        match ride {
            Ok(Some(found)) => plan == UpdatePlan::<R, R>::Write(found),
            Ok(None) => plan matches UpdatePlan::Answer(handled) && handled.fails_with(
                "Ride ID "@ + payload.ride_id@ + " tidak ditemukan"@,
            ) && handled.leaves_cache(),
            Err(detail) => plan matches UpdatePlan::Answer(handled) && handled.aborts_with(
                detail@,
            ) && handled.leaves_cache(),
        },
{
    match ride {
        Ok(Some(found)) => UpdatePlan::Write(found),
        Ok(None) => UpdatePlan::Answer(
            failed_with(join3("Ride ID ", payload.ride_id.as_str(), " tidak ditemukan")),
        ),
        Err(detail) => UpdatePlan::Answer(
            Handled { result: Err(detail), cache: CacheAction::Nothing },
        ),
    }
}

/// The keys that giving the ride `ride_id` the member of staff `staff_id`
/// invalidates once both were written: the two of the ride and the two of the
/// member.
pub open spec fn assignment_keys_of(ride_id: Seq<char>, staff_id: Seq<char>) -> Seq<Seq<char>> {
    seq![all_rides_key(), ride_key_of(ride_id), user_key_of(staff_id), user_lite_key_of(staff_id)]
}

/// Answers a request to give a ride a member of staff, once the store has
/// written the ride and then the member.
///
/// Where both were written the ride is handed back, and the keys of the ride
/// and of the member are invalidated. A write that the store failed turns the
/// request down with the store's account, that of the ride first; where the
/// ride was written and the member was not, the keys of the ride are
/// invalidated all the same, for the ride has changed.
pub fn ride_staff_assigned<R>(
    ride: Result<R, String>,
    member: Result<(), String>,
    payload: &AssignRideStaffRequest,
) -> (handled: Handled<R>)
    ensures
        match ride {
            Ok(updated) => match member {
                Ok(_) => handled.succeeds_with(updated) && handled.invalidates_all(
                    assignment_keys_of(payload.ride_id@, payload.staff_id@),
                ),
                Err(detail) => handled.aborts_with(detail@) && handled.invalidates_all(
                    seq![all_rides_key(), ride_key_of(payload.ride_id@)],
                ),
            },
            Err(detail) => handled.aborts_with(detail@) && handled.leaves_cache(),
        },
{
    match ride {
        Ok(updated) => match member {
            Ok(_) => {
                let mut keys = ride_keys(payload.ride_id.as_str());
                let ghost rides = keys@;
                let account = user_key(payload.staff_id.as_str());
                let brief = user_lite_key(payload.staff_id.as_str());
                keys.push(account);
                keys.push(brief);
                assert(key_texts(keys@) =~= assignment_keys_of(
                    payload.ride_id@,
                    payload.staff_id@,
                )) by {
                    let expected = seq![all_rides_key(), ride_key_of(payload.ride_id@)];
                    assert(key_texts(rides).len() == expected.len());
                    assert(rides.len() == 2);
                    assert(key_texts(rides)[0] == expected[0]);
                    assert(key_texts(rides)[1] == expected[1]);
                    assert(keys@[0] == rides[0] && keys@[1] == rides[1]);
                    assert(keys@.len() == 4);
                }
                written_all(updated, keys)
            },
            Err(detail) => Handled {
                result: Err(detail),
                cache: CacheAction::Invalidate { keys: ride_keys(payload.ride_id.as_str()) },
            },
        },
        Err(detail) => Handled { result: Err(detail), cache: CacheAction::Nothing },
    }
}

} // verus!
