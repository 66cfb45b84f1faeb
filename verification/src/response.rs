//! What a request handler hands back: the response for the caller and what
//! is to happen to the cache.
//!
//! A handler reads through the cache and invalidates on writes. The rule that
//! ties the two together is stated here once: what was read from the store is
//! cached, a record that was changed has its key invalidated, and a request
//! that failed leaves the cache alone.

use vstd::prelude::*;
use vstd::string::*;
use crate::text::join2;

verus! {

/// The response to a request.
#[allow(inconsistent_fields)]
pub enum ApiResponse<T> {
    Success { data: T, message: Option<String> },
    Error { data: Option<T>, message: String },
}

impl<T> ApiResponse<T> {
    /// A success that carries `data` and no message.
    pub fn success(data: T) -> (response: ApiResponse<T>)
        ensures
            response == (ApiResponse::Success { data, message: None }),
    {
        ApiResponse::Success { data, message: None }
    }

    /// A failure that carries `message` and no data.
    pub fn error(message: String) -> (response: ApiResponse<T>)
        ensures
            response == (ApiResponse::<T>::Error { data: None, message }),
    {
        ApiResponse::Error { data: None, message }
    }
}

/// What is to happen to the cache once a request was handled.
pub enum CacheAction {
    /// Nothing.
    Nothing,
    /// What was read is stored under `key` for `ttl_seconds`: the data of
    /// the answer, or what the handler hands over to be cached in its place
    /// (see [`Served`]).
    Refresh { key: String, ttl_seconds: usize },
    /// Every one of `keys` is invalidated: the keys under which the record
    /// that was written is cached.
    Invalidate { keys: Vec<String> },
}

/// The texts of a list of keys.
pub open spec fn key_texts(keys: Seq<String>) -> Seq<Seq<char>> {
    Seq::new(keys.len(), |i: int| keys[i]@)
}

/// A handled request.
pub struct Handled<T> {
    /// What the caller gets: a response, or the text the request is turned
    /// down with.
    pub result: Result<ApiResponse<T>, String>,
    /// What is to happen to the cache before the caller gets it.
    pub cache: CacheAction,
}

impl<T> Handled<T> {
    /// The request succeeded with `data`.
    pub open spec fn succeeds_with(self, data: T) -> bool {
        self.result == Ok::<ApiResponse<T>, String>(ApiResponse::Success { data, message: None })
    }

    /// The request succeeded.
    pub open spec fn succeeds(self) -> bool {
        self.result matches Ok(ApiResponse::Success { message, .. }) && message is None
    }

    /// What the request succeeded with.
    pub open spec fn data(self) -> T
        recommends
            self.succeeds(),
    {
        self.result->Ok_0->Success_data
    }

    /// The caller gets a failure with the message `text`.
    pub open spec fn fails_with(self, text: Seq<char>) -> bool {
        self.result matches Ok(ApiResponse::Error { data, message }) && data is None && message@
            == text
    }

    /// The request is turned down with `text`.
    pub open spec fn aborts_with(self, text: Seq<char>) -> bool {
        self.result matches Err(message) && message@ == text
    }

    /// What was read is stored under `key` for `ttl_seconds`.
    pub open spec fn refreshes(self, key: Seq<char>, ttl_seconds: usize) -> bool {
        self.cache matches CacheAction::Refresh { key: k, ttl_seconds: t } && k@ == key && t
            == ttl_seconds
    }

    /// Exactly `keys` are invalidated, in that order.
    pub open spec fn invalidates_all(self, keys: Seq<Seq<char>>) -> bool {
        self.cache matches CacheAction::Invalidate { keys: k } && key_texts(k@) == keys
    }

    /// `key` is invalidated, and no other.
    pub open spec fn invalidates(self, key: Seq<char>) -> bool {
        self.invalidates_all(seq![key])
    }

    /// The cache is left alone.
    pub open spec fn leaves_cache(self) -> bool {
        self.cache is Nothing
    }
}

/// Where the data of a read comes from: the cache, which held it, or the
/// store, which was asked because the cache did not.
pub enum ReadSource<C, R> {
    /// What the cache held.
    Cache(C),
    /// What the store gave, or its account of the failure.
    Store(Result<R, String>),
}

/// The answer to a read that the cache served: the data, and nothing to do.
pub fn served_from_cache<T>(data: T) -> (handled: Handled<T>)
    ensures
        handled.succeeds_with(data),
        handled.leaves_cache(),
{
    Handled { result: Ok(ApiResponse::success(data)), cache: CacheAction::Nothing }
}

/// The answer to a read that the store served: the data, which is then
/// cached under `key` for `ttl_seconds`.
pub fn served_from_store<T>(data: T, key: &str, ttl_seconds: usize) -> (handled: Handled<T>)
    ensures
        handled.succeeds_with(data),
        handled.refreshes(key@, ttl_seconds),
{
    Handled {
        result: Ok(ApiResponse::success(data)),
        cache: CacheAction::Refresh { key: String::from_str(key), ttl_seconds },
    }
}

/// A read handler's answer together with what a refresh is to store where
/// that is not the answer's own data.
pub struct Served<T, C> {
    /// The answer and the cache action.
    pub handled: Handled<T>,
    /// What is stored under the key of a refresh; `None` where nothing is
    /// refreshed.
    pub to_cache: Option<C>,
}

/// The one key `key`.
pub fn one_key(key: &str) -> (keys: Vec<String>)
    ensures
        key_texts(keys@) == seq![key@],
{
    let mut keys: Vec<String> = Vec::new();
    keys.push(String::from_str(key));
    assert(key_texts(keys@) =~= seq![key@]);
    keys
}

/// The two keys `first` and `second`.
pub fn two_keys(first: &str, second: &str) -> (keys: Vec<String>)
    ensures
        key_texts(keys@) == seq![first@, second@],
{
    let mut keys: Vec<String> = Vec::new();
    keys.push(String::from_str(first));
    keys.push(String::from_str(second));
    assert(key_texts(keys@) =~= seq![first@, second@]);
    keys
}

/// The answer to a write that the store carried out: the record, with every
/// one of `keys` invalidated.
pub fn written_all<T>(record: T, keys: Vec<String>) -> (handled: Handled<T>)
    ensures
        handled.succeeds_with(record),
        handled.invalidates_all(key_texts(keys@)),
{
    Handled { result: Ok(ApiResponse::success(record)), cache: CacheAction::Invalidate { keys } }
}

/// The answer to a write that the store carried out: the record, with `key`
/// invalidated.
pub fn written<T>(record: T, key: &str) -> (handled: Handled<T>)
    ensures
        handled.succeeds_with(record),
        handled.invalidates(key@),
{
    written_all(record, one_key(key))
}

/// The answer to a write that touches no cached list: the record, and
/// nothing to do.
pub fn done<T>(record: T) -> (handled: Handled<T>)
    ensures
        handled.succeeds_with(record),
        handled.leaves_cache(),
{
    Handled { result: Ok(ApiResponse::success(record)), cache: CacheAction::Nothing }
}

/// The answer to a request that failed: a failure whose message is `what`
/// followed by `detail`. The cache is left alone.
pub fn failed<T>(what: &str, detail: &str) -> (handled: Handled<T>)
    ensures
        handled.fails_with(what@ + detail@),
        handled.leaves_cache(),
{
    Handled { result: Ok(ApiResponse::error(join2(what, detail))), cache: CacheAction::Nothing }
}

/// The answer to a request that failed, with the message given. The cache is
/// left alone.
pub fn failed_with<T>(message: String) -> (handled: Handled<T>)
    ensures
        handled.fails_with(message@),
        handled.leaves_cache(),
{
    Handled { result: Ok(ApiResponse::error(message)), cache: CacheAction::Nothing }
}

/// The answer to a request that is turned down: the text `what` followed by
/// `detail`, in place of a response. The cache is left alone.
pub fn turned_down<T>(what: &str, detail: &str) -> (handled: Handled<T>)
    ensures
        handled.aborts_with(what@ + detail@),
        handled.leaves_cache(),
{
    Handled { result: Err(join2(what, detail)), cache: CacheAction::Nothing }
}

/// The answer to a removal, from the number of rows it affected or the
/// store's account of its failure.
///
/// A removal that affected a row invalidates `key`. One that affected none
/// fails with `missing` followed by `id`; one that the store failed, with
/// `failure` followed by the store's account. Neither touches the cache.
pub fn removed(rows_affected: Result<u64, String>, id: &str, key: &str, missing: &str, failure: &str) -> (handled:
    Handled<()>)
    ensures
        match rows_affected {
            Ok(rows) => if rows == 0 {
                handled.fails_with(missing@ + id@) && handled.leaves_cache()
            } else {
                handled.succeeds_with(()) && handled.invalidates(key@)
            },
            Err(detail) => handled.fails_with(failure@ + detail@) && handled.leaves_cache(),
        },
{
    match rows_affected {
        Ok(rows) => {
            if rows == 0 {
                failed(missing, id)
            } else {
                written((), key)
            }
        },
        Err(detail) => failed(failure, detail.as_str()),
    }
}

/// The answer to an insertion or an update, from the record the store gave
/// back or its account of the failure: the record with `key` invalidated, or
/// a failure with `failure` followed by the account.
pub fn saved<T>(record: Result<T, String>, key: &str, failure: &str) -> (handled: Handled<T>)
    ensures
        match record {
            Ok(data) => handled.succeeds_with(data) && handled.invalidates(key@),
            Err(detail) => handled.fails_with(failure@ + detail@) && handled.leaves_cache(),
        },
{
    match record {
        Ok(data) => written(data, key),
        Err(detail) => failed(failure, detail.as_str()),
    }
}

/// What is to be done with a record that was looked up for an update.
pub enum UpdatePlan<R, T> {
    /// Write this record.
    Write(R),
    /// Answer at once.
    Answer(Handled<T>),
}

/// What to do once the record to update was looked up: write the record
/// found, or answer with a failure. A record that is not there fails with
/// `missing` followed by `id`; a lookup that the store failed, with `failure`
/// followed by the store's account.
pub fn found_for_update<R, T>(
    found: Result<Option<R>, String>,
    id: &str,
    missing: &str,
    failure: &str,
) -> (plan: UpdatePlan<R, T>)
    ensures
        match found {
            Ok(Some(record)) => plan == UpdatePlan::<R, T>::Write(record),
            Ok(None) => plan matches UpdatePlan::Answer(handled) && handled.fails_with(
                missing@ + id@,
            ) && handled.leaves_cache(),
            Err(detail) => plan matches UpdatePlan::Answer(handled) && handled.fails_with(
                failure@ + detail@,
            ) && handled.leaves_cache(),
        },
{
    match found {
        Ok(Some(record)) => UpdatePlan::Write(record),
        Ok(None) => UpdatePlan::Answer(failed(missing, id)),
        Err(detail) => UpdatePlan::Answer(failed(failure, detail.as_str())),
    }
}

/// Answers a read of a whole list: what the cache held as it is, or what the
/// store gave, which is then cached under `key` for `ttl_seconds`. A read
/// that the store failed fails with `failure` followed by its account.
pub fn read_list<T>(source: ReadSource<T, T>, key: &str, ttl_seconds: usize, failure: &str) -> (handled:
    Handled<T>)
    ensures
        match source {
            ReadSource::Cache(cached) => handled.succeeds_with(cached) && handled.leaves_cache(),
            ReadSource::Store(Ok(data)) => handled.succeeds_with(data) && handled.refreshes(
                key@,
                ttl_seconds,
            ),
            ReadSource::Store(Err(detail)) => handled.fails_with(failure@ + detail@)
                && handled.leaves_cache(),
        },
{
    match source {
        ReadSource::Cache(cached) => served_from_cache(cached),
        ReadSource::Store(Ok(data)) => served_from_store(data, key, ttl_seconds),
        ReadSource::Store(Err(detail)) => failed(failure, detail.as_str()),
    }
}

/// Answers a read of one record: what the cache held as it is, or what the
/// store gave, which is then cached under `key` for `ttl_seconds`. A record
/// that the store does not have fails with `missing`; a read that the store
/// failed, with `failure` followed by its account.
pub fn read_one<T>(
    source: ReadSource<T, Option<T>>,
    key: &str,
    ttl_seconds: usize,
    missing: &str,
    failure: &str,
) -> (handled: Handled<T>)
    ensures
        match source {
            ReadSource::Cache(cached) => handled.succeeds_with(cached) && handled.leaves_cache(),
            ReadSource::Store(Ok(Some(data))) => handled.succeeds_with(data) && handled.refreshes(
                key@,
                ttl_seconds,
            ),
            ReadSource::Store(Ok(None)) => handled.fails_with(missing@) && handled.leaves_cache(),
            ReadSource::Store(Err(detail)) => handled.fails_with(failure@ + detail@)
                && handled.leaves_cache(),
        },
{
    match source {
        ReadSource::Cache(cached) => served_from_cache(cached),
        ReadSource::Store(Ok(Some(data))) => served_from_store(data, key, ttl_seconds),
        ReadSource::Store(Ok(None)) => failed_with(String::from_str(missing)),
        ReadSource::Store(Err(detail)) => failed(failure, detail.as_str()),
    }
}

/// The answer to a removal of a record that is cached under several keys:
/// as [`removed`], with every one of `keys` invalidated where a row was
/// removed.
pub fn removed_all(
    rows_affected: Result<u64, String>,
    id: &str,
    keys: Vec<String>,
    missing: &str,
    failure: &str,
) -> (handled: Handled<()>)
    ensures
        match rows_affected {
            Ok(rows) => if rows == 0 {
                handled.fails_with(missing@ + id@) && handled.leaves_cache()
            } else {
                handled.succeeds_with(()) && handled.invalidates_all(key_texts(keys@))
            },
            Err(detail) => handled.fails_with(failure@ + detail@) && handled.leaves_cache(),
        },
{
    match rows_affected {
        Ok(rows) => {
            if rows == 0 {
                failed(missing, id)
            } else {
                written_all((), keys)
            }
        },
        Err(detail) => failed(failure, detail.as_str()),
    }
}

/// The answer to an insertion or an update of a record that is cached under
/// several keys: as [`saved`], with every one of `keys` invalidated where the
/// store wrote the record.
pub fn saved_all<T>(record: Result<T, String>, keys: Vec<String>, failure: &str) -> (handled:
    Handled<T>)
    ensures
        match record {
            Ok(data) => handled.succeeds_with(data) && handled.invalidates_all(key_texts(keys@)),
            Err(detail) => handled.fails_with(failure@ + detail@) && handled.leaves_cache(),
        },
{
    match record {
        Ok(data) => written_all(data, keys),
        Err(detail) => failed(failure, detail.as_str()),
    }
}

} // verus!
