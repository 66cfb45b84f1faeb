//! Cache-aside reads and write-invalidation.
//!
//! The layer is a protocol over a key-value backend. A caller with a backend
//! of its own asks which command to send ([`get_command`], [`set_command`],
//! [`delete_command`]), sends it by its own means, and hands the reply back
//! ([`read_typed_reply`], [`read_write_reply`]). Whatever the backend
//! answers, the caller gets a value or an absence, never an error: the cache
//! is advisory.
//!
//! A value is written as the envelope of its JSON text. What the cache holds
//! is read by the caller's own decoder, which is handed the text as it was
//! held and says whether it is the envelope of a value: the read is a hit
//! exactly where the decoder gives a value.
//!
//! [`cache_get`], [`cache_set`], [`cache_delete`] and [`read_through`] run
//! the same protocol against the in-memory backend of [`crate::backend`].
//! What the layer promises is stated over that backend, in the laws at the
//! end of this module: what was written is what the decoder is handed until
//! the time to live runs out and not after, an invalidated entry and one the
//! decoder does not take read as absent, and a backend that fails costs
//! freshness, never an answer.

use vstd::prelude::*;
use vstd::string::*;
use crate::backend::{is_live, reply_to, state_after, BackendMode, BackendModel, MemoryBackend};
use crate::envelope::{seal, sealed};

verus! {

/// A command for the cache backend.
pub enum CacheCommand {
    /// `GET key`
    Get { key: String },
    /// `SETEX key ttl_seconds payload`
    SetEx { key: String, ttl_seconds: usize, payload: String },
    /// `DEL key`
    Del { key: String },
}

/// A command, as contracts speak of it.
pub enum CommandModel {
    Get { key: Seq<char> },
    SetEx { key: Seq<char>, ttl_seconds: nat, payload: Seq<char> },
    Del { key: Seq<char> },
}

impl View for CacheCommand {
    type V = CommandModel;

    open spec fn view(&self) -> CommandModel {
        match *self {
            CacheCommand::Get { key } => CommandModel::Get { key: key@ },
            CacheCommand::SetEx { key, ttl_seconds, payload } => CommandModel::SetEx {
                key: key@,
                ttl_seconds: ttl_seconds as nat,
                payload: payload@,
            },
            CacheCommand::Del { key } => CommandModel::Del { key: key@ },
        }
    }
}

/// Where an exchange with the backend broke down.
#[derive(Clone, Copy, Debug, PartialEq, Eq, Structural)]
pub enum BackendFault {
    /// No connection could be had.
    Connection,
    /// The backend refused or failed the command.
    Command,
}

/// What the backend answered.
pub enum BackendReply {
    /// The text stored under the key.
    Value(String),
    /// Nothing is stored under the key.
    Nil,
    /// The write was carried out.
    Done,
    /// The exchange failed.
    Fault(BackendFault),
}

/// A reply, as contracts speak of it.
pub enum ReplyModel {
    Value(Seq<char>),
    Nil,
    Done,
    Fault(BackendFault),
}

impl View for BackendReply {
    type V = ReplyModel;

    open spec fn view(&self) -> ReplyModel {
        match *self {
            BackendReply::Value(text) => ReplyModel::Value(text@),
            BackendReply::Nil => ReplyModel::Nil,
            BackendReply::Done => ReplyModel::Done,
            BackendReply::Fault(fault) => ReplyModel::Fault(fault),
        }
    }
}

/// How a read ended.
pub enum Lookup {
    /// The key held this text.
    Hit(String),
    /// The key held nothing.
    Miss,
    /// The backend could not be asked.
    Unavailable(BackendFault),
}

/// A lookup, as contracts speak of it.
pub enum LookupModel {
    Hit(Seq<char>),
    Miss,
    Unavailable(BackendFault),
}

impl View for Lookup {
    type V = LookupModel;

    open spec fn view(&self) -> LookupModel {
        match *self {
            Lookup::Hit(text) => LookupModel::Hit(text@),
            Lookup::Miss => LookupModel::Miss,
            Lookup::Unavailable(fault) => LookupModel::Unavailable(fault),
        }
    }
}

/// The lookup that a reply to `GET` amounts to.
///
/// `Done` answers no read; it is taken as an absence like `Nil`.
pub open spec fn lookup_of(reply: ReplyModel) -> LookupModel {
    match reply {
        ReplyModel::Value(raw) => LookupModel::Hit(raw),
        ReplyModel::Nil => LookupModel::Miss,
        ReplyModel::Done => LookupModel::Miss,
        ReplyModel::Fault(fault) => LookupModel::Unavailable(fault),
    }
}

/// The text that a lookup found, if it found any.
pub open spec fn value_of(lookup: LookupModel) -> Option<Seq<char>> {
    match lookup {
        LookupModel::Hit(text) => Some(text),
        _ => None,
    }
}

impl Lookup {
    /// The text that was found, `None` for every other outcome.
    pub fn into_value(self) -> (value: Option<String>)
        ensures
            value is Some <==> self@ is Hit,
            value matches Some(text) ==> Some(text@) == value_of(self@),
    {
        match self {
            Lookup::Hit(text) => Some(text),
            _ => None,
        }
    }
}

/// The command that reads `key`.
pub fn get_command(key: &str) -> (command: CacheCommand)
    ensures
        command@ == (CommandModel::Get { key: key@ }),
{
    CacheCommand::Get { key: String::from_str(key) }
}

/// The command that stores a value under `key` for `ttl_seconds`.
///
/// `encoded` is the JSON text of the value, or `None` where the value could
/// not be encoded; then nothing is written.
pub fn set_command(key: &str, encoded: Option<&str>, ttl_seconds: usize) -> (command: Option<
    CacheCommand,
>)
    ensures
        encoded is None ==> command is None,
        encoded matches Some(text) ==> command matches Some(c) && c@ == (CommandModel::SetEx {
            key: key@,
            ttl_seconds: ttl_seconds as nat,
            payload: sealed(text@),
        }),
{
    match encoded {
        Some(text) => Some(
            CacheCommand::SetEx {
                key: String::from_str(key),
                ttl_seconds,
                payload: seal(text),
            },
        ),
        None => None,
    }
}

/// The command that invalidates `key`.
pub fn delete_command(key: &str) -> (command: CacheCommand)
    ensures
        command@ == (CommandModel::Del { key: key@ }),
{
    CacheCommand::Del { key: String::from_str(key) }
}

/// Reads the backend's reply to a `GET`.
pub fn read_get_reply(reply: BackendReply) -> (lookup: Lookup)
    ensures
        lookup@ == lookup_of(reply@),
{
    match reply {
        BackendReply::Value(raw) => Lookup::Hit(raw),
        BackendReply::Nil => Lookup::Miss,
        BackendReply::Done => Lookup::Miss,
        BackendReply::Fault(fault) => Lookup::Unavailable(fault),
    }
}

/// Reads the backend's reply to a `SETEX` or a `DEL`: the fault to report, if
/// the write did not go through. The caller carries on either way.
pub fn read_write_reply(reply: BackendReply) -> (fault: Option<BackendFault>)
    ensures
        fault == match reply@ {
            ReplyModel::Fault(f) => Some(f),
            _ => None,
        },
{
    match reply {
        BackendReply::Fault(f) => Some(f),
        _ => None,
    }
}

/// The backend after a value was cached under `key` at time `now`.
pub open spec fn after_set(
    model: BackendModel,
    key: Seq<char>,
    value: Seq<char>,
    ttl_seconds: nat,
    now: nat,
) -> BackendModel {
    state_after(model, CommandModel::SetEx { key, ttl_seconds, payload: sealed(value) }, now)
}

/// The backend after `key` was invalidated at time `now`.
pub open spec fn after_delete(model: BackendModel, key: Seq<char>, now: nat) -> BackendModel {
    state_after(model, CommandModel::Del { key }, now)
}

/// The text that a read of `key` at time `now` finds in the cache: the
/// envelope as it is held, or nothing where the key is absent or expired or
/// the backend cannot be asked.
pub open spec fn held(model: BackendModel, key: Seq<char>, now: nat) -> Option<Seq<char>> {
    value_of(lookup_of(reply_to(model, CommandModel::Get { key }, now)))
}

/// What a typed read makes of what the cache held, where `decoded` says what
/// the caller's decoder gives for each text: what it gives for the text
/// held, and nothing where nothing is held.
pub open spec fn typed_value<T>(
    found: Option<Seq<char>>,
    decoded: spec_fn(Seq<char>) -> Option<T>,
) -> Option<T> {
    match found {
        Some(raw) => decoded(raw),
        None => None,
    }
}

/// Caches the JSON text `value` under `key` for `ttl_seconds`, counted from
/// `now`. Returns the fault to report where the backend did not take the
/// write; the caller proceeds as if it had.
pub fn cache_set(
    backend: &mut MemoryBackend,
    key: &str,
    value: &str,
    ttl_seconds: usize,
    now: u64,
) -> (fault: Option<BackendFault>)
    requires
        old(backend).wf(),
    ensures
        final(backend).wf(),
        final(backend)@ == after_set(
            old(backend)@,
            key@,
            value@,
            ttl_seconds as nat,
            now as nat,
        ),
        fault is None <==> old(backend)@.mode == BackendMode::Healthy && ttl_seconds > 0,
        fault == Some(BackendFault::Connection) <==> old(backend)@.mode
            == BackendMode::Unreachable,
{
    match set_command(key, Some(value), ttl_seconds) {
        Some(command) => {
            let reply = backend.execute(&command, now);
            read_write_reply(reply)
        },
        None => None,
    }
}

/// Invalidates `key`. Returns the fault to report where the backend did not
/// take the command; the caller proceeds as if it had.
pub fn cache_delete(backend: &mut MemoryBackend, key: &str, now: u64) -> (fault: Option<
    BackendFault,
>)
    requires
        old(backend).wf(),
    ensures
        final(backend).wf(),
        final(backend)@ == after_delete(old(backend)@, key@, now as nat),
        fault is None <==> old(backend)@.mode == BackendMode::Healthy,
        fault == Some(BackendFault::Connection) <==> old(backend)@.mode
            == BackendMode::Unreachable,
{
    let command = delete_command(key);
    let reply = backend.execute(&command, now);
    read_write_reply(reply)
}

/// Reads the backend's reply to a `GET` into a value of the caller's own
/// type. `decode` reads the text of an envelope into the value inside it, and
/// gives `None` for text that is no envelope of such a value.
///
/// `decode` is called where the cache held a text, and only there, with that
/// text whole and unchanged, and what it gives is what the caller gets: a
/// text that it does not take reads as absent like any miss. Every other
/// reply reads as absent without `decode` being asked.
pub fn read_typed_reply<T, F: FnOnce(String) -> Option<T>>(reply: BackendReply, decode: F) -> (value:
    Option<T>)
    requires
        forall|raw: String| call_requires(decode, (raw,)),
    ensures
        match reply {
            BackendReply::Value(raw) => call_ensures(decode, (raw,), value),
            _ => value is None,
        },
{
    match reply {
        BackendReply::Value(raw) => decode(raw),
        _ => None,
    }
}

/// What a typed read of `key` at time `now` comes to: where the cache holds a
/// text, what `decode` gave for a text of that content; else nothing.
pub open spec fn typed_read<T, F: FnOnce(String) -> Option<T>>(
    model: BackendModel,
    key: Seq<char>,
    now: nat,
    decode: F,
    value: Option<T>,
) -> bool {
    match held(model, key, now) {
        Some(text) => exists|raw: String| raw@ == text && call_ensures(decode, (raw,), value),
        None => value is None,
    }
}

/// Reads `key` at time `now` into a value of the caller's own type: what
/// `decode` makes of the text that the cache holds, or `None` where the key
/// is absent or expired, holds text that `decode` does not take, or the
/// backend cannot be asked.
pub fn cache_get<T, F: FnOnce(String) -> Option<T>>(
    backend: &mut MemoryBackend,
    key: &str,
    now: u64,
    decode: F,
) -> (value: Option<T>)
    requires
        old(backend).wf(),
        forall|raw: String| call_requires(decode, (raw,)),
    ensures
        final(backend).wf(),
        final(backend)@ == old(backend)@,
        typed_read(old(backend)@, key@, now as nat, decode, value),
{
    let command = get_command(key);
    let reply = backend.execute(&command, now);
    read_typed_reply(reply, decode)
}

/// Reads `key` through the cache at time `now`, where the store, the source
/// of truth, holds `fresh`, whose JSON text is `encoded`.
///
/// A hit is served from the cache and leaves it as it is. Anything else, be
/// it a miss, an expired entry, one that `decode` does not take or a backend
/// that cannot be asked, is served from the store, and what was served is
/// cached for `ttl_seconds`.
pub fn read_through<T, F: FnOnce(String) -> Option<T>>(
    backend: &mut MemoryBackend,
    key: &str,
    fresh: T,
    encoded: &str,
    ttl_seconds: usize,
    now: u64,
    decode: F,
) -> (value: T)
    requires
        old(backend).wf(),
        forall|raw: String| call_requires(decode, (raw,)),
    ensures
        final(backend).wf(),
        exists|found: Option<T>|
            {
                &&& typed_read(old(backend)@, key@, now as nat, decode, found)
                &&& match found {
                    Some(cached) => value == cached && final(backend)@ == old(backend)@,
                    None => value == fresh && final(backend)@ == after_set(
                        old(backend)@,
                        key@,
                        encoded@,
                        ttl_seconds as nat,
                        now as nat,
                    ),
                }
            },
{
    let found = cache_get(backend, key, now, decode);
    match found {
        Some(cached) => cached,
        None => {
            let _ = cache_set(backend, key, encoded, ttl_seconds, now);
            fresh
        },
    }
}

/// What was cached on a healthy backend is what a read finds, whole and
/// unchanged, for as long as its time to live has not run out: at every
/// `later` before `now + ttl_seconds`, the moment of the write included, the
/// decoder is handed the envelope of the value, so that the read gives the
/// value wherever the decoder reads that envelope.
pub proof fn law_read_after_write<T>(
    model: BackendModel,
    key: Seq<char>,
    value: Seq<char>,
    ttl_seconds: nat,
    now: nat,
    later: nat,
    decoded: spec_fn(Seq<char>) -> Option<T>,
)
    requires
        model.mode == BackendMode::Healthy,
        ttl_seconds > 0,
        later < now + ttl_seconds,
    ensures
        held(after_set(model, key, value, ttl_seconds, now), key, later) == Some(sealed(value)),
        typed_value(held(after_set(model, key, value, ttl_seconds, now), key, later), decoded)
            == decoded(sealed(value)),
{
}

/// Once `ttl_seconds` have passed since a value was cached, a read finds
/// nothing, whatever the decoder.
pub proof fn law_expired_is_absent<T>(
    model: BackendModel,
    key: Seq<char>,
    value: Seq<char>,
    ttl_seconds: nat,
    now: nat,
    later: nat,
    decoded: spec_fn(Seq<char>) -> Option<T>,
)
    requires
        model.mode == BackendMode::Healthy,
        ttl_seconds > 0,
        later >= now + ttl_seconds,
    ensures
        held(after_set(model, key, value, ttl_seconds, now), key, later) is None,
        typed_value(held(after_set(model, key, value, ttl_seconds, now), key, later), decoded)
            is None,
{
}

/// No entry outlives its time to live: whatever the backend holds and
/// whatever its mode, a read that finds a text found a live entry, and the
/// text is that entry's.
pub proof fn law_hit_is_live(model: BackendModel, key: Seq<char>, now: nat)
    requires
        held(model, key, now) is Some,
    ensures
        model.entries.contains_key(key),
        is_live(model.entries[key], now),
        held(model, key, now) == Some(model.entries[key].payload),
{
}

/// Whatever is written straight under a key that the caller's decoder does
/// not read as the envelope of a value, be it no JSON, cut short, without the
/// member `data` or with a value of another shape, reads as absent, at every
/// time.
pub proof fn law_corrupted_is_absent<T>(
    model: BackendModel,
    key: Seq<char>,
    raw: Seq<char>,
    ttl_seconds: nat,
    now: nat,
    later: nat,
    decoded: spec_fn(Seq<char>) -> Option<T>,
)
    requires
        model.mode == BackendMode::Healthy,
        ttl_seconds > 0,
        decoded(raw) is None,
    ensures
        typed_value(
            held(
                state_after(model, CommandModel::SetEx { key, ttl_seconds, payload: raw }, now),
                key,
                later,
            ),
            decoded,
        ) is None,
{
}

/// After an invalidation on a healthy backend a read finds nothing, whether
/// or not the entry had expired.
pub proof fn law_read_after_delete(model: BackendModel, key: Seq<char>, now: nat, later: nat)
    requires
        model.mode == BackendMode::Healthy,
    ensures
        held(after_delete(model, key, now), key, later) is None,
{
}

/// A write or an invalidation that the backend fails leaves every key as it
/// was, and a read of a key that held nothing still finds nothing.
pub proof fn law_failed_write_changes_nothing(
    model: BackendModel,
    key: Seq<char>,
    value: Seq<char>,
    ttl_seconds: nat,
    now: nat,
    later: nat,
)
    requires
        model.mode != BackendMode::Healthy,
    ensures
        after_set(model, key, value, ttl_seconds, now) == model,
        after_delete(model, key, now) == model,
        !model.entries.contains_key(key) ==> held(
            after_set(model, key, value, ttl_seconds, now),
            key,
            later,
        ) is None,
{
}

/// Writing or invalidating one key leaves what is read under every other key.
pub proof fn law_other_keys_untouched(
    model: BackendModel,
    key: Seq<char>,
    other: Seq<char>,
    value: Seq<char>,
    ttl_seconds: nat,
    now: nat,
    later: nat,
)
    requires
        key != other,
    ensures
        held(after_set(model, key, value, ttl_seconds, now), other, later) == held(
            model,
            other,
            later,
        ),
        held(after_delete(model, key, now), other, later) == held(model, other, later),
{
}

/// The cache is advisory: with a backend that cannot be reached a read finds
/// nothing, so that a read through the cache is served from the store, and
/// the write that follows changes nothing.
pub proof fn law_unreachable_cache_serves_the_store(
    model: BackendModel,
    key: Seq<char>,
    encoded: Seq<char>,
    ttl_seconds: nat,
    now: nat,
)
    requires
        model.mode == BackendMode::Unreachable,
    ensures
        held(model, key, now) is None,
        after_set(model, key, encoded, ttl_seconds, now) == model,
{
}

/// What a read through a healthy cache populated is what later reads are
/// handed for as long as its time to live has not run out, whatever the store
/// holds by then; once it has run out, the cache holds nothing and the store
/// is served again. Staleness lasts no longer than the time to live.
pub proof fn law_staleness_is_bounded(
    model: BackendModel,
    key: Seq<char>,
    encoded: Seq<char>,
    ttl_seconds: nat,
    now: nat,
    later: nat,
)
    requires
        model.mode == BackendMode::Healthy,
        ttl_seconds > 0,
    ensures
        later < now + ttl_seconds ==> held(
            after_set(model, key, encoded, ttl_seconds, now),
            key,
            later,
        ) == Some(sealed(encoded)),
        later >= now + ttl_seconds ==> held(
            after_set(model, key, encoded, ttl_seconds, now),
            key,
            later,
        ) is None,
{
}

} // verus!
