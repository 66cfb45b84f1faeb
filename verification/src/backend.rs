//! An in-memory cache backend with a clock handed in by the caller.
//!
//! It answers the three commands of [`crate::cache`] the way a key-value
//! store with expiry does, and can be switched into a failing mode, so that
//! the behaviour of the cache-aside layer can be stated and exercised without
//! a network.

use vstd::prelude::*;
use vstd::string::*;
use crate::cache::{BackendFault, BackendReply, CacheCommand, CommandModel, ReplyModel};

verus! {

/// How the backend treats the commands it gets.
#[derive(Clone, Copy, Debug, PartialEq, Eq, Structural)]
pub enum BackendMode {
    /// Every command is carried out.
    Healthy,
    /// Reads are answered; `SETEX` and `DEL` fail and change nothing.
    FailingWrites,
    /// No connection can be had: every command fails.
    Unreachable,
}

/// One stored entry, as contracts speak of it.
pub struct EntryModel {
    pub payload: Seq<char>,
    pub stored_at: nat,
    pub ttl_seconds: nat,
}

/// The backend, as contracts speak of it: what is stored under each key, and
/// the mode.
pub struct BackendModel {
    pub entries: Map<Seq<char>, EntryModel>,
    pub mode: BackendMode,
}

/// An entry is live until `ttl_seconds` have passed since it was stored.
pub open spec fn is_live(entry: EntryModel, now: nat) -> bool {
    now < entry.stored_at + entry.ttl_seconds
}

/// What a read of `key` at time `now` finds.
pub open spec fn stored_text(model: BackendModel, key: Seq<char>, now: nat) -> ReplyModel {
    if model.entries.contains_key(key) && is_live(model.entries[key], now) {
        ReplyModel::Value(model.entries[key].payload)
    } else {
        ReplyModel::Nil
    }
}

/// Whether the backend carries out `command`, rather than failing it.
///
/// A `SETEX` with a time to live of zero is refused even by a healthy backend.
pub open spec fn accepts(model: BackendModel, command: CommandModel) -> bool {
    match command {
        CommandModel::Get { .. } => model.mode != BackendMode::Unreachable,
        CommandModel::SetEx { ttl_seconds, .. } => model.mode == BackendMode::Healthy
            && ttl_seconds > 0,
        CommandModel::Del { .. } => model.mode == BackendMode::Healthy,
    }
}

/// The backend's answer to `command` at time `now`.
pub open spec fn reply_to(model: BackendModel, command: CommandModel, now: nat) -> ReplyModel {
    if model.mode == BackendMode::Unreachable {
        ReplyModel::Fault(BackendFault::Connection)
    } else if !accepts(model, command) {
        ReplyModel::Fault(BackendFault::Command)
    } else {
        match command {
            CommandModel::Get { key } => stored_text(model, key, now),
            _ => ReplyModel::Done,
        }
    }
}

/// The backend after `command` at time `now`. A command that fails changes
/// nothing, and neither does a read.
pub open spec fn state_after(model: BackendModel, command: CommandModel, now: nat) -> BackendModel {
    if !accepts(model, command) {
        model
    } else {
        match command {
            CommandModel::Get { .. } => model,
            CommandModel::SetEx { key, ttl_seconds, payload } => BackendModel {
                entries: model.entries.insert(
                    key,
                    EntryModel { payload, stored_at: now, ttl_seconds },
                ),
                ..model
            },
            CommandModel::Del { key } => BackendModel {
                entries: model.entries.remove(key),
                ..model
            },
        }
    }
}

struct StoredEntry {
    key: String,
    payload: String,
    stored_at: u64,
    ttl_seconds: usize,
}

spec fn entry_model(entry: StoredEntry) -> EntryModel {
    EntryModel {
        payload: entry.payload@,
        stored_at: entry.stored_at as nat,
        ttl_seconds: entry.ttl_seconds as nat,
    }
}

spec fn holds_at(entries: Seq<StoredEntry>, key: Seq<char>, i: int) -> bool {
    0 <= i < entries.len() && entries[i].key@ == key
}

spec fn has_key(entries: Seq<StoredEntry>, key: Seq<char>) -> bool {
    exists|i: int| holds_at(entries, key, i)
}

spec fn index_of(entries: Seq<StoredEntry>, key: Seq<char>) -> int {
    choose|i: int| holds_at(entries, key, i)
}

spec fn distinct_keys(entries: Seq<StoredEntry>) -> bool {
    forall|i: int, j: int|
        0 <= i < j < entries.len() ==> (#[trigger] entries[i]).key@ != (#[trigger] entries[j]).key@
}

spec fn entries_of(entries: Seq<StoredEntry>) -> Map<Seq<char>, EntryModel> {
    Map::new(
        |key: Seq<char>| has_key(entries, key),
        |key: Seq<char>| entry_model(entries[index_of(entries, key)]),
    )
}

proof fn lemma_index_of(entries: Seq<StoredEntry>, key: Seq<char>, i: int)
    requires
        distinct_keys(entries),
        holds_at(entries, key, i),
    ensures
        has_key(entries, key),
        index_of(entries, key) == i,
        entries_of(entries).contains_key(key),
        entries_of(entries)[key] == entry_model(entries[i]),
{
    let j = index_of(entries, key);
    assert(holds_at(entries, key, j));
    if i < j {
        assert(entries[i].key@ != entries[j].key@);
    } else if j < i {
        assert(entries[j].key@ != entries[i].key@);
    }
}

proof fn lemma_absent(entries: Seq<StoredEntry>, key: Seq<char>)
    requires
        forall|i: int| 0 <= i < entries.len() ==> (#[trigger] entries[i]).key@ != key,
    ensures
        !has_key(entries, key),
        !entries_of(entries).contains_key(key),
{
    if has_key(entries, key) {
        let j = index_of(entries, key);
        assert(holds_at(entries, key, j));
        assert(entries[j].key@ != key);
    }
}

proof fn lemma_replace(entries: Seq<StoredEntry>, i: int, entry: StoredEntry)
    requires
        distinct_keys(entries),
        0 <= i < entries.len(),
        entry.key@ == entries[i].key@,
    ensures
        distinct_keys(entries.update(i, entry)),
        entries_of(entries.update(i, entry)) == entries_of(entries).insert(
            entry.key@,
            entry_model(entry),
        ),
{
    let after = entries.update(i, entry);
    assert forall|a: int, b: int| 0 <= a < b < after.len() implies (#[trigger] after[a]).key@ != (
    #[trigger] after[b]).key@ by {
        assert(after[a].key@ == entries[a].key@);
        assert(after[b].key@ == entries[b].key@);
        assert(entries[a].key@ != entries[b].key@);
    }
    let target = entries_of(entries).insert(entry.key@, entry_model(entry));
    assert forall|key: Seq<char>| #[trigger]
        entries_of(after).contains_key(key) == target.contains_key(key) by {
        if has_key(after, key) {
            let j = index_of(after, key);
            assert(holds_at(after, key, j));
            assert(holds_at(entries, key, j));
        }
        if has_key(entries, key) {
            let j = index_of(entries, key);
            assert(holds_at(entries, key, j));
            assert(holds_at(after, key, j));
        }
        if key == entry.key@ {
            assert(holds_at(after, key, i));
        }
    }
    assert forall|key: Seq<char>| #[trigger] target.contains_key(key) implies entries_of(after)[key]
        == target[key] by {
        if key == entry.key@ {
            assert(holds_at(after, key, i));
            lemma_index_of(after, key, i);
        } else {
            let j = index_of(entries, key);
            assert(has_key(entries, key));
            assert(holds_at(entries, key, j));
            assert(holds_at(after, key, j));
            lemma_index_of(after, key, j);
        }
    }
    assert(entries_of(after) =~= target);
}

proof fn lemma_push(entries: Seq<StoredEntry>, entry: StoredEntry)
    requires
        distinct_keys(entries),
        forall|i: int| 0 <= i < entries.len() ==> (#[trigger] entries[i]).key@ != entry.key@,
    ensures
        distinct_keys(entries.push(entry)),
        entries_of(entries.push(entry)) == entries_of(entries).insert(
            entry.key@,
            entry_model(entry),
        ),
{
    let after = entries.push(entry);
    let last = entries.len() as int;
    assert forall|a: int, b: int| 0 <= a < b < after.len() implies (#[trigger] after[a]).key@ != (
    #[trigger] after[b]).key@ by {
        assert(after[a] == entries[a]);
        if b < last {
            assert(after[b] == entries[b]);
            assert(entries[a].key@ != entries[b].key@);
        }
    }
    let target = entries_of(entries).insert(entry.key@, entry_model(entry));
    assert forall|key: Seq<char>| #[trigger]
        entries_of(after).contains_key(key) == target.contains_key(key) by {
        if has_key(after, key) {
            let j = index_of(after, key);
            assert(holds_at(after, key, j));
            if j < last {
                assert(holds_at(entries, key, j));
            }
        }
        if has_key(entries, key) {
            let j = index_of(entries, key);
            assert(holds_at(entries, key, j));
            assert(holds_at(after, key, j));
        }
        if key == entry.key@ {
            assert(holds_at(after, key, last));
        }
    }
    assert forall|key: Seq<char>| #[trigger] target.contains_key(key) implies entries_of(after)[key]
        == target[key] by {
        if key == entry.key@ {
            assert(holds_at(after, key, last));
            lemma_index_of(after, key, last);
        } else {
            let j = index_of(entries, key);
            assert(has_key(entries, key));
            assert(holds_at(entries, key, j));
            assert(holds_at(after, key, j));
            lemma_index_of(after, key, j);
        }
    }
    assert(entries_of(after) =~= target);
}

proof fn lemma_remove(entries: Seq<StoredEntry>, i: int)
    requires
        distinct_keys(entries),
        0 <= i < entries.len(),
    ensures
        distinct_keys(entries.remove(i)),
        entries_of(entries.remove(i)) == entries_of(entries).remove(entries[i].key@),
{
    let after = entries.remove(i);
    let gone = entries[i].key@;
    assert forall|a: int| 0 <= a < after.len() implies #[trigger] after[a] == entries[if a < i {
        a
    } else {
        a + 1
    }] by {}
    assert forall|a: int, b: int| 0 <= a < b < after.len() implies (#[trigger] after[a]).key@ != (
    #[trigger] after[b]).key@ by {
        let a0 = if a < i { a } else { a + 1 };
        let b0 = if b < i { b } else { b + 1 };
        assert(after[a] == entries[a0]);
        assert(after[b] == entries[b0]);
        assert(entries[a0].key@ != entries[b0].key@);
    }
    let target = entries_of(entries).remove(gone);
    assert forall|key: Seq<char>| #[trigger]
        entries_of(after).contains_key(key) == target.contains_key(key) by {
        if has_key(after, key) {
            let j = index_of(after, key);
            assert(holds_at(after, key, j));
            let j0 = if j < i { j } else { j + 1 };
            assert(after[j] == entries[j0]);
            assert(holds_at(entries, key, j0));
            if key == gone {
                lemma_index_of(entries, key, j0);
                lemma_index_of(entries, key, i);
            }
        }
        if has_key(entries, key) && key != gone {
            let j = index_of(entries, key);
            assert(holds_at(entries, key, j));
            let j1 = if j < i { j } else { j - 1 };
            assert(after[j1] == entries[j]);
            assert(holds_at(after, key, j1));
        }
    }
    assert forall|key: Seq<char>| #[trigger] target.contains_key(key) implies entries_of(after)[key]
        == target[key] by {
        let j = index_of(entries, key);
        assert(has_key(entries, key));
        assert(holds_at(entries, key, j));
        let j1 = if j < i { j } else { j - 1 };
        assert(after[j1] == entries[j]);
        assert(holds_at(after, key, j1));
        lemma_index_of(after, key, j1);
    }
    assert(entries_of(after) =~= target);
}

/// A key-value store with expiry, held in memory.
pub struct MemoryBackend {
    entries: Vec<StoredEntry>,
    mode: BackendMode,
}

impl View for MemoryBackend {
    type V = BackendModel;

    closed spec fn view(&self) -> BackendModel {
        BackendModel { entries: entries_of(self.entries@), mode: self.mode }
    }
}

impl MemoryBackend {
    /// No key is stored twice.
    pub closed spec fn wf(&self) -> bool {
        distinct_keys(self.entries@)
    }

    /// An empty, healthy backend.
    pub fn new() -> (backend: MemoryBackend)
        ensures
            backend.wf(),
            backend@.entries == Map::<Seq<char>, EntryModel>::empty(),
            backend@.mode == BackendMode::Healthy,
    {
        let backend = MemoryBackend { entries: Vec::new(), mode: BackendMode::Healthy };
        proof {
            assert forall|key: Seq<char>| !has_key(backend.entries@, key) by {
                if has_key(backend.entries@, key) {
                    assert(holds_at(backend.entries@, key, index_of(backend.entries@, key)));
                }
            }
            assert(backend@.entries =~= Map::<Seq<char>, EntryModel>::empty());
        }
        backend
    }

    /// The mode the backend is in.
    pub fn mode(&self) -> (mode: BackendMode)
        ensures
            mode == self@.mode,
    {
        self.mode
    }

    /// Switches the backend's mode. What is stored stays.
    pub fn set_mode(&mut self, mode: BackendMode)
        requires
            old(self).wf(),
        ensures
            final(self).wf(),
            final(self)@ == (BackendModel { mode, ..old(self)@ }),
    {
        self.mode = mode;
    }

    fn find(&self, key: &String) -> (found: Option<usize>)
        requires
            self.wf(),
        ensures
            match found {
                Some(i) => holds_at(self.entries@, key@, i as int),
                None => forall|i: int|
                    0 <= i < self.entries@.len() ==> (#[trigger] self.entries@[i]).key@ != key@,
            },
    {
        let mut i: usize = 0;
        while i < self.entries.len()
            invariant
                i <= self.entries@.len(),
                forall|j: int| 0 <= j < i ==> (#[trigger] self.entries@[j]).key@ != key@,
            decreases self.entries@.len() - i,
        {
            if self.entries[i].key == *key {
                return Some(i);
            }
            i += 1;
        }
        None
    }

    /// Carries out `command` at time `now` (seconds on the caller's clock).
    pub fn execute(&mut self, command: &CacheCommand, now: u64) -> (reply: BackendReply)
        requires
            old(self).wf(),
        ensures
            final(self).wf(),
            reply@ == reply_to(old(self)@, command@, now as nat),
            final(self)@ == state_after(old(self)@, command@, now as nat),
    {
        match self.mode {
            BackendMode::Unreachable => {
                return BackendReply::Fault(BackendFault::Connection);
            },
            _ => {},
        }
        match command {
            CacheCommand::Get { key } => {
                match self.find(key) {
                    Some(i) => {
                        proof {
                            lemma_index_of(self.entries@, key@, i as int);
                        }
                        let entry = &self.entries[i];
                        let live = now < entry.stored_at || now - entry.stored_at
                            < entry.ttl_seconds as u64;
                        if live {
                            BackendReply::Value(entry.payload.clone())
                        } else {
                            BackendReply::Nil
                        }
                    },
                    None => {
                        proof {
                            lemma_absent(self.entries@, key@);
                        }
                        BackendReply::Nil
                    },
                }
            },
            CacheCommand::SetEx { key, ttl_seconds, payload } => {
                if self.mode != BackendMode::Healthy || *ttl_seconds == 0 {
                    return BackendReply::Fault(BackendFault::Command);
                }
                let entry = StoredEntry {
                    key: key.clone(),
                    payload: payload.clone(),
                    stored_at: now,
                    ttl_seconds: *ttl_seconds,
                };
                match self.find(key) {
                    Some(i) => {
                        proof {
                            lemma_replace(self.entries@, i as int, entry);
                        }
                        self.entries.set(i, entry);
                    },
                    None => {
                        proof {
                            lemma_push(self.entries@, entry);
                        }
                        self.entries.push(entry);
                    },
                }
                BackendReply::Done
            },
            CacheCommand::Del { key } => {
                if self.mode != BackendMode::Healthy {
                    return BackendReply::Fault(BackendFault::Command);
                }
                match self.find(key) {
                    Some(i) => {
                        proof {
                            lemma_remove(self.entries@, i as int);
                        }
                        self.entries.remove(i);
                    },
                    None => {
                        proof {
                            lemma_absent(self.entries@, key@);
                            assert(self@.entries.remove(key@) =~= self@.entries);
                        }
                    },
                }
                BackendReply::Done
            },
        }
    }
}

} // verus!
