//! Notifications: what the notification handlers answer, given what the
//! cache and the store gave them.

use vstd::prelude::*;
use vstd::string::*;
use crate::response::{
    done, failed, one_key, served_from_store, CacheAction, Handled, ReadSource, Served,
};
use crate::rows::{lemma_take_next, map_all, reversed};
use crate::text::join2;

verus! {

/// A notification as the store holds it.
pub struct NotificationRecord {
    pub notification_id: String,
    pub recipient_id: String,
    pub title: String,
    pub message: String,
    pub date: String,
    pub is_read: bool,
    pub kind: String,
}

/// A notification as its recipient sees it.
pub struct NotificationResponse {
    pub notification_id: String,
    pub title: String,
    pub message: String,
    pub date: String,
    pub is_read: bool,
    pub kind: String,
}

/// Seconds for which a user's notifications stay cached.
pub const NOTIFICATIONS_TTL: usize = 600;

/// The key under which the notifications of one user are cached.
pub open spec fn notifications_key_of(user_id: Seq<char>) -> Seq<char> {
    "notifications_"@ + user_id
}

/// The key under which the notifications of `user_id` are cached.
pub fn notifications_key(user_id: &str) -> (key: String)
    ensures
        key@ == notifications_key_of(user_id@),
{
    join2("notifications_", user_id)
}

/// Whether `response` shows `record`, field by field.
pub open spec fn shows_notification(response: NotificationResponse, record: NotificationRecord) -> bool {
    &&& response.notification_id == record.notification_id
    &&& response.title == record.title
    &&& response.message == record.message
    &&& response.date == record.date
    &&& response.is_read == record.is_read
    &&& response.kind == record.kind
}

/// Whether `responses` shows `records`, one for one and in order.
pub open spec fn shows_notifications(
    responses: Seq<NotificationResponse>,
    records: Seq<NotificationRecord>,
) -> bool {
    &&& responses.len() == records.len()
    &&& forall|i: int|
        0 <= i < responses.len() ==> shows_notification(#[trigger] responses[i], records[i])
}

/// What its recipient sees of `record`.
pub fn notification_response(record: &NotificationRecord) -> (response: NotificationResponse)
    ensures
        shows_notification(response, *record),
{
    NotificationResponse {
        notification_id: record.notification_id.clone(),
        title: record.title.clone(),
        message: record.message.clone(),
        date: record.date.clone(),
        is_read: record.is_read,
        kind: record.kind.clone(),
    }
}

/// What a read of the notifications of `user_id` comes to: the records that
/// the cache held, shown; or those that the store gave, shown and then cached
/// for ten minutes under the user's key as the store gave them; or a failure
/// where the store could not be read.
pub open spec fn notifications_read(
    served: Served<Vec<NotificationResponse>, Vec<NotificationRecord>>,
    source: ReadSource<Vec<NotificationRecord>, Vec<NotificationRecord>>,
    user_id: Seq<char>,
) -> bool {
    match source {
        ReadSource::Cache(cached) => served.handled.succeeds() && shows_notifications(
            served.handled.data()@,
            cached@,
        ) && served.handled.leaves_cache() && served.to_cache is None,
        ReadSource::Store(Ok(records)) => served.handled.succeeds() && shows_notifications(
            served.handled.data()@,
            records@,
        ) && served.handled.refreshes(notifications_key_of(user_id), NOTIFICATIONS_TTL)
            && served.to_cache == Some(records),
        ReadSource::Store(Err(detail)) => served.handled.fails_with(
            "Failed to fetch notifications: "@ + detail@,
        ) && served.handled.leaves_cache() && served.to_cache is None,
    }
}

/// Answers a request for the notifications of `user_id`, from the records
/// that the cache held or that the store gave.
pub fn view_notification(
    source: ReadSource<Vec<NotificationRecord>, Vec<NotificationRecord>>,
    user_id: &str,
) -> (served: Served<Vec<NotificationResponse>, Vec<NotificationRecord>>)
    ensures
        notifications_read(served, source, user_id@),
{
    match source {
        ReadSource::Cache(cached) => Served {
            handled: done(map_all(&cached, notification_response)),
            to_cache: None,
        },
        ReadSource::Store(Ok(records)) => {
            let key = notifications_key(user_id);
            Served {
                handled: served_from_store(
                    map_all(&records, notification_response),
                    key.as_str(),
                    NOTIFICATIONS_TTL,
                ),
                to_cache: Some(records),
            }
        },
        ReadSource::Store(Err(detail)) => Served {
            handled: failed("Failed to fetch notifications: ", detail.as_str()),
            to_cache: None,
        },
    }
}

/// Answers a user's request for their notifications: the same as
/// [`view_notification`].
pub fn get_notifications(
    source: ReadSource<Vec<NotificationRecord>, Vec<NotificationRecord>>,
    user_id: &str,
) -> (served: Served<Vec<NotificationResponse>, Vec<NotificationRecord>>)
    ensures
        notifications_read(served, source, user_id@),
{
    view_notification(source, user_id)
}

/// What a request to mark a user's notifications as read comes to, once the
/// notifications were looked up.
pub enum MarkPlan {
    /// Write these records, one after the other, and stop at the first that
    /// the store fails.
    Write(Vec<NotificationRecord>),
    /// Answer at once.
    Answer(Handled<()>),
}

/// Whether `marked` is `records` with each marked as read and nothing else
/// changed, one for one and in order.
pub open spec fn all_marked_read(marked: Seq<NotificationRecord>, records: Seq<NotificationRecord>) -> bool {
    &&& marked.len() == records.len()
    &&& forall|i: int|
        0 <= i < marked.len() ==> #[trigger] marked[i] == (NotificationRecord {
            is_read: true,
            ..records[i]
        })
}

/// Decides a request to mark a user's notifications as read, from the
/// notifications the store gave: each is to be written as read.
pub fn mark_all_notifications_read(fetched: Result<Vec<NotificationRecord>, String>) -> (plan:
    MarkPlan)
    ensures
        match fetched {
            Ok(records) => plan matches MarkPlan::Write(marked) && all_marked_read(
                marked@,
                records@,
            ),
            Err(detail) => plan matches MarkPlan::Answer(handled) && handled.fails_with(
                "Failed to fetch notifications: "@ + detail@,
            ) && handled.leaves_cache(),
        },
{
    match fetched {
        Ok(records) => {
            let ghost all = records@;
            let mut stack = reversed(records);
            assert(stack@.reverse() =~= all) by {
                assert(all.reverse().reverse() =~= all);
            }
            assert(all.subrange(0, all.len() as int) =~= all);
            let mut marked: Vec<NotificationRecord> = Vec::new();
            while stack.len() > 0
                invariant
                    marked@.len() + stack@.len() == all.len(),
                    stack@.reverse() == all.subrange(marked@.len() as int, all.len() as int),
                    forall|i: int|
                        0 <= i < marked@.len() ==> #[trigger] marked@[i] == (NotificationRecord {
                            is_read: true,
                            ..all[i]
                        }),
                decreases stack@.len(),
            {
                proof {
                    lemma_take_next(all, marked@.len() as int, stack@);
                }
                let mut record = stack.pop().unwrap();
                record.is_read = true;
                marked.push(record);
            }
            MarkPlan::Write(marked)
        },
        Err(detail) => MarkPlan::Answer(
            failed("Failed to fetch notifications: ", detail.as_str()),
        ),
    }
}

/// Answers a request to mark the notifications of `user_id` as read, once
/// the store has written them: `written` is the number of notifications it
/// wrote, `failure` its account of the first write that failed, if one did.
///
/// Where the store wrote any, the user's cached notifications are
/// invalidated, whether or not a later write failed; where it wrote none, the
/// cache is left alone.
pub fn notifications_marked(user_id: &str, written: usize, failure: Option<String>) -> (handled:
    Handled<()>)
    ensures
        match failure {
            None => handled.succeeds_with(()),
            Some(detail) => handled.fails_with(
                "Failed to mark notifications as read: "@ + detail@,
            ),
        },
        written > 0 ==> handled.invalidates(notifications_key_of(user_id@)),
        written == 0 ==> handled.leaves_cache(),
{
    let answered: Handled<()> = match failure {
        None => done(()),
        Some(detail) => failed("Failed to mark notifications as read: ", detail.as_str()),
    };
    if written > 0 {
        let key = notifications_key(user_id);
        Handled { result: answered.result, cache: CacheAction::Invalidate { keys: one_key(key.as_str()) } }
    } else {
        answered
    }
}

} // verus!
