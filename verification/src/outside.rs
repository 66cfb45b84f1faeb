//! The calls this crate makes into other crates for values it cannot compute
//! itself: identifiers, the time of day, and the text form of binary data.
//! Each stands behind one function whose contract is taken on trust.

use vstd::prelude::*;
use tokio::task::JoinHandle;

verus! {

/// `tokio::task::JoinHandle`, the runtime's handle on a spawned task. It is
/// carried about and nothing inside it is seen.
#[verifier::external_type_specification]
#[verifier::external_body]
#[verifier::reject_recursive_types(T)]
pub struct ExJoinHandle<T>(JoinHandle<T>);

/// `tokio::task::JoinError`, which a handle yields when it is awaited. No
/// function here awaits one; the type is named because the handle's own
/// declaration names it.
#[verifier::external_type_specification]
#[verifier::external_body]
pub struct ExJoinError(tokio::task::JoinError);

/// The receipt of a cancellation: whoever holds it has had the runtime asked
/// to cancel the task behind the handle it names. Only [`request_abort`]
/// makes one.
pub struct AbortReceipt {
    handle: JoinHandle<()>,
}

impl AbortReceipt {
    /// The handle of the task whose cancellation was asked for.
    pub closed spec fn aborted(&self) -> JoinHandle<()> {
        self.handle
    }
}

/// Calls `tokio::task::JoinHandle::abort` on `handle`, which asks the runtime
/// to cancel the task at its next suspension point, and hands back a receipt
/// that names the handle. The call returns nothing and shows nothing of the
/// task's progress; all that is claimed is which handle the receipt is for.
#[verifier::external_body]
pub(crate) fn request_abort(handle: JoinHandle<()>) -> (receipt: AbortReceipt)
    ensures
        receipt.aborted() == handle,
{
    handle.abort();
    AbortReceipt { handle }
}

/// The base64 text of `bytes` in the standard alphabet with padding, as the
/// `base64` crate's `encode` gives it.
pub uninterp spec fn base64_text(bytes: Seq<u8>) -> Seq<char>;

/// Calls `base64::encode`, which encodes with the crate's `STANDARD` engine.
/// The result depends on the bytes alone and is known to contracts as
/// [`base64_text`].
#[verifier::external_body]
#[allow(deprecated)]
pub(crate) fn encode_base64(bytes: &Vec<u8>) -> (text: String)
    ensures
        text@ == base64_text(bytes@),
{
    base64::encode(bytes)
}

/// Calls `uuid::Uuid::new_v4` and takes the identifier's text form, which is
/// the hyphenated one: 36 characters. Which identifier comes back is up to
/// the system's random source, so only the length is claimed.
#[verifier::external_body]
pub(crate) fn random_uuid_text() -> (text: String)
    ensures
        text@.len() == 36,
{
    uuid::Uuid::new_v4().to_string()
}

/// Calls `chrono::Utc::now` and `DateTime::to_rfc3339` on what it returns.
/// The text is the clock's; nothing is claimed of it.
#[verifier::external_body]
pub(crate) fn utc_now_rfc3339() -> (text: String) {
    chrono::Utc::now().to_rfc3339()
}

/// The two layouts of a date that this crate asks the clock for: a date and
/// a time of day in digits, and a date with the month by its name. Both are
/// layouts that `chrono` knows.
pub open spec fn is_known_layout(layout: Seq<char>) -> bool {
    layout == "%Y-%m-%d %H:%M:%S"@ || layout == "%B %d, %Y"@
}

/// Calls `chrono::Utc::now` and `DateTime::format` with `layout`, and takes
/// the text of what that gives. The text is the clock's; nothing is claimed
/// of it. A layout that `chrono` does not know would fail when the text is
/// made, so only the two known ones are let in.
#[verifier::external_body]
pub(crate) fn utc_now_in_layout(layout: &str) -> (text: String)
    requires
        is_known_layout(layout@),
{
    chrono::Utc::now().format(layout).to_string()
}

} // verus!
