//! The cache envelope: every cached value travels as `{"data":<value>}`.
//!
//! The value is the JSON text of whatever the caller caches, and the envelope
//! is the JSON object with that value as its one member `data`. This module
//! writes envelopes. Reading one is the work of the caller's JSON decoder,
//! which is handed the whole text as the cache held it (see
//! [`crate::cache::read_typed_reply`]): whatever it reads as an envelope is a
//! hit, in whatever layout the text came.

use vstd::prelude::*;
use vstd::string::*;

verus! {

/// The characters that open an envelope: `{"data":`.
pub open spec fn envelope_head() -> Seq<char> {
    seq!['{', '"', 'd', 'a', 't', 'a', '"', ':']
}

/// The character that closes an envelope.
pub open spec fn envelope_tail() -> Seq<char> {
    seq!['}']
}

/// The envelope around `value`.
pub open spec fn sealed(value: Seq<char>) -> Seq<char> {
    envelope_head() + value + envelope_tail()
}

/// Wraps the JSON text of a value in its envelope.
pub fn seal(value: &str) -> (raw: String)
    ensures
        raw@ == sealed(value@),
{
    proof {
        reveal_strlit("{\"data\":");
        reveal_strlit("}");
    }
    let mut raw = String::from_str("{\"data\":");
    assert(raw@ =~= envelope_head());
    raw.append(value);
    raw.append("}");
    assert(raw@ =~= sealed(value@));
    raw
}

} // verus!
