//! Realtime subscription management and cache-aside reads for a theme-park
//! operations backend.
//!
//! The crate holds the decisions of the backend as verified functions on plain
//! values: which cache command to issue and how to read its reply, which
//! subscription occupies the single listener slot, what a change-stream
//! worker does with each event the transport hands it, and what each request
//! handler answers and does to the cache, given what the cache and the stores
//! gave it. Talking to the cache backend, the relational store, the document
//! store and the user interface is left to the caller.
//!
//! - [`envelope`], [`cache`], [`backend`]: the cache-aside layer and an
//!   in-memory backend over which its laws are stated.
//! - [`registry`], [`worker`], [`chat`]: the single subscription slot, the
//!   change-stream worker, and the chat rooms they serve.
//! - [`response`]: what a handled request consists of, and the rule that ties
//!   responses to cache actions.
//! - [`orders`], [`queues`], [`restaurants`], [`stores`], [`lost_and_found`],
//!   [`notifications`], [`maintenance`], [`users`], [`catalog`]: the handlers,
//!   with [`pictures`], [`rows`] and [`text`] for what they share.
//! - [`outside`]: the calls into other crates, taken on trust.

use vstd::prelude::*;

pub mod backend;
pub mod cache;
pub mod catalog;
pub mod chat;
pub mod envelope;
pub mod lost_and_found;
pub mod maintenance;
pub mod notifications;
pub mod orders;
pub mod outside;
pub mod pictures;
pub mod queues;
pub mod registry;
pub mod restaurants;
pub mod response;
pub mod rows;
pub mod stores;
pub mod text;
pub mod users;
pub mod worker;

verus! {

/// Sum of two counters.
pub fn add(left: u64, right: u64) -> (sum: u64)
    requires
        left + right <= u64::MAX,
    ensures
        sum == left + right,
{
    left + right
}

} // verus!
