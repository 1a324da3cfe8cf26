//! One record of a user's public event feed.

use serde_json::Value;
use vstd::prelude::*;

verus! {

/// The account that caused an event.
#[derive(Debug)]
pub struct Actor {
    pub login: String,
}

/// The repository that an event happened in.
#[derive(Debug)]
pub struct Repository {
    /// The full name: owner and repository, joined by a slash.
    pub name: String,
}

/// A point in time in UTC.
#[derive(Debug, Clone, Copy)]
pub struct Timestamp {
    /// Whole seconds since 1970-01-01T00:00:00Z, leap seconds not counted.
    pub seconds: i64,
    /// Nanoseconds since the start of that second.
    pub nanoseconds: u32,
}

/// One event of the feed, as the API reports it. Events are never changed
/// once built; a feed keeps them in the order in which the server sent them.
#[derive(Debug)]
pub struct GitHubEvent {
    /// The kind of event, such as `PushEvent`.
    pub event_type: String,
    pub actor: Actor,
    pub repo: Repository,
    /// Details whose shape depends on the kind of event.
    pub payload: Value,
    pub created_at: Timestamp,
}

} // verus!
