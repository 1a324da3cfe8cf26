//! Turns a GitHub user's public event feed into a readable activity log.

pub mod event;
pub mod fetch;
pub mod format;
pub mod json;
pub mod laws;
pub mod report;
pub mod text;
