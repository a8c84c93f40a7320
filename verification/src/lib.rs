//! Shreds a user's content on a link-sharing service: lists the user's
//! comments, posts, saved items, upvotes and friends, from the service's
//! paginated listings or from an export of the user's data, filters them,
//! and replaces and removes what is left.
//!
//! The library decides and the caller acts. It says which request comes
//! next, which items a filter keeps back, and what follows from each answer
//! of the service; sending the requests, sleeping and logging are the
//! caller's.

pub mod access_token;
pub mod cli;
pub mod filter;
pub mod json;
pub mod request;
pub mod shred;
pub mod sources;
pub mod things;
pub mod throttle;
pub mod time;
