//! A status-line segment that reports a user's remaining quota against
//! a usage-tracking service.
//!
//! The library holds the decision core of the segment: resolving
//! credentials and endpoint URLs from per-segment options, a fallback
//! settings store and fixed defaults; turning a fetched usage record
//! into the two-line display text with its metadata; and, when the
//! quota is exhausted, choosing the remediation hint from the list of
//! active subscriptions. The network fetches themselves belong to the
//! embedding program, which hands their outcomes in as plain values.

pub mod config;
pub mod decide;
pub mod pipeline;
pub mod render;
pub mod usage;
