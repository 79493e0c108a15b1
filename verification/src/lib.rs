//! Per-key request counting with a fixed-origin expiry window.
//!
//! The library tracks, for each client-and-path key, how many requests have
//! been seen since the key's current counting window began. A window expires
//! once more than a time-to-live (TTL) has passed since its origin; expiry is
//! resolved lazily, when a key is next touched, never by background sweeping.
//!
//! All clock readings are caller-supplied milliseconds from a monotonic
//! source, so every rule about time is stated and proved over plain integers.
//!
//! The counting discipline is strict write-through: every increment checks
//! staleness and resets-then-increments in one mutation under one writer
//! lock acquisition, and reads never mutate. No read path hands out a
//! synthetic value or schedules an asynchronous repair, so no update to a
//! key can be lost to a racing reset.

pub mod entry;
pub mod laws;
pub mod request;
pub mod service;
pub mod store;

pub use entry::Entry;
pub use service::CountResponse;
pub use store::CountingStore;
pub use store::DEFAULT_TTL_MILLIS;
