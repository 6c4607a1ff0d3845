//! Bridge between a callback-driven native layer and structured, owned,
//! single-observer event delivery.
//!
//! The crate models the values that cross the native boundary (nullable byte
//! buffers in, null-terminated byte buffers out), builds typed device records
//! and events from them, and delivers events to an at-most-one registered
//! observer. Outbound commands are encoded here; the unverifiable edge (the
//! actual native calls) stays outside the library and hands plain values back.

pub mod marshal;
pub mod bridge;
pub mod registry;
pub mod dispatch;
pub mod models;
pub mod commands;
pub mod storekit;
pub mod applekit;
