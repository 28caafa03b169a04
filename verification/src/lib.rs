//! Polymorphic event containers for a chat protocol.
//!
//! Messages ("events") carry a string discriminator in their `"type"` field
//! that selects a concrete shape from an open catalog. Three tagged unions
//! aggregate the known shapes plus fallback members for unrecognized ones:
//! `Event` (every shape), `RoomEvent` (room-scoped and state shapes), and
//! `StateEvent` (state shapes only). This crate verifies the container layer:
//! resolving the discriminator from a structured value, dispatching to the
//! matching member, classifying unknown discriminators by field presence, and
//! delegating encoding to the contained value.

pub mod collections;
pub mod event_type;
pub mod json;
pub mod laws;
pub mod receipt;
pub mod records;
