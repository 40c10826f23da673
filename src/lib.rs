//! Safe session layer over a stateful AV1 codec engine.
//!
//! The native engine is driven by the host through a context handle, an
//! output cursor and raw result codes. This crate holds the rules of that
//! protocol as plain values: how result codes map to errors, when the cursor
//! is reset, how opaque user data is handed over and handed back exactly
//! once, and how native pictures and output records become owned values.

pub mod decoder;
pub mod encoder;
pub mod error;
pub mod ledger;
pub mod packet;
pub mod picture;
pub mod session;
