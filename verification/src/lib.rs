//! A distributed unique-identifier allocator in the Snowflake tradition.
//!
//! Each identifier packs a masked timestamp, a fixed per-instance generator
//! identity, and a per-tick sequence counter into one 64-bit integer. The
//! bit layout is described by [`structure::IdStructure`]; identifiers are
//! issued by [`generator::SafeIdGenerator`], which enforces clock
//! monotonicity under concurrent access.

pub mod clock;
pub mod structure;
pub mod encoding;
pub mod generator;
pub mod decimal;
pub mod service;
pub mod log_layer;
