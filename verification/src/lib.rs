//! A unique ID generator in the Twitter Snowflake style: 64-bit identifiers
//! packed from a millisecond timestamp, a worker ID, and a per-millisecond
//! sequence counter.
//!
//! Default layout, most significant bits first: one sign bit (always 0),
//! 41 timestamp bits (milliseconds since a configurable epoch), 10 worker ID
//! bits, and 12 sequence bits. The split between worker ID and sequence bits
//! is configurable; the two together always fill the 22 adjustable bits, and
//! each must be at least 1 bit wide.
//!
//! IDs from one generator are unique and strictly increasing; generators with
//! different worker IDs never collide, because the worker field occupies its
//! own bit range. These properties are stated as contracts and proved; see
//! the lemmas in [`laws`].

pub mod decimal;
pub mod error;
mod clock;
pub mod generator;
pub mod laws;

pub use error::SnowflakeError;
pub use generator::Snowflake;
pub use generator::SnowflakeBuilder;
