//! Snowflake-style 64-bit identifier generation.
//!
//! A worker packs a quantized timestamp, a per-tick sequence counter and a
//! machine identifier into one 64-bit value. Construction fixes the bit
//! layout; each generation step advances a compound `{last_tick, sequence}`
//! state and packs the three fields. Stateless converters present a generated
//! value as decimal, binary, base-62, base-64 or UUID-shaped text.

pub mod codec;
pub mod guid;
pub mod id;
pub mod mask;
pub mod pack;
pub mod text;
pub mod worker;

pub use id::FastId;
pub use mask::mask;
pub use worker::DEFAULT_EPOCH;
pub use worker::FastIdWorker;
