//! Parameter validation and textual hash codec for the Argon2 family.
//!
//! The crate has two independent parts that share one data vocabulary:
//! a validated parameter set ([`HasherConfig`](config::HasherConfig)) and
//! a codec for the canonical `$argon2…` textual hash encoding
//! ([`decode_rust`](decode::decode_rust) / [`encode_rust`](encode::encode_rust)).

pub mod b64;
pub mod config;
pub mod decode;
pub mod digits;
pub mod encode;
pub mod errors;
pub mod output;
pub mod pool;
pub mod scan;

pub use config::HasherConfig;
pub use decode::decode_rust;
pub use encode::encode_rust;
pub use output::HashRaw;
