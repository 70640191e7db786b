//! A versioned binary codec for tagged "datapoint" records.
//!
//! A record is a tagged value: one variant of a closed catalog, each variant
//! carrying a fixed-layout payload. On the wire a record becomes a frame
//! `[length_prefix?][tag][payload]`, where the presence of the one-byte
//! length prefix and the width of the tag field (one or two bytes) are
//! selected by a protocol version supplied at each call.

pub mod le_bytes;
pub mod value;
pub mod codec;
pub mod laws;

pub use codec::DpError;
pub use value::MyEnum;
