//! Fetch-side decoding of on-chain interface-description (IDL) records.
//!
//! The heart of the crate is [`record`]: it imposes the fixed binary layout
//! (8-byte discriminator, 32-byte authority, 8-byte little-endian payload
//! length, payload) on a raw account buffer and extracts the embedded JSON
//! document, reporting a precise failure kind for every malformed input.
//! [`address`] parses human-readable account identifiers, [`cluster`] maps
//! network names to RPC endpoints, and [`errors`] holds the closed set of
//! failure kinds shared by the whole pipeline.

pub mod address;
pub mod cluster;
pub mod errors;
pub mod hashing;
pub mod json;
pub mod record;
