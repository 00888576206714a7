//! Conversion between CBOR and JSON, with detection of base64-wrapped CBOR.
pub mod bridge;
pub mod error;
pub mod sniff;
pub mod text;
