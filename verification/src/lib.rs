//! Read-only extractor for the encrypted local-storage format of a desktop
//! messenger profile directory: the `TDF$` file envelope, the legacy AES-IGE
//! encryption layer, the big-endian tagged value stream, and the account-map,
//! settings and theme records encoded inside it.

pub mod account;
pub mod boot;
pub mod color;
pub mod crypto;
pub mod digests;
pub mod encrypted;
pub mod envelope;
pub mod error;
pub mod filekey;
pub mod map;
pub mod schema;
pub mod stream;
pub mod theme;
