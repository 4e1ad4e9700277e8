//! Key specifications for RSA key pairs held by a key-management service.
//!
//! A caller states what a key is for (signing or encryption, with or without
//! OAEP, and optionally a size); the library turns that intent into the
//! complete attributes of the key to create.

pub mod algorithm;
pub mod attributes;
pub mod command;
pub mod derivation;
pub mod usage;

pub use command::CreateRsaKey;
pub use derivation::{build_attributes, derive_policy};
