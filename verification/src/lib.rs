//! A password-gated record.
//!
//! A caller seals an opaque text payload behind the SHA-256 digest of a
//! password; later the payload can be read back only by presenting a
//! password with the same digest.  The crate provides the record itself
//! ([`record::SignatureRecord`]), its binary persistence format
//! ([`codec`]), and the two-operation request protocol that selects
//! between sealing and unsealing ([`dispatch`]).

pub mod codec;
pub mod dispatch;
pub mod errors;
pub mod hashing;
pub mod record;
pub mod text;
