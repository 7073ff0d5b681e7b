use vstd::prelude::*;

verus! {

/// The failures this crate can return.  No kind is ever collapsed into
/// another; each one names a distinct cause.
#[derive(Clone, Copy, Debug, PartialEq, Eq, Structural)]
pub enum GateError {
    /// A password (or a payload that must be stored as text) was supplied
    /// as bytes that are not valid UTF-8.
    InvalidCredentialEncoding,
    /// Stored bytes do not decode into a well-formed record: the buffer is
    /// shorter than the fixed header, its length field disagrees with its
    /// actual length, or its payload bytes are not valid text.
    MalformedRecord,
    /// The digest of the presented password differs from the digest the
    /// record was sealed with.
    AuthenticationFailed,
    /// A request named an operation selector outside the defined set.
    UnknownOperation,
}

} // verus!
