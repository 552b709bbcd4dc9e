use vstd::prelude::*;

verus! {

/// Failures surfaced by the connection and statistics engine.
#[derive(Debug, Clone, PartialEq, Eq)]
pub enum EasyKafkaError {
    /// A capability token failed its signature, issuer or expiry check.
    InvalidToken,
    /// Claims could not be signed into a capability token; signing the
    /// claims the library renders never fails.
    TokenEncodingFailed,
    /// No stored connection profile has the given identifier.
    ConnectionNotFound(String),
    /// A connection description is incomplete or contradictory.
    InvalidDescriptor,
    /// Building an administrative session failed.
    ConnectFailed,
    /// A metadata or watermark read failed, timed out, or returned bad data.
    MetadataFetchFailed,
    /// The shared session map could not be locked.
    PoolUnavailable,
}

/// The result of a fallible operation of the engine.
pub type EasyKafkaResult<T> = Result<T, EasyKafkaError>;

} // verus!
