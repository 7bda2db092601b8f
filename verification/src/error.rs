//! Errors of session operations.

use vstd::prelude::*;

verus! {

#[verifier::external_type_specification]
#[verifier::external_body]
pub struct ExRedisError(redis::RedisError);

#[verifier::external_type_specification]
#[verifier::external_body]
pub struct ExMemcacheError(memcache::MemcacheError);

#[verifier::external_type_specification]
#[verifier::external_body]
pub struct ExHttpError(reqwest::Error);

/// Result type for session operations.
pub type SessionResult<T> = Result<T, SessionError>;

/// Session-specific errors.
#[derive(Debug)]
pub enum SessionError {
    /// Redis-specific error
    Redis(redis::RedisError),
    /// Memcached-specific error
    Memcached(memcache::MemcacheError),
    /// CouchDB-specific error
    CouchDb(String),
    /// HTTP request error (CouchDB)
    Http(reqwest::Error),
    /// Serialization error
    Serialization(String),
    /// Deserialization error
    Deserialization(String),
    /// Session not found
    NotFound(String),
    /// Session expired
    Expired(String),
    /// Connection error
    Connection(String),
    /// Configuration error
    Config(String),
    /// Invalid URL
    InvalidUrl(String),
    /// Operation timeout
    Timeout,
    /// Invalid session ID
    InvalidSessionId(String),
    /// Generic error
    Other(String),
}

} // verus!
