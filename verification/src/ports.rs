//! Error vocabulary of the transport boundary.
//!
//! Publishing events and querying them back cross an input/output boundary
//! that lives outside this crate; these are the typed failures such an
//! adapter reports. They are transient in nature and retried with backoff by
//! the adapter, unlike the domain's validation errors.

use vstd::prelude::*;

verus! {

/// Failure to publish an event to the durable log.
#[derive(Debug, Clone, PartialEq, Eq)]
pub enum PublishError {
    /// Failed to connect to the transport
    ConnectionError(String),
    /// Failed to publish the event
    PublishFailed(String),
    /// The stream does not exist
    StreamNotFound(String),
    /// The event could not be serialized
    SerializationError(String),
}

/// Failure to query events back from the durable log.
#[derive(Debug, Clone, PartialEq, Eq)]
pub enum QueryError {
    /// The query itself failed
    QueryFailed(String),
    /// The consumer could not be created or read
    ConsumerError(String),
    /// An event could not be deserialized
    DeserializationError(String),
}

} // verus!
