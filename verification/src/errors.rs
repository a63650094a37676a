//! The error taxonomy of the library, and the mapping from remote-operation
//! failures to the stream-side failure kinds that `read` and `seek` report.

use vstd::prelude::*;

verus! {

/// How a single remote call failed, reduced to the kind of the failure.
///
/// The first four variants are transport-level failures, independent of the
/// object addressed; the last three report what the service said about the
/// request itself.
#[derive(Clone, Copy, Debug, PartialEq, Eq, Structural)]
pub enum StorageErrorKind {
    /// The request timed out; it may or may not have been received.
    Timeout,
    /// The request could not be constructed and was never dispatched.
    ConstructionFailure,
    /// The request could not be sent.
    DispatchFailure,
    /// A response arrived but could not be understood.
    ResponseError,
    /// The service reported that the object does not exist.
    NotFound,
    /// The service reported the object as archived or otherwise unready.
    InvalidObjectState,
    /// The service reported an error this library does not recognise.
    Unhandled,
}

/// An error from one of the object-level remote operations.
///
/// Retrieval and metadata failures keep the kind of the underlying remote
/// failure; `Other` reports a violated internal expectation (for instance a
/// reported content length that does not fit the platform's size type) with
/// structured diagnostic context as key/value pairs.
#[derive(Debug)]
pub enum ObjectOperationError {
    /// A whole-object or ranged retrieval failed.
    GetObject(StorageErrorKind),
    /// A metadata request failed.
    HeadObject(StorageErrorKind),
    /// An internal expectation was violated; `data` carries diagnostic
    /// context such as the bucket name and the object key.
    Other { msg: String, data: Vec<(String, String)> },
}

/// The failure kinds of the synchronous stream interface, mirroring the
/// conventional I/O error kinds that `read` and `seek` surface.
#[derive(Clone, Copy, Debug, PartialEq, Eq, Structural)]
pub enum StreamErrorKind {
    /// The remote fetch timed out.
    TimedOut,
    /// The object does not exist.
    NotFound,
    /// The object is in a state that cannot be read.
    InvalidData,
    /// The caller asked for a seek before the start of the object.
    InvalidInput,
    /// Any other failure: infrastructure, unrecognised, or internal.
    Other,
}

/// A stream-side error: the kind a caller dispatches on, and a message with
/// the detail of what failed.
#[derive(Debug)]
pub struct StreamError {
    pub kind: StreamErrorKind,
    pub msg: String,
}

/// The stream-side kind that a remote-operation failure is surfaced as when
/// it crosses into the synchronous `read`/`seek` contract:
/// a retrieval timeout becomes `TimedOut`, a missing object `NotFound`, an
/// unready object `InvalidData`; every transport, metadata, unrecognised or
/// internal failure becomes the generic `Other`.
pub open spec fn stream_kind_of(e: ObjectOperationError) -> StreamErrorKind {
    match e {
        ObjectOperationError::GetObject(k) => match k {
            StorageErrorKind::Timeout => StreamErrorKind::TimedOut,
            StorageErrorKind::NotFound => StreamErrorKind::NotFound,
            StorageErrorKind::InvalidObjectState => StreamErrorKind::InvalidData,
            StorageErrorKind::ConstructionFailure => StreamErrorKind::Other,
            StorageErrorKind::DispatchFailure => StreamErrorKind::Other,
            StorageErrorKind::ResponseError => StreamErrorKind::Other,
            StorageErrorKind::Unhandled => StreamErrorKind::Other,
        },
        ObjectOperationError::HeadObject(_) => StreamErrorKind::Other,
        ObjectOperationError::Other { .. } => StreamErrorKind::Other,
    }
}

/// Map a remote-operation failure to the kind it presents through the
/// synchronous stream interface.
pub fn map_operation_error(e: &ObjectOperationError) -> (k: StreamErrorKind)
    ensures
        k == stream_kind_of(*e),
{
    match e {
        ObjectOperationError::GetObject(k) => match k {
            StorageErrorKind::Timeout => StreamErrorKind::TimedOut,
            StorageErrorKind::NotFound => StreamErrorKind::NotFound,
            StorageErrorKind::InvalidObjectState => StreamErrorKind::InvalidData,
            _ => StreamErrorKind::Other,
        },
        _ => StreamErrorKind::Other,
    }
}

} // verus!
