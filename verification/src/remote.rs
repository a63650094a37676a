//! The trusted boundary to the remote storage service: declarations of the
//! transport client's types, and thin wrappers around its asynchronous calls,
//! each driven to completion on a single-threaded execution context of its
//! own. Every wrapper blocks the calling thread for the duration of one call
//! and must not be entered from inside another asynchronous context.

use vstd::prelude::*;

use aws_sdk_s3::error::ProvideErrorMetadata;
use aws_sdk_s3::error::SdkError;
use aws_sdk_s3::operation::get_object::GetObjectError;
use aws_sdk_s3::operation::head_object::HeadObjectError;

use crate::errors::StorageErrorKind;

verus! {

#[verifier::external_type_specification]
#[verifier::external_body]
pub struct ExClient(aws_sdk_s3::Client);

#[verifier::external_type_specification]
#[verifier::external_body]
pub struct ExSdkConfig(aws_config::SdkConfig);

#[verifier::external_type_specification]
#[verifier::external_body]
pub struct ExS3Error(aws_sdk_s3::Error);

#[verifier::external_type_specification]
#[verifier::external_body]
pub struct ExDateTime(aws_smithy_types::DateTime);

#[verifier::external_type_specification]
#[verifier::external_body]
#[verifier::reject_recursive_types(E)]
#[verifier::reject_recursive_types(R)]
pub struct ExSdkError<E, R>(aws_smithy_runtime_api::client::result::SdkError<E, R>);

#[verifier::external_type_specification]
#[verifier::external_body]
pub struct ExGetObjectError(GetObjectError);

#[verifier::external_type_specification]
#[verifier::external_body]
pub struct ExHeadObjectError(HeadObjectError);

#[verifier::external_type_specification]
#[verifier::external_body]
pub struct ExSdkBody(aws_smithy_types::body::SdkBody);

#[verifier::external_type_specification]
#[verifier::external_body]
#[verifier::reject_recursive_types(B)]
pub struct ExHttpResponse<B>(aws_smithy_runtime_api::http::Response<B>);

/// Why a ranged retrieval produced no bytes: the request itself failed, or
/// the returned stream broke while being drained.
pub(crate) enum FetchFailure {
    Send(SdkError<GetObjectError>),
    Collect,
}

/// Relies on aws_sdk_s3::Client::new, which builds a service client over the
/// supplied shared configuration.
#[verifier::external_body]
pub(crate) fn new_client(config: &aws_config::SdkConfig) -> (c: aws_sdk_s3::Client) {
    aws_sdk_s3::Client::new(config)
}

/// Relies on the derived Clone of aws_sdk_s3::Client, which clones a cheap
/// shared handle to the same underlying connection pool.
#[verifier::external_body]
pub(crate) fn clone_client(client: &aws_sdk_s3::Client) -> (c: aws_sdk_s3::Client) {
    client.clone()
}

/// Relies on aws_sdk_s3's GetObject with a `bytes=first-last` range header:
/// the call returns the body of the requested inclusive range, or the error
/// the transport or service reported; the body is drained to plain bytes
/// here. Nothing is promised of the outcome, which depends on the remote
/// service.
#[verifier::external_body]
pub(crate) fn send_get_range(
    client: &aws_sdk_s3::Client,
    bucket: &str,
    key: &str,
    first: usize,
    last: usize,
) -> (r: Result<Vec<u8>, FetchFailure>) {
    let rt = tokio::runtime::Builder::new_current_thread().enable_all().build().expect(
        "tokio runtime",
    );
    let range = format!("bytes={}-{}", first, last);
    let sent = rt.block_on(client.get_object().bucket(bucket).key(key).range(range).send());
    match sent {
        Ok(out) => match rt.block_on(out.body.collect()) {
            Ok(data) => Ok(data.to_vec()),
            Err(_) => Err(FetchFailure::Collect),
        },
        Err(e) => Err(FetchFailure::Send(e)),
    }
}

/// Relies on aws_sdk_s3's HeadObject, made conditional with
/// `if_modified_since` when a timestamp is supplied: the call returns the
/// reported content length and modification time, or the error the transport
/// or service reported. Nothing is promised of the outcome, which depends on
/// the remote service.
#[verifier::external_body]
pub(crate) fn send_head(
    client: &aws_sdk_s3::Client,
    bucket: &str,
    key: &str,
    if_modified_since: Option<aws_smithy_types::DateTime>,
) -> (r: Result<(Option<i64>, Option<aws_smithy_types::DateTime>), SdkError<HeadObjectError>>) {
    let rt = tokio::runtime::Builder::new_current_thread().enable_all().build().expect(
        "tokio runtime",
    );
    let mut req = client.head_object().bucket(bucket).key(key);
    if let Some(dt) = if_modified_since {
        req = req.if_modified_since(dt);
    }
    match rt.block_on(req.send()) {
        Ok(out) => Ok((out.content_length(), out.last_modified().copied())),
        Err(e) => Err(e),
    }
}

/// Relies on the variants of the SDK's SdkError and GetObjectError: each arm
/// only names which failure the SDK reported.
#[verifier::external_body]
pub(crate) fn classify_get_error(e: &SdkError<GetObjectError>) -> (k: StorageErrorKind) {
    match e {
        SdkError::TimeoutError(_) => StorageErrorKind::Timeout,
        SdkError::ConstructionFailure(_) => StorageErrorKind::ConstructionFailure,
        SdkError::DispatchFailure(_) => StorageErrorKind::DispatchFailure,
        SdkError::ResponseError(_) => StorageErrorKind::ResponseError,
        SdkError::ServiceError(s) if s.err().is_invalid_object_state() => {
            StorageErrorKind::InvalidObjectState
        },
        SdkError::ServiceError(s) if s.err().is_no_such_key() => StorageErrorKind::NotFound,
        _ => StorageErrorKind::Unhandled,
    }
}

/// Relies on the SDK's raw response and error metadata: a metadata request
/// answered with the not-modified status surfaces as a service error whose
/// raw status is 304, or whose error code starts with "304".
#[verifier::external_body]
pub(crate) fn head_not_modified(e: &SdkError<HeadObjectError>) -> (b: bool) {
    match e {
        SdkError::ServiceError(s) => {
            s.raw().status().as_u16() == 304 || s.err().code().map_or(
                false,
                |c| c.starts_with("304"),
            )
        },
        _ => false,
    }
}

/// Relies on the variants of the SDK's SdkError and HeadObjectError: each
/// arm only names which failure the SDK reported.
#[verifier::external_body]
pub(crate) fn classify_head_error(e: &SdkError<HeadObjectError>) -> (k: StorageErrorKind) {
    match e {
        SdkError::TimeoutError(_) => StorageErrorKind::Timeout,
        SdkError::ConstructionFailure(_) => StorageErrorKind::ConstructionFailure,
        SdkError::DispatchFailure(_) => StorageErrorKind::DispatchFailure,
        SdkError::ResponseError(_) => StorageErrorKind::ResponseError,
        SdkError::ServiceError(s) if s.err().is_not_found() => StorageErrorKind::NotFound,
        _ => StorageErrorKind::Unhandled,
    }
}

} // verus!
