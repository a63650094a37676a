//! The object handle: per-object cursor state, cached metadata, and the
//! bridging of the asynchronous range-fetch and metadata operations into the
//! synchronous read/seek contract.

use vstd::prelude::*;

use crate::errors::{map_operation_error, ObjectOperationError, StorageErrorKind, StreamError,
    StreamErrorKind};
use crate::remote::{classify_get_error, classify_head_error, head_not_modified, send_get_range,
    send_head, FetchFailure};
use crate::stream::{plan_read, resolve_seek, seek_target, take_fetched, ReadPlan, SeekFrom};

verus! {

/// What a metadata request came back with: the service's word that the
/// object is unchanged, fresh metadata, or a failure of the given kind.
pub enum HeadOutcome {
    NotModified,
    Metadata { content_length: Option<i64>, last_modified: Option<aws_smithy_types::DateTime> },
    Failed(StorageErrorKind),
}

/// A handle on one remote object: its immutable identity, the cursor and
/// cached metadata of the synchronous stream interface, and a shared handle
/// on the transport client.
pub struct Object {
    pub bucket_name: String,
    pub key: String,
    pub position: usize,
    pub length: Option<usize>,
    pub last_modified: Option<aws_smithy_types::DateTime>,
    pub client: aws_sdk_s3::Client,
}

impl Object {
    /// A fresh handle: cursor at the start, no metadata resolved yet.
    pub(crate) fn new(bucket_name: String, key: String, client: aws_sdk_s3::Client) -> (obj:
        Object)
        ensures
            obj.bucket_name == bucket_name,
            obj.key == key,
            obj.position == 0,
            obj.length is None,
            obj.last_modified is None,
    {
        Object { bucket_name, key, position: 0, length: None, last_modified: None, client }
    }

    /// The cursor position, in bytes from the start of the object.
    pub fn position(&self) -> (p: usize)
        ensures
            p == self.position,
    {
        self.position
    }

    /// The cached total length in bytes, `None` until first resolved by a
    /// metadata refresh.
    pub fn length(&self) -> (l: Option<usize>)
        ensures
            l == self.length,
    {
        self.length
    }

    /// The cached modification timestamp, used to make metadata refreshes
    /// conditional.
    pub fn last_modified(&self) -> (t: Option<aws_smithy_types::DateTime>)
        ensures
            t == self.last_modified,
    {
        self.last_modified
    }

    /// The shared transport client handle this object calls through.
    pub fn client(&self) -> &aws_sdk_s3::Client {
        &self.client
    }

    /// The internal-invariant error for a reported content length that is
    /// missing or does not fit the platform's size type, carrying the
    /// object's identity as diagnostic context.
    fn invalid_length_error(&self) -> (e: ObjectOperationError)
        ensures
            (e matches ObjectOperationError::Other { msg: _, data } && data@.len() == 2 && data@[0].0@
                == "bucket_name"@ && data@[0].1 == self.bucket_name && data@[1].0@ == "key"@
                && data@[1].1 == self.key),
    {
        let mut data: Vec<(String, String)> = Vec::new();
        data.push(("bucket_name".to_owned(), self.bucket_name.clone()));
        data.push(("key".to_owned(), self.key.clone()));
        ObjectOperationError::Other {
            msg: "object content length does not fit into a usize".to_owned(),
            data,
        }
    }

    /// Fold the outcome of a metadata request into the cached state.
    ///
    /// "Not modified" is success with no change at all. Fresh metadata
    /// resolves the length — failing with the internal-invariant error, and
    /// changing nothing, when the reported length is missing or does not fit
    /// the platform's size type — and updates the modification timestamp. A
    /// failed request is propagated and changes nothing. The cursor and the
    /// object's identity are never touched.
    pub fn apply_head_outcome(&mut self, outcome: HeadOutcome) -> (r: Result<
        (),
        ObjectOperationError,
    >)
        ensures
            final(self).bucket_name == old(self).bucket_name,
            final(self).key == old(self).key,
            final(self).position == old(self).position,
            final(self).client == old(self).client,
            outcome is NotModified ==> r is Ok && *final(self) == *old(self),
            outcome matches HeadOutcome::Metadata { content_length: Some(n), last_modified: lm }
                ==> (0 <= n <= usize::MAX ==> (r is Ok && final(self).length == Some(n as usize)
                && final(self).last_modified == lm)),
            outcome matches HeadOutcome::Metadata { content_length: cl, last_modified: _ } ==> (!(
            cl matches Some(n) && 0 <= n <= usize::MAX) ==> (*final(self) == *old(self) && (
            r matches Err(e) && (e matches ObjectOperationError::Other { msg: _, data }
                && data@.len() == 2 && data@[0].0@ == "bucket_name"@ && data@[0].1 == old(self).bucket_name && data@[1].0@ == "key"@ && data@[1].1 == old(self).key)))),
            outcome matches HeadOutcome::Failed(k) ==> (*final(self) == *old(self) && (
            r matches Err(e) && e == ObjectOperationError::HeadObject(k))),
    {
        match outcome {
            HeadOutcome::NotModified => Ok(()),
            HeadOutcome::Metadata { content_length, last_modified } => {
                let fits: Option<usize> = match content_length {
                    Some(n) => {
                        if n >= 0 && (n as u64) <= (usize::MAX as u64) {
                            Some(n as usize)
                        } else {
                            None
                        }
                    },
                    None => None,
                };
                match fits {
                    Some(len) => {
                        self.length = Some(len);
                        self.last_modified = last_modified;
                        Ok(())
                    },
                    None => Err(self.invalid_length_error()),
                }
            },
            HeadOutcome::Failed(k) => Err(ObjectOperationError::HeadObject(k)),
        }
    }

    /// Refresh the cached metadata with a metadata-only request, made
    /// conditional on the cached modification timestamp when one is present.
    /// "Not modified" is success with no state change; fresh metadata
    /// resolves the length and timestamp; any other failure is propagated
    /// unchanged and changes nothing. A length once resolved never becomes
    /// unresolved again.
    pub fn refresh_metadata(&mut self) -> (r: Result<(), ObjectOperationError>)
        ensures
            final(self).bucket_name == old(self).bucket_name,
            final(self).key == old(self).key,
            final(self).position == old(self).position,
            final(self).client == old(self).client,
            r is Err ==> *final(self) == *old(self),
            r is Ok ==> final(self).length is Some || *final(self) == *old(self),
            old(self).length is Some ==> final(self).length is Some,
    {
        let outcome = match send_head(
            &self.client,
            self.bucket_name.as_str(),
            self.key.as_str(),
            self.last_modified,
        ) {
            Ok((content_length, last_modified)) => HeadOutcome::Metadata {
                content_length,
                last_modified,
            },
            Err(e) => {
                if head_not_modified(&e) {
                    HeadOutcome::NotModified
                } else {
                    HeadOutcome::Failed(classify_head_error(&e))
                }
            },
        };
        self.apply_head_outcome(outcome)
    }

    /// Read up to `buf.len()` bytes at the cursor into the front of `buf`.
    ///
    /// Resolves the length first where it is not yet cached; a failure of
    /// that refresh is the call's failure. At or past the end of the object
    /// — and for an empty buffer — reports zero bytes read and changes
    /// nothing. Otherwise fetches the planned range and copies what actually
    /// arrived into the front of `buf`: never more than the buffer's length,
    /// never more than what remains before the end of the object; the cursor
    /// advances by exactly the count returned. The rest of the buffer keeps
    /// its old bytes. On failure the cursor and the buffer are unchanged.
    pub fn read(&mut self, buf: &mut Vec<u8>) -> (r: Result<usize, StreamError>)
        ensures
            final(self).bucket_name == old(self).bucket_name,
            final(self).key == old(self).key,
            final(buf)@.len() == old(buf)@.len(),
            old(self).length is Some ==> final(self).length == old(self).length && final(self).last_modified == old(self).last_modified,
            r is Err ==> final(self).position == old(self).position && final(buf)@ == old(buf)@,
            r matches Ok(n) ==> n <= old(buf)@.len() && final(self).position == old(self).position
                + n && (final(self).length matches Some(l) && ((old(self).position >= l ==> n == 0)
                && (old(self).position < l ==> old(self).position + n <= l))) && (forall|j: int|
                n <= j < old(buf)@.len() ==> final(buf)@[j] == old(buf)@[j]),
            (old(self).length matches Some(l) && old(self).position >= l) ==> (r matches Ok(n) && n
                == 0 && *final(self) == *old(self) && final(buf)@ == old(buf)@),
    {
        if self.length.is_none() {
            match self.refresh_metadata() {
                Ok(()) => {},
                Err(e) => {
                    let kind = map_operation_error(&e);
                    return Err(
                        StreamError { kind, msg: "failed to refresh object metadata".to_owned() },
                    );
                },
            }
        }
        let len = match self.length {
            Some(l) => l,
            None => {
                return Err(
                    StreamError {
                        kind: StreamErrorKind::Other,
                        msg: "object length is unresolved after a metadata refresh".to_owned(),
                    },
                );
            },
        };
        match plan_read(self.position, len, buf.len()) {
            ReadPlan::Done => Ok(0),
            ReadPlan::Fetch { first, last } => {
                match send_get_range(
                    &self.client,
                    self.bucket_name.as_str(),
                    self.key.as_str(),
                    first,
                    last,
                ) {
                    Err(f) => {
                        let e = match f {
                            FetchFailure::Send(sdk_err) => ObjectOperationError::GetObject(
                                classify_get_error(&sdk_err),
                            ),
                            FetchFailure::Collect => ObjectOperationError::GetObject(
                                StorageErrorKind::ResponseError,
                            ),
                        };
                        let kind = map_operation_error(&e);
                        Err(StreamError { kind, msg: "failed to fetch an object range".to_owned() })
                    },
                    Ok(bytes) => {
                        let avail = len - self.position;
                        let n = take_fetched(buf, &bytes, avail);
                        self.position = self.position + n;
                        Ok(n)
                    },
                }
            },
        }
    }

    /// Move the cursor relative to the start of the object, its end, or the
    /// cursor itself, resolving the length first where it is not yet cached;
    /// a failure of that refresh is the call's failure. A seek past the end
    /// clamps to the object's length; one that would land before the start
    /// is rejected as invalid input and moves nothing. Returns the new
    /// cursor position.
    pub fn seek(&mut self, from: SeekFrom) -> (r: Result<u64, StreamError>)
        ensures
            final(self).bucket_name == old(self).bucket_name,
            final(self).key == old(self).key,
            old(self).length is Some ==> final(self).length == old(self).length && final(self).last_modified == old(self).last_modified,
            r is Err ==> final(self).position == old(self).position,
            r matches Ok(p) ==> (final(self).length matches Some(l) && seek_target(
                old(self).position as nat,
                l as nat,
                from,
            ) == Some(p as int) && final(self).position as int == p as int),
            old(self).length matches Some(l) ==> (seek_target(
                old(self).position as nat,
                l as nat,
                from,
            ) matches Some(t) ==> (r matches Ok(p) && p as int == t)),
            old(self).length matches Some(l) ==> (seek_target(
                old(self).position as nat,
                l as nat,
                from,
            ) is None ==> (r matches Err(e) && e.kind == StreamErrorKind::InvalidInput && *final(self) == *old(self))),
    {
        if self.length.is_none() {
            match self.refresh_metadata() {
                Ok(()) => {},
                Err(e) => {
                    let kind = map_operation_error(&e);
                    return Err(
                        StreamError { kind, msg: "failed to refresh object metadata".to_owned() },
                    );
                },
            }
        }
        let len = match self.length {
            Some(l) => l,
            None => {
                return Err(
                    StreamError {
                        kind: StreamErrorKind::Other,
                        msg: "object length is unresolved after a metadata refresh".to_owned(),
                    },
                );
            },
        };
        match resolve_seek(self.position, len, from) {
            Ok(p) => {
                self.position = p;
                Ok(p as u64)
            },
            Err(e) => Err(e),
        }
    }
}

} // verus!
