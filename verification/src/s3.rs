//! The store handle: it owns a transport client built from a supplied
//! configuration, and produces bucket handles by name.

use vstd::prelude::*;

use crate::bucket::Bucket;
use crate::remote::{clone_client, new_client};

verus! {

/// A handle on the remote store: one transport client, shared by every
/// bucket and object handle derived from it.
pub struct S3 {
    pub client: aws_sdk_s3::Client,
}

/// An error of the store-level operations.
#[derive(Debug)]
pub enum S3Error {
    /// An error that the remote service's api reported.
    AWSS3Error(aws_sdk_s3::Error),
    /// Any other failure, described in words.
    Other(String),
}

impl S3 {
    /// A store handle over the provided configuration.
    pub fn with_aws_sdk_config(config: &aws_config::SdkConfig) -> S3 {
        S3 { client: new_client(config) }
    }

    /// A handle on the named bucket, sharing this store's transport client.
    pub fn bucket(&self, name: String) -> (b: Bucket)
        ensures
            b.name == name,
    {
        Bucket::new(name, clone_client(&self.client))
    }
}

} // verus!
