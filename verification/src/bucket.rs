//! The bucket handle: a name and a shared transport client, producing object
//! handles by key.

use vstd::prelude::*;

use crate::object::Object;
use crate::remote::clone_client;

verus! {

/// A handle on one bucket: its name, and a shared handle on the transport
/// client.
pub struct Bucket {
    pub name: String,
    pub client: aws_sdk_s3::Client,
}

impl Bucket {
    /// A handle on the named bucket, over the given transport client.
    pub(crate) fn new(name: String, client: aws_sdk_s3::Client) -> (b: Bucket)
        ensures
            b.name == name,
            b.client == client,
    {
        Bucket { name, client }
    }

    /// A fresh handle on the object stored under `key` in this bucket:
    /// cursor at the start, no metadata resolved yet.
    pub fn object(&self, key: String) -> (obj: Object)
        ensures
            obj.bucket_name == self.name,
            obj.key == key,
            obj.position == 0,
            obj.length is None,
            obj.last_modified is None,
    {
        Object::new(self.name.clone(), key, clone_client(&self.client))
    }
}

} // verus!
