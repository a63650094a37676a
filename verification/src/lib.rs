//! A remote object-storage entry (bucket + key) exposed as a conventional
//! random-access byte stream: positioned reads and seeks over an object whose
//! bytes live behind an asynchronous remote storage service, with byte ranges
//! fetched on demand.

pub mod bucket;
pub mod errors;
pub mod object;
pub mod remote;
pub mod s3;
pub mod stream;
