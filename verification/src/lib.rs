//! A small verified client library for an object-storage service.
//!
//! The library holds the logic of three operations over a remote object
//! store — listing the keys of a bucket, uploading a local file, and
//! downloading an object to a local path — together with the assembly of
//! credentials and client configuration. Network and filesystem work is
//! left to the surrounding application; the decisions, path computations,
//! key extraction and error classification are verified here, and the
//! operations themselves are verified end to end against an in-memory
//! model of the service.

pub mod chunks;
pub mod config;
pub mod content_type;
pub mod download;
pub mod errors;
pub mod listing;
pub mod paths;
pub mod store;
pub mod upload;
