//! An in-memory registry of static map records and the per-request logic
//! that turns a multipart upload into a committed record.

pub mod ingest;
pub mod record;
pub mod registry;
