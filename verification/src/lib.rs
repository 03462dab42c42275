//! A key/timestamp-addressed blob store on top of an embedded SQL database.
//!
//! A payload is saved under a (key, time stamp) pair and read back by the
//! same pair. Keys are arbitrary text and need not be unique; key and time
//! stamp together are. Time stamps are supplied by the caller and count at
//! second resolution. Payloads are stored compressed. Rows older than 365
//! days are purged when a handle is released.

pub mod codec;
pub mod engine;
pub mod error;
pub mod filedb;
pub mod retention;
pub mod table;
pub mod timestamp;

pub use crate::error::{Error, Origin};
pub use crate::filedb::FileDB;
pub use crate::timestamp::TimeStamp;
