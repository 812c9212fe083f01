//! Building blocks of a live media broadcast.
//!
//! - [`kio`]: a lock-guarded queue that two sides mutate, with wake-ups.
//! - [`catalog`]: what a broadcast offers, withheld until its tracks are known.
//! - [`timeline`]: the index from a media track's groups to their start times.
//! - [`import`]: what an importer of media starts from.
//! - [`ffi`]: the same descriptions as plain records.
//!
//! [`locks`], [`names`], [`time`] and [`error`] hold what these share.

pub mod catalog;
pub mod error;
pub mod ffi;
pub mod import;
pub mod kio;
pub mod locks;
pub mod names;
pub mod time;
pub mod timeline;
