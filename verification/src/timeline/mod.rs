//! Timeline publish/subscribe.
//!
//! A timeline is one media track's group index: a [`Record`] per group, appended when the group
//! opens, maps the group's sequence number to its start timestamp. A consumer can tell which
//! group covers a time, and where the live edge is, without subscribing to the media.
//!
//! On the wire the track is a DEFLATE-compressed log of JSON records in a single group. What is
//! recorded is throttled to a granularity: at most one record per that much media time. Video
//! keyframes are usually further apart than that, so every group is indexed; short audio groups
//! are thinned out, and a consumer that lands between two records extrapolates.

pub mod consumer;
pub mod laws;
pub mod log;
pub mod producer;
pub mod throttle;
pub mod wall;

pub use consumer::Consumer;
pub use log::Record;
pub use producer::{track_name, Index, Producer, DEFAULT_GRANULARITY_MICROS, DEFAULT_TIMESCALE};
pub use wall::MOQ_EPOCH_UNIX_MILLIS;
