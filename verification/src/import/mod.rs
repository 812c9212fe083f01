//! What an importer of media starts from.

pub mod init;

pub use crate::catalog::{AudioHint, VideoHint};
pub use init::Init;
