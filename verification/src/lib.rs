//! Building blocks for unbuffered (direct) file I/O: sector-aligned buffers
//! and the protocol by which a file is opened for direct access.

pub mod aligned;
pub mod error;
pub mod file_builder;
pub mod protocol;
pub mod text;
pub mod timer;

pub use error::{Error, ErrorKind};
