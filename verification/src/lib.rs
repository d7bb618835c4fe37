//! Finds the dependencies that a package manifest declares and that no source
//! file of the project imports.
//!
//! The crate works on text that its caller has already read: the manifest, and
//! the files of the project directory. It never touches the file system.

pub mod compare;
pub mod error;
pub mod manifest;
pub mod pattern;
pub mod reader;
pub mod source;

pub use error::ScanError;
pub use reader::{DependencyReader, NpmReader};
pub use source::DirectoryEntry;
