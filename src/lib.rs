//! Managed, typed access to a single file whose decoded contents are kept as a
//! value in memory.
//!
//! The library holds the decisions of that access: how a value becomes bytes
//! and back (`format`, `compression`, `data`), which file operations a write
//! performs under each access mode (`mode`), how advisory locks exclude one
//! another (`lock`), and how a container keeps its value in step with the
//! file (`manager`, `container`). Opening files, taking the operating
//! system's locks and performing the planned operations is left to the
//! caller, who hands the results back as plain values.
pub mod compression;
pub mod container;
pub mod data;
pub mod error;
pub mod format;
pub mod lock;
pub mod manager;
pub mod mode;
pub mod utils;

pub use crate::error::{Error, IoError, IoErrorKind, UserError};
pub use crate::format::{FileFormat, FileFormatUtf8};
