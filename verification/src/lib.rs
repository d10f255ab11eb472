//! A verified safety layer over a native audio codec engine.
//!
//! The engine (libsndfile) owns all container and encoding knowledge and is
//! reached only through a C ABI; the unverified embedding makes those calls.
//! This crate holds everything on this side of that boundary: the format
//! registry that translates between the engine's bit-flag words and closed
//! enumerations, the open/validate/close decisions of a session's lifecycle,
//! the interleaved-frame arithmetic of typed reads and writes, the seek and
//! virtual-I/O request encodings, the tag catalogue, and the error taxonomy.

pub mod error;
pub mod format;
pub mod options;
pub mod session;
pub mod tags;
pub mod vio;

pub use error::SndFileError;
pub use options::{OpenOptions, ReadOptions, WriteOptions};
pub use session::{SeekFrom, SfInfo, SndFile};
pub use format::{Endian, MajorFormat, MajorInfo, SubtypeFormat, SubtypeInfo};
pub use format::{default_subtype, get_supported_major_format_dict, get_supported_subtype_format_dict};
pub use tags::TagType;
