//! The virtual I/O bridge's verified half. The five callback entry points
//! (`length`, `seek`, `read`, `write`, `tell`) run on the engine's own call
//! stack and forward to the host byte-stream, so their bodies live with the
//! embedding; what is verified here is the translation of the engine's seek
//! arguments into a host cursor-move request.

use vstd::prelude::*;
use crate::session::{SeekFrom, SF_SEEK_CUR, SF_SEEK_END, SF_SEEK_SET};

verus! {

/// Translate the offset and whence flag the engine hands the seek callback
/// into a host cursor-move request. An offset from the start is taken
/// non-negative, as the host stream counts positions from zero; any other
/// whence value is no request at all.
pub fn vio_seek_target(offset: i64, whence: i32) -> (r: Option<SeekFrom>)
    ensures
        whence == SF_SEEK_SET && offset >= 0 ==> r == Some(SeekFrom::Start(offset as u64)),
        whence == SF_SEEK_SET && offset < 0 ==> r is None,
        whence == SF_SEEK_CUR ==> r == Some(SeekFrom::Current(offset)),
        whence == SF_SEEK_END ==> r == Some(SeekFrom::End(offset)),
        !(whence == SF_SEEK_SET || whence == SF_SEEK_CUR || whence == SF_SEEK_END) ==> r is None,
{
    if whence == SF_SEEK_SET {
        if offset >= 0 {
            Some(SeekFrom::Start(offset as u64))
        } else {
            None
        }
    } else if whence == SF_SEEK_CUR {
        Some(SeekFrom::Current(offset))
    } else if whence == SF_SEEK_END {
        Some(SeekFrom::End(offset))
    } else {
        None
    }
}

} // verus!
