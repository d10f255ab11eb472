//! The session lifecycle's verified half: the engine's negotiated parameter
//! block as plain values, the post-open validation that turns it into a
//! usable session or an exact `InvalidParameter` failure, and the per-session
//! request/response arithmetic of seeking and typed interleaved-frame I/O.
//!
//! The embedding that owns the engine handle drives the state machine: it
//! opens the engine session, hands the reported parameter block to
//! [`SndFile::from_open_info`], and on every later operation computes the
//! request here, makes the one engine call, and interprets the reply here.

use vstd::prelude::*;
use crate::error::SndFileError;
use crate::format::{
    spec_flags_to_endian, spec_flags_to_major_format, spec_flags_to_subtype_format,
    flags_to_endian, flags_to_major_format, flags_to_subtype_format, Endian, MajorFormat,
    SubtypeFormat,
};

verus! {

pub const SF_FALSE: i32 = 0;
pub const SF_TRUE: i32 = 1;

/// Whence flag of a seek request: from the start of the stream.
pub const SF_SEEK_SET: i32 = 0;
/// Whence flag of a seek request: from the current cursor.
pub const SF_SEEK_CUR: i32 = 1;
/// Whence flag of a seek request: from the end of the stream.
pub const SF_SEEK_END: i32 = 2;

/// Directive that makes integer-typed reads scale float-encoded data, so
/// integer and float reads of the same audio agree in normalized amplitude.
pub const SFC_SET_SCALE_FLOAT_INT_READ: i32 = 0x1014;
/// Directive that makes integer-typed writes scale to float-encoded data,
/// symmetric to `SFC_SET_SCALE_FLOAT_INT_READ`.
pub const SFC_SET_SCALE_INT_FLOAT_WRITE: i32 = 0x1015;

/// The engine's session parameter block, held as plain values: frame count,
/// sample rate, channel count, packed format word, section count and
/// seekability flag. The engine populates it on a successful open.
#[derive(Debug, PartialEq, Eq, Clone, Copy, Structural)]
pub struct SfInfo {
    pub frames: i64,
    pub samplerate: i32,
    pub channels: i32,
    pub format: u32,
    pub sections: i32,
    pub seekable: i32,
}

/// A cursor-move request, relative to the start, the current position or the
/// end of the stream.
#[derive(Debug, PartialEq, Eq, Clone, Copy, Structural)]
pub enum SeekFrom {
    Start(u64),
    Current(i64),
    End(i64),
}

/// The validated state of an open session: the parameters the engine
/// negotiated, fully decoded. The engine handle itself and the virtual-I/O
/// allocations it borrows stay with the unverified embedding, which owns
/// them and this record as one unit.
#[derive(Debug, Clone)]
pub struct SndFile {
    pub samplerate: usize,
    pub channels: usize,
    pub major_format: MajorFormat,
    pub subtype_format: SubtypeFormat,
    pub endian: Endian,
    pub seekable: bool,
}

impl SndFile {
    /// The invariant every validated session satisfies: positive sample rate
    /// and channel count, both small enough to hand back to the engine.
    pub open spec fn wf(self) -> bool {
        &&& 0 < self.samplerate <= 0x7fffffff
        &&& 0 < self.channels <= 0x7fffffff
    }

    /// Validate the parameter block an engine open reported. Succeeds if and
    /// only if the frame count is non-negative, sample rate and channel count
    /// are positive, and the format word fully decodes through the registry;
    /// each violation is an `InvalidParameter` failure naming the offending
    /// field, checked in that order.
    pub fn from_open_info(info: &SfInfo) -> (r: Result<SndFile, SndFileError>)
        ensures
            r is Ok <==> {
                &&& info.frames >= 0
                &&& info.samplerate > 0
                &&& info.channels > 0
                &&& spec_flags_to_major_format(info.format) is Some
                &&& spec_flags_to_subtype_format(info.format) is Some
                &&& spec_flags_to_endian(info.format) is Some
            },
            r matches Ok(s) ==> {
                &&& s.samplerate == info.samplerate
                &&& s.channels == info.channels
                &&& Some(s.major_format) == spec_flags_to_major_format(info.format)
                &&& Some(s.subtype_format) == spec_flags_to_subtype_format(info.format)
                &&& Some(s.endian) == spec_flags_to_endian(info.format)
                &&& s.seekable == (info.seekable != SF_FALSE)
                &&& s.wf()
            },
            r matches Err(e) ==> e matches SndFileError::InvalidParameter(msg) && (if info.frames
                < 0 {
                msg@ == "Got invalid frame count, expect a non-negative number."@
            } else if info.samplerate <= 0 {
                msg@ == "Got invalid samplerate, expect a positive number."@
            } else if info.channels <= 0 {
                msg@ == "Got invalid channels, expect a positive number."@
            } else {
                msg@ == "Got invalid format flags."@
            }),
    {
        if info.frames < 0 {
            Err(
                SndFileError::InvalidParameter(
                    "Got invalid frame count, expect a non-negative number.".to_owned(),
                ),
            )
        } else if info.samplerate <= 0 {
            Err(
                SndFileError::InvalidParameter(
                    "Got invalid samplerate, expect a positive number.".to_owned(),
                ),
            )
        } else if info.channels <= 0 {
            Err(
                SndFileError::InvalidParameter(
                    "Got invalid channels, expect a positive number.".to_owned(),
                ),
            )
        } else {
            let major_format = flags_to_major_format(info.format);
            let subtype_format = flags_to_subtype_format(info.format);
            let endian = flags_to_endian(info.format);
            match (major_format, subtype_format, endian) {
                (Some(major_format), Some(subtype_format), Some(endian)) => Ok(
                    SndFile {
                        samplerate: info.samplerate as usize,
                        channels: info.channels as usize,
                        major_format,
                        subtype_format,
                        endian,
                        seekable: info.seekable != SF_FALSE,
                    },
                ),
                _ => Err(SndFileError::InvalidParameter("Got invalid format flags.".to_owned())),
            }
        }
    }

    /// Get sample rate.
    ///
    /// Return values should be greater than zero.
    pub fn get_samplerate(&self) -> (r: usize)
        ensures
            r == self.samplerate,
    {
        self.samplerate
    }

    /// Get channel count.
    ///
    /// Return values should be greater than zero.
    pub fn get_channels(&self) -> (r: usize)
        ensures
            r == self.channels,
    {
        self.channels
    }

    /// Get audio container format.
    pub fn get_major_format(&self) -> (r: MajorFormat)
        ensures
            r == self.major_format,
    {
        self.major_format
    }

    /// Get audio encoding format.
    pub fn get_subtype_format(&self) -> (r: SubtypeFormat)
        ensures
            r == self.subtype_format,
    {
        self.subtype_format
    }

    /// Get audio file endian.
    ///
    /// Usually returns `Endian::File`.
    pub fn get_endian(&self) -> (r: Endian)
        ensures
            r == self.endian,
    {
        self.endian
    }

    /// Check if this file seekable.
    ///
    /// If not, every cursor-move request fails.
    pub fn is_seekable(&self) -> (r: bool)
        ensures
            r == self.seekable,
    {
        self.seekable
    }

    /// Encode a cursor-move request as the frame offset and whence flag the
    /// engine's seek entry point takes. Fails exactly when the session is
    /// not seekable.
    pub fn seek_request(&self, pos: SeekFrom) -> (r: Result<(i64, i32), ()>)
        requires
            pos matches SeekFrom::Start(x) ==> x <= 0x7fffffffffffffff,
        ensures
            r is Ok <==> self.seekable,
            r matches Ok(p) ==> p == (match pos {
                SeekFrom::Start(x) => (x as i64, SF_SEEK_SET),
                SeekFrom::Current(x) => (x, SF_SEEK_CUR),
                SeekFrom::End(x) => (x, SF_SEEK_END),
            }),
    {
        if self.seekable {
            match pos {
                SeekFrom::Start(x) => Ok((x as i64, SF_SEEK_SET)),
                SeekFrom::Current(x) => Ok((x, SF_SEEK_CUR)),
                SeekFrom::End(x) => Ok((x, SF_SEEK_END)),
            }
        } else {
            Err(())
        }
    }

    /// How many whole interleaved frames a buffer of `buffer_len` samples
    /// holds; a frame I/O request transfers exactly this many frames. The
    /// buffer must hold whole frames only.
    pub fn request_frames(&self, buffer_len: usize) -> (r: usize)
        requires
            self.wf(),
            buffer_len % self.channels == 0,
        ensures
            r == buffer_len as int / self.channels as int,
            r * self.channels == buffer_len,
    {
        let r = buffer_len / self.channels;
        proof {
            vstd::arithmetic::div_mod::lemma_fundamental_div_mod(
                buffer_len as int,
                self.channels as int,
            );
        }
        r
    }

    /// Size of the staging buffer that reading the whole file takes: every
    /// frame of the file times the channel count.
    pub fn read_all_buffer_len(&self, total_frames: u64) -> (r: usize)
        requires
            self.wf(),
            total_frames * self.channels <= usize::MAX,
        ensures
            r == total_frames * self.channels,
    {
        proof {
            assert(total_frames * 1 <= total_frames * self.channels) by (nonlinear_arith)
                requires
                    1 <= self.channels,
                    0 <= total_frames,
            ;
        }
        (total_frames as usize) * self.channels
    }
}

/// Interpret the frame count an engine seek returned: non-negative is the
/// new absolute frame offset, negative is failure.
pub fn interpret_seek_result(engine_result: i64) -> (r: Result<u64, ()>)
    ensures
        engine_result >= 0 ==> r == Result::<u64, ()>::Ok(engine_result as u64),
        engine_result < 0 ==> r is Err,
{
    if engine_result >= 0 {
        Ok(engine_result as u64)
    } else {
        Err(())
    }
}

/// Interpret the frame count an engine read or write returned: non-negative
/// is the number of frames actually transferred, negative is failure.
pub fn interpret_transfer_result(engine_result: i64) -> (r: Result<usize, ()>)
    ensures
        0 <= engine_result <= usize::MAX ==> r == Result::<usize, ()>::Ok(
            engine_result as usize,
        ),
        !(0 <= engine_result <= usize::MAX) ==> r is Err,
{
    if engine_result < 0 {
        Err(())
    } else {
        let wide = engine_result as u64;
        if wide <= usize::MAX as u64 {
            Ok(wide as usize)
        } else {
            Err(())
        }
    }
}

} // verus!
