//! The caller's declared intent before a session exists: read options (auto
//! detection or a headerless raw stream), write options (a full format
//! descriptor with sample rate and channel count), and the four open modes
//! that cross them. Each option set determines the mode flag and the initial
//! parameter block the engine's open entry point is given.

use vstd::prelude::*;
use crate::format::{
    assembly_format_flags, lemma_format_flags_invertible, spec_assembly_format_flags,
    spec_flags_to_endian, spec_flags_to_major_format, spec_flags_to_subtype_format, Endian,
    MajorFormat, SubtypeFormat, SF_FORMAT_RAW,
};
use crate::session::SfInfo;

verus! {

/// Open mode flag: read only.
pub const SFM_READ: i32 = 0x10;
/// Open mode flag: write only.
pub const SFM_WRITE: i32 = 0x20;
/// Open mode flag: read and write.
pub const SFM_RDWR: i32 = 0x30;

/// Options for reading audio files.
#[derive(Debug, PartialEq, Eq, Clone, Copy, Structural)]
pub enum ReadOptions {
    /// Auto detect format.
    Auto,
    /// `Raw(samplerate, channels)`: read as raw file.
    Raw(usize, usize),
}

impl ReadOptions {
    /// Raw-stream parameters, when explicit, are strictly positive and small
    /// enough to hand to the engine.
    pub open spec fn wf(self) -> bool {
        match self {
            ReadOptions::Auto => true,
            ReadOptions::Raw(samplerate, channels) => 0 < samplerate <= 0x7fffffff && 0
                < channels <= 0x7fffffff,
        }
    }
}

/// Options for writing audio files.
#[derive(Debug, PartialEq, Eq, Clone, Copy, Structural)]
pub struct WriteOptions {
    pub major_format: MajorFormat,
    pub subtype_format: SubtypeFormat,
    pub endian: Endian,
    pub samplerate: usize,
    pub channels: usize,
}

impl WriteOptions {
    /// Sample rate and channel count are strictly positive and small enough
    /// to hand to the engine.
    pub open spec fn wf(self) -> bool {
        0 < self.samplerate <= 0x7fffffff && 0 < self.channels <= 0x7fffffff
    }

    /// Create new WriteOptions.
    ///
    /// * `major_format`: Audio container format, e.g., `MajorFormat::WAV`, `MajorFormat::FLAC`, etc
    /// * `subtype_format`: Audio encoding format, e.g., `SubtypeFormat::PCM_16`, `SubtypeFormat::VORBIS`, etc
    /// * `endian`: Usually `Endian::File`
    /// * `samplerate`: A positive number
    /// * `channels`: A positive number
    pub fn new(
        major_format: MajorFormat,
        subtype_format: SubtypeFormat,
        endian: Endian,
        samplerate: usize,
        channels: usize,
    ) -> (r: Self)
        requires
            0 < samplerate <= 0x7fffffff,
            0 < channels <= 0x7fffffff,
        ensures
            r == (WriteOptions { major_format, subtype_format, endian, samplerate, channels }),
            r.wf(),
    {
        WriteOptions { major_format, subtype_format, endian, samplerate, channels }
    }

    /// The pre-validation gate for write paths keeps these options only if
    /// the engine accepts the combination. `format_ok` is the engine's
    /// verdict on the parameter block `check_info` builds from exactly these
    /// options.
    pub fn validate(self, format_ok: bool) -> (r: Option<Self>)
        ensures
            format_ok ==> r == Some(self),
            !format_ok ==> r is None,
    {
        if format_ok {
            Some(self)
        } else {
            None
        }
    }

    /// The parameter block the engine's format-combination check is asked
    /// about for these options: their packed format word, sample rate and
    /// channel count, everything else zeroed.
    pub fn check_info(&self) -> (r: SfInfo)
        requires
            self.wf(),
        ensures
            r == (SfInfo {
                frames: 0,
                samplerate: self.samplerate as i32,
                channels: self.channels as i32,
                format: spec_assembly_format_flags(
                    self.major_format,
                    self.subtype_format,
                    self.endian,
                ),
                sections: 0,
                seekable: 0,
            }),
    {
        SfInfo {
            frames: 0,
            samplerate: self.samplerate as i32,
            channels: self.channels as i32,
            format: assembly_format_flags(self.major_format, self.subtype_format, self.endian),
            sections: 0,
            seekable: 0,
        }
    }
}

/// Struct to specify options when opening a audio file.
#[derive(Debug, PartialEq, Eq, Clone, Copy, Structural)]
pub enum OpenOptions {
    /// Open an audio file read only.
    ReadOnly(ReadOptions),
    /// Open an audio file write only.
    WriteOnly(WriteOptions),
    /// Open an audio file for reading and writing.
    ReadWrite(ReadOptions),
    /// Open an audio file for reading and writing; if the file already
    /// exists, its format may differ from the `WriteOptions`.
    WriteRead(WriteOptions),
}

impl OpenOptions {
    /// The explicit parameters these options carry, if any, are strictly
    /// positive and small enough to hand to the engine.
    pub open spec fn wf(self) -> bool {
        match self {
            OpenOptions::ReadOnly(r) => r.wf(),
            OpenOptions::WriteOnly(w) => w.wf(),
            OpenOptions::ReadWrite(r) => r.wf(),
            OpenOptions::WriteRead(w) => w.wf(),
        }
    }

    pub open spec fn spec_open_mode_flag(self) -> i32 {
        match self {
            OpenOptions::ReadOnly(_) => SFM_READ,
            OpenOptions::WriteOnly(_) => SFM_WRITE,
            OpenOptions::ReadWrite(_) => SFM_RDWR,
            OpenOptions::WriteRead(_) => SFM_RDWR,
        }
    }

    /// The mode flag the engine's open entry point takes for these options.
    pub fn open_mode_flag(&self) -> (r: i32)
        ensures
            r == self.spec_open_mode_flag(),
    {
        match self {
            OpenOptions::ReadOnly(_) => SFM_READ,
            OpenOptions::WriteOnly(_) => SFM_WRITE,
            OpenOptions::ReadWrite(_) | OpenOptions::WriteRead(_) => SFM_RDWR,
        }
    }

    pub open spec fn spec_initial_info(self) -> SfInfo {
        match self {
            OpenOptions::ReadOnly(ReadOptions::Auto) | OpenOptions::ReadWrite(
                ReadOptions::Auto,
            ) => SfInfo {
                frames: 0,
                samplerate: 0,
                channels: 0,
                format: 0,
                sections: 0,
                seekable: 0,
            },
            OpenOptions::ReadOnly(ReadOptions::Raw(samplerate, channels))
                | OpenOptions::ReadWrite(ReadOptions::Raw(samplerate, channels)) => SfInfo {
                frames: 0,
                samplerate: samplerate as i32,
                channels: channels as i32,
                format: SF_FORMAT_RAW,
                sections: 0,
                seekable: 0,
            },
            OpenOptions::WriteOnly(x) | OpenOptions::WriteRead(x) => SfInfo {
                frames: 0,
                samplerate: x.samplerate as i32,
                channels: x.channels as i32,
                format: spec_assembly_format_flags(x.major_format, x.subtype_format, x.endian),
                sections: 0,
                seekable: 0,
            },
        }
    }

    /// The initial parameter block the engine's open entry point is given:
    /// zeroed for auto detection, the declared rate and channel count with
    /// the raw container flag for headerless streams, and the declared rate,
    /// channel count and packed format word for write paths. The engine
    /// overwrites it with the negotiated parameters on success.
    pub fn initial_info(&self) -> (r: SfInfo)
        requires
            self.wf(),
        ensures
            r == self.spec_initial_info(),
    {
        match self {
            OpenOptions::ReadOnly(ReadOptions::Auto) | OpenOptions::ReadWrite(
                ReadOptions::Auto,
            ) => SfInfo {
                frames: 0,
                samplerate: 0,
                channels: 0,
                format: 0,
                sections: 0,
                seekable: 0,
            },
            OpenOptions::ReadOnly(ReadOptions::Raw(samplerate, channels))
                | OpenOptions::ReadWrite(ReadOptions::Raw(samplerate, channels)) => SfInfo {
                frames: 0,
                samplerate: *samplerate as i32,
                channels: *channels as i32,
                format: SF_FORMAT_RAW,
                sections: 0,
                seekable: 0,
            },
            OpenOptions::WriteOnly(x) | OpenOptions::WriteRead(x) => SfInfo {
                frames: 0,
                samplerate: x.samplerate as i32,
                channels: x.channels as i32,
                format: assembly_format_flags(x.major_format, x.subtype_format, x.endian),
                sections: 0,
                seekable: 0,
            },
        }
    }
}

/// How the host file is opened for each open mode: reading only for
/// read-only opens; created, truncated and writable for write-only opens;
/// an existing file read-write for read-write opens; created if missing and
/// read-write for write-then-read opens.
#[derive(Debug, PartialEq, Eq, Clone, Copy, Structural)]
pub struct HostOpenFlags {
    pub read: bool,
    pub write: bool,
    pub create: bool,
    pub truncate: bool,
}

impl OpenOptions {
    /// Which host-stream capabilities opening a file path takes under these
    /// options.
    pub fn host_open_flags(&self) -> (r: HostOpenFlags)
        ensures
            self is ReadOnly ==> r == (HostOpenFlags {
                read: true,
                write: false,
                create: false,
                truncate: false,
            }),
            self is WriteOnly ==> r == (HostOpenFlags {
                read: false,
                write: true,
                create: true,
                truncate: true,
            }),
            self is ReadWrite ==> r == (HostOpenFlags {
                read: true,
                write: true,
                create: false,
                truncate: false,
            }),
            self is WriteRead ==> r == (HostOpenFlags {
                read: true,
                write: true,
                create: true,
                truncate: false,
            }),
    {
        match self {
            OpenOptions::ReadOnly(_) => HostOpenFlags {
                read: true,
                write: false,
                create: false,
                truncate: false,
            },
            OpenOptions::WriteOnly(_) => HostOpenFlags {
                read: false,
                write: true,
                create: true,
                truncate: true,
            },
            OpenOptions::ReadWrite(_) => HostOpenFlags {
                read: true,
                write: true,
                create: false,
                truncate: false,
            },
            OpenOptions::WriteRead(_) => HostOpenFlags {
                read: true,
                write: true,
                create: true,
                truncate: false,
            },
        }
    }
}

/// Law: a write path asks the engine for exactly the format it was given.
/// The format word in the initial parameter block of a write-only or
/// write-then-read open decodes back to the container, encoding and
/// endianness the `WriteOptions` declared, so a session opened with them can
/// only negotiate that descriptor or fail.
pub proof fn lemma_write_open_format_preserved(x: WriteOptions, opts: OpenOptions)
    requires
        opts == OpenOptions::WriteOnly(x) || opts == OpenOptions::WriteRead(x),
    ensures
        spec_flags_to_major_format(opts.spec_initial_info().format) == Some(x.major_format),
        spec_flags_to_subtype_format(opts.spec_initial_info().format) == Some(x.subtype_format),
        spec_flags_to_endian(opts.spec_initial_info().format) == Some(x.endian),
{
    lemma_format_flags_invertible(x.major_format, x.subtype_format, x.endian);
}

} // verus!
