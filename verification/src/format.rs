//! The format registry: total, invertible translation between the engine's
//! bit-flag words and the closed enumerations of containers, encodings and
//! endiannesses, plus the catalogue of formats the engine reports as
//! supported and each container's customary default encoding.
//!
//! A format word packs three independent fields: the container in the type
//! mask, the encoding in the subtype mask and the endianness in the endian
//! mask. Decoding masks the word and recognises exactly the flag values
//! below; a word whose masked field matches none of them decodes to `None`,
//! never to a wrong member.

use vstd::prelude::*;

verus! {

/// Bits of a format word that carry the sample encoding.
pub const SF_FORMAT_SUBMASK: u32 = 0x0000FFFF;
/// Bits of a format word that carry the container type.
pub const SF_FORMAT_TYPEMASK: u32 = 0x0FFF0000;
/// Bits of a format word that carry the endianness directive.
pub const SF_FORMAT_ENDMASK: u32 = 0x30000000;

pub const SF_FORMAT_WAV: u32 = 0x010000;
pub const SF_FORMAT_AIFF: u32 = 0x020000;
pub const SF_FORMAT_AU: u32 = 0x030000;
pub const SF_FORMAT_RAW: u32 = 0x040000;
pub const SF_FORMAT_PAF: u32 = 0x050000;
pub const SF_FORMAT_SVX: u32 = 0x060000;
pub const SF_FORMAT_NIST: u32 = 0x070000;
pub const SF_FORMAT_VOC: u32 = 0x080000;
pub const SF_FORMAT_IRCAM: u32 = 0x0A0000;
pub const SF_FORMAT_W64: u32 = 0x0B0000;
pub const SF_FORMAT_MAT4: u32 = 0x0C0000;
pub const SF_FORMAT_MAT5: u32 = 0x0D0000;
pub const SF_FORMAT_PVF: u32 = 0x0E0000;
pub const SF_FORMAT_XI: u32 = 0x0F0000;
pub const SF_FORMAT_HTK: u32 = 0x100000;
pub const SF_FORMAT_SDS: u32 = 0x110000;
pub const SF_FORMAT_AVR: u32 = 0x120000;
pub const SF_FORMAT_WAVEX: u32 = 0x130000;
pub const SF_FORMAT_SD2: u32 = 0x160000;
pub const SF_FORMAT_FLAC: u32 = 0x170000;
pub const SF_FORMAT_CAF: u32 = 0x180000;
pub const SF_FORMAT_WVE: u32 = 0x190000;
pub const SF_FORMAT_OGG: u32 = 0x200000;
pub const SF_FORMAT_MPC2K: u32 = 0x210000;
pub const SF_FORMAT_RF64: u32 = 0x220000;

pub const SF_FORMAT_PCM_S8: u32 = 0x0001;
pub const SF_FORMAT_PCM_16: u32 = 0x0002;
pub const SF_FORMAT_PCM_24: u32 = 0x0003;
pub const SF_FORMAT_PCM_32: u32 = 0x0004;
pub const SF_FORMAT_PCM_U8: u32 = 0x0005;
pub const SF_FORMAT_FLOAT: u32 = 0x0006;
pub const SF_FORMAT_DOUBLE: u32 = 0x0007;
pub const SF_FORMAT_ULAW: u32 = 0x0010;
pub const SF_FORMAT_ALAW: u32 = 0x0011;
pub const SF_FORMAT_IMA_ADPCM: u32 = 0x0012;
pub const SF_FORMAT_MS_ADPCM: u32 = 0x0013;
pub const SF_FORMAT_GSM610: u32 = 0x0020;
pub const SF_FORMAT_VOX_ADPCM: u32 = 0x0021;
pub const SF_FORMAT_G721_32: u32 = 0x0030;
pub const SF_FORMAT_G723_24: u32 = 0x0031;
pub const SF_FORMAT_G723_40: u32 = 0x0032;
pub const SF_FORMAT_DWVW_12: u32 = 0x0040;
pub const SF_FORMAT_DWVW_16: u32 = 0x0041;
pub const SF_FORMAT_DWVW_24: u32 = 0x0042;
pub const SF_FORMAT_DWVW_N: u32 = 0x0043;
pub const SF_FORMAT_DPCM_8: u32 = 0x0050;
pub const SF_FORMAT_DPCM_16: u32 = 0x0051;
pub const SF_FORMAT_VORBIS: u32 = 0x0060;
pub const SF_FORMAT_ALAC_16: u32 = 0x0070;
pub const SF_FORMAT_ALAC_20: u32 = 0x0071;
pub const SF_FORMAT_ALAC_24: u32 = 0x0072;
pub const SF_FORMAT_ALAC_32: u32 = 0x0073;

pub const SF_ENDIAN_FILE: u32 = 0x00000000;
pub const SF_ENDIAN_LITTLE: u32 = 0x10000000;
pub const SF_ENDIAN_BIG: u32 = 0x20000000;
pub const SF_ENDIAN_CPU: u32 = 0x30000000;

/// Audio container formats the registry recognises.
#[derive(Debug, PartialEq, Eq, Hash, Clone, Copy, Structural)]
pub enum MajorFormat {
    WAV,
    AIFF,
    AU,
    RAW,
    PAF,
    SVX,
    NIST,
    VOC,
    IRCAM,
    W64,
    MAT4,
    MAT5,
    PVF,
    XI,
    HTK,
    SDS,
    AVR,
    WAVEX,
    SD2,
    FLAC,
    CAF,
    WVE,
    OGG,
    MPC2K,
    RF64,
}

/// Sample encodings the registry recognises.
#[allow(non_camel_case_types)]
#[derive(Debug, PartialEq, Eq, Hash, Clone, Copy, Structural)]
pub enum SubtypeFormat {
    PCM_S8,
    PCM_16,
    PCM_24,
    PCM_32,
    PCM_U8,
    FLOAT,
    DOUBLE,
    ULAW,
    ALAW,
    IMA_ADPCM,
    MS_ADPCM,
    GSM610,
    VOX_ADPCM,
    G721_32,
    G723_24,
    G723_40,
    DWVW_12,
    DWVW_16,
    DWVW_24,
    DWVW_N,
    DPCM_8,
    DPCM_16,
    VORBIS,
    ALAC_16,
    ALAC_20,
    ALAC_24,
    ALAC_32,
}

/// Byte-order directives a format word can carry.
#[derive(Debug, PartialEq, Eq, Hash, Clone, Copy, Structural)]
pub enum Endian {
    File,
    Little,
    Big,
    CPU,
}

pub open spec fn spec_major_format_to_flags(major_format: MajorFormat) -> u32 {
    match major_format {
        MajorFormat::WAV => SF_FORMAT_WAV,
        MajorFormat::AIFF => SF_FORMAT_AIFF,
        MajorFormat::AU => SF_FORMAT_AU,
        MajorFormat::RAW => SF_FORMAT_RAW,
        MajorFormat::PAF => SF_FORMAT_PAF,
        MajorFormat::SVX => SF_FORMAT_SVX,
        MajorFormat::NIST => SF_FORMAT_NIST,
        MajorFormat::VOC => SF_FORMAT_VOC,
        MajorFormat::IRCAM => SF_FORMAT_IRCAM,
        MajorFormat::W64 => SF_FORMAT_W64,
        MajorFormat::MAT4 => SF_FORMAT_MAT4,
        MajorFormat::MAT5 => SF_FORMAT_MAT5,
        MajorFormat::PVF => SF_FORMAT_PVF,
        MajorFormat::XI => SF_FORMAT_XI,
        MajorFormat::HTK => SF_FORMAT_HTK,
        MajorFormat::SDS => SF_FORMAT_SDS,
        MajorFormat::AVR => SF_FORMAT_AVR,
        MajorFormat::WAVEX => SF_FORMAT_WAVEX,
        MajorFormat::SD2 => SF_FORMAT_SD2,
        MajorFormat::FLAC => SF_FORMAT_FLAC,
        MajorFormat::CAF => SF_FORMAT_CAF,
        MajorFormat::WVE => SF_FORMAT_WVE,
        MajorFormat::OGG => SF_FORMAT_OGG,
        MajorFormat::MPC2K => SF_FORMAT_MPC2K,
        MajorFormat::RF64 => SF_FORMAT_RF64,
    }
}

/// Encode a container as its flag value, placed entirely in the type mask.
pub fn major_format_to_flags(major_format: MajorFormat) -> (r: u32)
    ensures
        r == spec_major_format_to_flags(major_format),
{
    match major_format {
        MajorFormat::WAV => SF_FORMAT_WAV,
        MajorFormat::AIFF => SF_FORMAT_AIFF,
        MajorFormat::AU => SF_FORMAT_AU,
        MajorFormat::RAW => SF_FORMAT_RAW,
        MajorFormat::PAF => SF_FORMAT_PAF,
        MajorFormat::SVX => SF_FORMAT_SVX,
        MajorFormat::NIST => SF_FORMAT_NIST,
        MajorFormat::VOC => SF_FORMAT_VOC,
        MajorFormat::IRCAM => SF_FORMAT_IRCAM,
        MajorFormat::W64 => SF_FORMAT_W64,
        MajorFormat::MAT4 => SF_FORMAT_MAT4,
        MajorFormat::MAT5 => SF_FORMAT_MAT5,
        MajorFormat::PVF => SF_FORMAT_PVF,
        MajorFormat::XI => SF_FORMAT_XI,
        MajorFormat::HTK => SF_FORMAT_HTK,
        MajorFormat::SDS => SF_FORMAT_SDS,
        MajorFormat::AVR => SF_FORMAT_AVR,
        MajorFormat::WAVEX => SF_FORMAT_WAVEX,
        MajorFormat::SD2 => SF_FORMAT_SD2,
        MajorFormat::FLAC => SF_FORMAT_FLAC,
        MajorFormat::CAF => SF_FORMAT_CAF,
        MajorFormat::WVE => SF_FORMAT_WVE,
        MajorFormat::OGG => SF_FORMAT_OGG,
        MajorFormat::MPC2K => SF_FORMAT_MPC2K,
        MajorFormat::RF64 => SF_FORMAT_RF64,
    }
}

pub open spec fn spec_subtype_format_to_flags(subtype_format: SubtypeFormat) -> u32 {
    match subtype_format {
        SubtypeFormat::PCM_S8 => SF_FORMAT_PCM_S8,
        SubtypeFormat::PCM_16 => SF_FORMAT_PCM_16,
        SubtypeFormat::PCM_24 => SF_FORMAT_PCM_24,
        SubtypeFormat::PCM_32 => SF_FORMAT_PCM_32,
        SubtypeFormat::PCM_U8 => SF_FORMAT_PCM_U8,
        SubtypeFormat::FLOAT => SF_FORMAT_FLOAT,
        SubtypeFormat::DOUBLE => SF_FORMAT_DOUBLE,
        SubtypeFormat::ULAW => SF_FORMAT_ULAW,
        SubtypeFormat::ALAW => SF_FORMAT_ALAW,
        SubtypeFormat::IMA_ADPCM => SF_FORMAT_IMA_ADPCM,
        SubtypeFormat::MS_ADPCM => SF_FORMAT_MS_ADPCM,
        SubtypeFormat::GSM610 => SF_FORMAT_GSM610,
        SubtypeFormat::VOX_ADPCM => SF_FORMAT_VOX_ADPCM,
        SubtypeFormat::G721_32 => SF_FORMAT_G721_32,
        SubtypeFormat::G723_24 => SF_FORMAT_G723_24,
        SubtypeFormat::G723_40 => SF_FORMAT_G723_40,
        SubtypeFormat::DWVW_12 => SF_FORMAT_DWVW_12,
        SubtypeFormat::DWVW_16 => SF_FORMAT_DWVW_16,
        SubtypeFormat::DWVW_24 => SF_FORMAT_DWVW_24,
        SubtypeFormat::DWVW_N => SF_FORMAT_DWVW_N,
        SubtypeFormat::DPCM_8 => SF_FORMAT_DPCM_8,
        SubtypeFormat::DPCM_16 => SF_FORMAT_DPCM_16,
        SubtypeFormat::VORBIS => SF_FORMAT_VORBIS,
        SubtypeFormat::ALAC_16 => SF_FORMAT_ALAC_16,
        SubtypeFormat::ALAC_20 => SF_FORMAT_ALAC_20,
        SubtypeFormat::ALAC_24 => SF_FORMAT_ALAC_24,
        SubtypeFormat::ALAC_32 => SF_FORMAT_ALAC_32,
    }
}

/// Encode an encoding as its flag value, placed entirely in the subtype mask.
pub fn subtype_format_to_flags(subtype_format: SubtypeFormat) -> (r: u32)
    ensures
        r == spec_subtype_format_to_flags(subtype_format),
{
    match subtype_format {
        SubtypeFormat::PCM_S8 => SF_FORMAT_PCM_S8,
        SubtypeFormat::PCM_16 => SF_FORMAT_PCM_16,
        SubtypeFormat::PCM_24 => SF_FORMAT_PCM_24,
        SubtypeFormat::PCM_32 => SF_FORMAT_PCM_32,
        SubtypeFormat::PCM_U8 => SF_FORMAT_PCM_U8,
        SubtypeFormat::FLOAT => SF_FORMAT_FLOAT,
        SubtypeFormat::DOUBLE => SF_FORMAT_DOUBLE,
        SubtypeFormat::ULAW => SF_FORMAT_ULAW,
        SubtypeFormat::ALAW => SF_FORMAT_ALAW,
        SubtypeFormat::IMA_ADPCM => SF_FORMAT_IMA_ADPCM,
        SubtypeFormat::MS_ADPCM => SF_FORMAT_MS_ADPCM,
        SubtypeFormat::GSM610 => SF_FORMAT_GSM610,
        SubtypeFormat::VOX_ADPCM => SF_FORMAT_VOX_ADPCM,
        SubtypeFormat::G721_32 => SF_FORMAT_G721_32,
        SubtypeFormat::G723_24 => SF_FORMAT_G723_24,
        SubtypeFormat::G723_40 => SF_FORMAT_G723_40,
        SubtypeFormat::DWVW_12 => SF_FORMAT_DWVW_12,
        SubtypeFormat::DWVW_16 => SF_FORMAT_DWVW_16,
        SubtypeFormat::DWVW_24 => SF_FORMAT_DWVW_24,
        SubtypeFormat::DWVW_N => SF_FORMAT_DWVW_N,
        SubtypeFormat::DPCM_8 => SF_FORMAT_DPCM_8,
        SubtypeFormat::DPCM_16 => SF_FORMAT_DPCM_16,
        SubtypeFormat::VORBIS => SF_FORMAT_VORBIS,
        SubtypeFormat::ALAC_16 => SF_FORMAT_ALAC_16,
        SubtypeFormat::ALAC_20 => SF_FORMAT_ALAC_20,
        SubtypeFormat::ALAC_24 => SF_FORMAT_ALAC_24,
        SubtypeFormat::ALAC_32 => SF_FORMAT_ALAC_32,
    }
}

pub open spec fn spec_endian_to_flags(endian: Endian) -> u32 {
    match endian {
        Endian::File => SF_ENDIAN_FILE,
        Endian::Little => SF_ENDIAN_LITTLE,
        Endian::Big => SF_ENDIAN_BIG,
        Endian::CPU => SF_ENDIAN_CPU,
    }
}

/// Encode an endianness as its flag value, placed entirely in the endian mask.
pub fn endian_to_flags(endian: Endian) -> (r: u32)
    ensures
        r == spec_endian_to_flags(endian),
{
    match endian {
        Endian::File => SF_ENDIAN_FILE,
        Endian::Little => SF_ENDIAN_LITTLE,
        Endian::Big => SF_ENDIAN_BIG,
        Endian::CPU => SF_ENDIAN_CPU,
    }
}

pub open spec fn spec_flags_to_major_format(flags: u32) -> Option<MajorFormat> {
    let masked = flags & SF_FORMAT_TYPEMASK;
    if masked == SF_FORMAT_WAV {
        Some(MajorFormat::WAV)
    } else if masked == SF_FORMAT_AIFF {
        Some(MajorFormat::AIFF)
    } else if masked == SF_FORMAT_AU {
        Some(MajorFormat::AU)
    } else if masked == SF_FORMAT_RAW {
        Some(MajorFormat::RAW)
    } else if masked == SF_FORMAT_PAF {
        Some(MajorFormat::PAF)
    } else if masked == SF_FORMAT_SVX {
        Some(MajorFormat::SVX)
    } else if masked == SF_FORMAT_NIST {
        Some(MajorFormat::NIST)
    } else if masked == SF_FORMAT_VOC {
        Some(MajorFormat::VOC)
    } else if masked == SF_FORMAT_IRCAM {
        Some(MajorFormat::IRCAM)
    } else if masked == SF_FORMAT_W64 {
        Some(MajorFormat::W64)
    } else if masked == SF_FORMAT_MAT4 {
        Some(MajorFormat::MAT4)
    } else if masked == SF_FORMAT_MAT5 {
        Some(MajorFormat::MAT5)
    } else if masked == SF_FORMAT_PVF {
        Some(MajorFormat::PVF)
    } else if masked == SF_FORMAT_XI {
        Some(MajorFormat::XI)
    } else if masked == SF_FORMAT_HTK {
        Some(MajorFormat::HTK)
    } else if masked == SF_FORMAT_SDS {
        Some(MajorFormat::SDS)
    } else if masked == SF_FORMAT_AVR {
        Some(MajorFormat::AVR)
    } else if masked == SF_FORMAT_WAVEX {
        Some(MajorFormat::WAVEX)
    } else if masked == SF_FORMAT_SD2 {
        Some(MajorFormat::SD2)
    } else if masked == SF_FORMAT_FLAC {
        Some(MajorFormat::FLAC)
    } else if masked == SF_FORMAT_CAF {
        Some(MajorFormat::CAF)
    } else if masked == SF_FORMAT_WVE {
        Some(MajorFormat::WVE)
    } else if masked == SF_FORMAT_OGG {
        Some(MajorFormat::OGG)
    } else if masked == SF_FORMAT_MPC2K {
        Some(MajorFormat::MPC2K)
    } else if masked == SF_FORMAT_RF64 {
        Some(MajorFormat::RF64)
    } else {
        None
    }
}

/// Decode the container field of a format word; flag values outside the
/// recognised catalogue decode to `None`.
pub fn flags_to_major_format(flags: u32) -> (r: Option<MajorFormat>)
    ensures
        r == spec_flags_to_major_format(flags),
{
    let masked: u32 = flags & SF_FORMAT_TYPEMASK;
    if masked == SF_FORMAT_WAV {
        Some(MajorFormat::WAV)
    } else if masked == SF_FORMAT_AIFF {
        Some(MajorFormat::AIFF)
    } else if masked == SF_FORMAT_AU {
        Some(MajorFormat::AU)
    } else if masked == SF_FORMAT_RAW {
        Some(MajorFormat::RAW)
    } else if masked == SF_FORMAT_PAF {
        Some(MajorFormat::PAF)
    } else if masked == SF_FORMAT_SVX {
        Some(MajorFormat::SVX)
    } else if masked == SF_FORMAT_NIST {
        Some(MajorFormat::NIST)
    } else if masked == SF_FORMAT_VOC {
        Some(MajorFormat::VOC)
    } else if masked == SF_FORMAT_IRCAM {
        Some(MajorFormat::IRCAM)
    } else if masked == SF_FORMAT_W64 {
        Some(MajorFormat::W64)
    } else if masked == SF_FORMAT_MAT4 {
        Some(MajorFormat::MAT4)
    } else if masked == SF_FORMAT_MAT5 {
        Some(MajorFormat::MAT5)
    } else if masked == SF_FORMAT_PVF {
        Some(MajorFormat::PVF)
    } else if masked == SF_FORMAT_XI {
        Some(MajorFormat::XI)
    } else if masked == SF_FORMAT_HTK {
        Some(MajorFormat::HTK)
    } else if masked == SF_FORMAT_SDS {
        Some(MajorFormat::SDS)
    } else if masked == SF_FORMAT_AVR {
        Some(MajorFormat::AVR)
    } else if masked == SF_FORMAT_WAVEX {
        Some(MajorFormat::WAVEX)
    } else if masked == SF_FORMAT_SD2 {
        Some(MajorFormat::SD2)
    } else if masked == SF_FORMAT_FLAC {
        Some(MajorFormat::FLAC)
    } else if masked == SF_FORMAT_CAF {
        Some(MajorFormat::CAF)
    } else if masked == SF_FORMAT_WVE {
        Some(MajorFormat::WVE)
    } else if masked == SF_FORMAT_OGG {
        Some(MajorFormat::OGG)
    } else if masked == SF_FORMAT_MPC2K {
        Some(MajorFormat::MPC2K)
    } else if masked == SF_FORMAT_RF64 {
        Some(MajorFormat::RF64)
    } else {
        None
    }
}

pub open spec fn spec_flags_to_subtype_format(flags: u32) -> Option<SubtypeFormat> {
    let masked = flags & SF_FORMAT_SUBMASK;
    if masked == SF_FORMAT_PCM_S8 {
        Some(SubtypeFormat::PCM_S8)
    } else if masked == SF_FORMAT_PCM_16 {
        Some(SubtypeFormat::PCM_16)
    } else if masked == SF_FORMAT_PCM_24 {
        Some(SubtypeFormat::PCM_24)
    } else if masked == SF_FORMAT_PCM_32 {
        Some(SubtypeFormat::PCM_32)
    } else if masked == SF_FORMAT_PCM_U8 {
        Some(SubtypeFormat::PCM_U8)
    } else if masked == SF_FORMAT_FLOAT {
        Some(SubtypeFormat::FLOAT)
    } else if masked == SF_FORMAT_DOUBLE {
        Some(SubtypeFormat::DOUBLE)
    } else if masked == SF_FORMAT_ULAW {
        Some(SubtypeFormat::ULAW)
    } else if masked == SF_FORMAT_ALAW {
        Some(SubtypeFormat::ALAW)
    } else if masked == SF_FORMAT_IMA_ADPCM {
        Some(SubtypeFormat::IMA_ADPCM)
    } else if masked == SF_FORMAT_MS_ADPCM {
        Some(SubtypeFormat::MS_ADPCM)
    } else if masked == SF_FORMAT_GSM610 {
        Some(SubtypeFormat::GSM610)
    } else if masked == SF_FORMAT_VOX_ADPCM {
        Some(SubtypeFormat::VOX_ADPCM)
    } else if masked == SF_FORMAT_G721_32 {
        Some(SubtypeFormat::G721_32)
    } else if masked == SF_FORMAT_G723_24 {
        Some(SubtypeFormat::G723_24)
    } else if masked == SF_FORMAT_G723_40 {
        Some(SubtypeFormat::G723_40)
    } else if masked == SF_FORMAT_DWVW_12 {
        Some(SubtypeFormat::DWVW_12)
    } else if masked == SF_FORMAT_DWVW_16 {
        Some(SubtypeFormat::DWVW_16)
    } else if masked == SF_FORMAT_DWVW_24 {
        Some(SubtypeFormat::DWVW_24)
    } else if masked == SF_FORMAT_DWVW_N {
        Some(SubtypeFormat::DWVW_N)
    } else if masked == SF_FORMAT_DPCM_8 {
        Some(SubtypeFormat::DPCM_8)
    } else if masked == SF_FORMAT_DPCM_16 {
        Some(SubtypeFormat::DPCM_16)
    } else if masked == SF_FORMAT_VORBIS {
        Some(SubtypeFormat::VORBIS)
    } else if masked == SF_FORMAT_ALAC_16 {
        Some(SubtypeFormat::ALAC_16)
    } else if masked == SF_FORMAT_ALAC_20 {
        Some(SubtypeFormat::ALAC_20)
    } else if masked == SF_FORMAT_ALAC_24 {
        Some(SubtypeFormat::ALAC_24)
    } else if masked == SF_FORMAT_ALAC_32 {
        Some(SubtypeFormat::ALAC_32)
    } else {
        None
    }
}

/// Decode the encoding field of a format word; flag values outside the
/// recognised catalogue decode to `None`.
pub fn flags_to_subtype_format(flags: u32) -> (r: Option<SubtypeFormat>)
    ensures
        r == spec_flags_to_subtype_format(flags),
{
    let masked: u32 = flags & SF_FORMAT_SUBMASK;
    if masked == SF_FORMAT_PCM_S8 {
        Some(SubtypeFormat::PCM_S8)
    } else if masked == SF_FORMAT_PCM_16 {
        Some(SubtypeFormat::PCM_16)
    } else if masked == SF_FORMAT_PCM_24 {
        Some(SubtypeFormat::PCM_24)
    } else if masked == SF_FORMAT_PCM_32 {
        Some(SubtypeFormat::PCM_32)
    } else if masked == SF_FORMAT_PCM_U8 {
        Some(SubtypeFormat::PCM_U8)
    } else if masked == SF_FORMAT_FLOAT {
        Some(SubtypeFormat::FLOAT)
    } else if masked == SF_FORMAT_DOUBLE {
        Some(SubtypeFormat::DOUBLE)
    } else if masked == SF_FORMAT_ULAW {
        Some(SubtypeFormat::ULAW)
    } else if masked == SF_FORMAT_ALAW {
        Some(SubtypeFormat::ALAW)
    } else if masked == SF_FORMAT_IMA_ADPCM {
        Some(SubtypeFormat::IMA_ADPCM)
    } else if masked == SF_FORMAT_MS_ADPCM {
        Some(SubtypeFormat::MS_ADPCM)
    } else if masked == SF_FORMAT_GSM610 {
        Some(SubtypeFormat::GSM610)
    } else if masked == SF_FORMAT_VOX_ADPCM {
        Some(SubtypeFormat::VOX_ADPCM)
    } else if masked == SF_FORMAT_G721_32 {
        Some(SubtypeFormat::G721_32)
    } else if masked == SF_FORMAT_G723_24 {
        Some(SubtypeFormat::G723_24)
    } else if masked == SF_FORMAT_G723_40 {
        Some(SubtypeFormat::G723_40)
    } else if masked == SF_FORMAT_DWVW_12 {
        Some(SubtypeFormat::DWVW_12)
    } else if masked == SF_FORMAT_DWVW_16 {
        Some(SubtypeFormat::DWVW_16)
    } else if masked == SF_FORMAT_DWVW_24 {
        Some(SubtypeFormat::DWVW_24)
    } else if masked == SF_FORMAT_DWVW_N {
        Some(SubtypeFormat::DWVW_N)
    } else if masked == SF_FORMAT_DPCM_8 {
        Some(SubtypeFormat::DPCM_8)
    } else if masked == SF_FORMAT_DPCM_16 {
        Some(SubtypeFormat::DPCM_16)
    } else if masked == SF_FORMAT_VORBIS {
        Some(SubtypeFormat::VORBIS)
    } else if masked == SF_FORMAT_ALAC_16 {
        Some(SubtypeFormat::ALAC_16)
    } else if masked == SF_FORMAT_ALAC_20 {
        Some(SubtypeFormat::ALAC_20)
    } else if masked == SF_FORMAT_ALAC_24 {
        Some(SubtypeFormat::ALAC_24)
    } else if masked == SF_FORMAT_ALAC_32 {
        Some(SubtypeFormat::ALAC_32)
    } else {
        None
    }
}

pub open spec fn spec_flags_to_endian(flags: u32) -> Option<Endian> {
    let masked = flags & SF_FORMAT_ENDMASK;
    if masked == SF_ENDIAN_FILE {
        Some(Endian::File)
    } else if masked == SF_ENDIAN_LITTLE {
        Some(Endian::Little)
    } else if masked == SF_ENDIAN_BIG {
        Some(Endian::Big)
    } else if masked == SF_ENDIAN_CPU {
        Some(Endian::CPU)
    } else {
        None
    }
}

/// Decode the endianness field of a format word; every value of the two
/// endian bits is a recognised directive.
pub fn flags_to_endian(flags: u32) -> (r: Option<Endian>)
    ensures
        r == spec_flags_to_endian(flags),
{
    let masked: u32 = flags & SF_FORMAT_ENDMASK;
    if masked == SF_ENDIAN_FILE {
        Some(Endian::File)
    } else if masked == SF_ENDIAN_LITTLE {
        Some(Endian::Little)
    } else if masked == SF_ENDIAN_BIG {
        Some(Endian::Big)
    } else if masked == SF_ENDIAN_CPU {
        Some(Endian::CPU)
    } else {
        None
    }
}

pub open spec fn spec_assembly_format_flags(
    major_format: MajorFormat,
    subtype_format: SubtypeFormat,
    endian: Endian,
) -> u32 {
    spec_major_format_to_flags(major_format) | spec_subtype_format_to_flags(subtype_format)
        | spec_endian_to_flags(endian)
}

/// Pack a full format descriptor into one format word; the three encoded
/// fields occupy disjoint masks, so the word decodes back to the same
/// descriptor (`lemma_format_flags_invertible`).
pub fn assembly_format_flags(
    major_format: MajorFormat,
    subtype_format: SubtypeFormat,
    endian: Endian,
) -> (r: u32)
    ensures
        r == spec_assembly_format_flags(major_format, subtype_format, endian),
{
    let major_format_flag = major_format_to_flags(major_format);
    let subtype_format_flag = subtype_format_to_flags(subtype_format);
    let endian_flag = endian_to_flags(endian);
    major_format_flag | subtype_format_flag | endian_flag
}

/// Law: the registry's encoding is invertible. Packing any recognised
/// (container, encoding, endianness) descriptor into a format word and
/// decoding that word's three fields returns the original descriptor.
pub proof fn lemma_format_flags_invertible(
    major_format: MajorFormat,
    subtype_format: SubtypeFormat,
    endian: Endian,
)
    ensures
        spec_flags_to_major_format(
            spec_assembly_format_flags(major_format, subtype_format, endian),
        ) == Some(major_format),
        spec_flags_to_subtype_format(
            spec_assembly_format_flags(major_format, subtype_format, endian),
        ) == Some(subtype_format),
        spec_flags_to_endian(spec_assembly_format_flags(major_format, subtype_format, endian))
            == Some(endian),
{
    let mf = spec_major_format_to_flags(major_format);
    let sf = spec_subtype_format_to_flags(subtype_format);
    let ef = spec_endian_to_flags(endian);
    assert(mf == 0x010000u32 || mf == 0x020000u32 || mf == 0x030000u32 || mf == 0x040000u32
        || mf == 0x050000u32 || mf == 0x060000u32 || mf == 0x070000u32 || mf == 0x080000u32
        || mf == 0x0A0000u32 || mf == 0x0B0000u32 || mf == 0x0C0000u32 || mf == 0x0D0000u32
        || mf == 0x0E0000u32 || mf == 0x0F0000u32 || mf == 0x100000u32 || mf == 0x110000u32
        || mf == 0x120000u32 || mf == 0x130000u32 || mf == 0x160000u32 || mf == 0x170000u32
        || mf == 0x180000u32 || mf == 0x190000u32 || mf == 0x200000u32 || mf == 0x210000u32
        || mf == 0x220000u32);
    assert(sf >= 0x0001u32 && sf <= 0x0073u32);
    assert(ef == 0x00000000u32 || ef == 0x10000000u32 || ef == 0x20000000u32
        || ef == 0x30000000u32);
    assert(mf & 0xFFFFu32 == 0u32 && mf & 0x0FFF0000u32 == mf) by (bit_vector)
        requires
            mf == 0x010000u32 || mf == 0x020000u32 || mf == 0x030000u32 || mf == 0x040000u32
                || mf == 0x050000u32 || mf == 0x060000u32 || mf == 0x070000u32 || mf
                == 0x080000u32 || mf == 0x0A0000u32 || mf == 0x0B0000u32 || mf == 0x0C0000u32
                || mf == 0x0D0000u32 || mf == 0x0E0000u32 || mf == 0x0F0000u32 || mf
                == 0x100000u32 || mf == 0x110000u32 || mf == 0x120000u32 || mf == 0x130000u32
                || mf == 0x160000u32 || mf == 0x170000u32 || mf == 0x180000u32 || mf
                == 0x190000u32 || mf == 0x200000u32 || mf == 0x210000u32 || mf == 0x220000u32,
    ;
    assert(sf & 0x0000FFFFu32 == sf) by (bit_vector)
        requires
            0x0001u32 <= sf <= 0x0073u32,
    ;
    assert(ef & 0x30000000u32 == ef) by (bit_vector)
        requires
            ef == 0x00000000u32 || ef == 0x10000000u32 || ef == 0x20000000u32 || ef
                == 0x30000000u32,
    ;
    let word = mf | sf | ef;
    assert(word & 0x0FFF0000u32 == mf && word & 0x0000FFFFu32 == sf && word & 0x30000000u32
        == ef) by (bit_vector)
        requires
            word == mf | sf | ef,
            mf & 0x0FFF0000u32 == mf,
            mf & 0xFFFFu32 == 0u32,
            0x010000u32 <= mf <= 0x220000u32,
            sf & 0x0000FFFFu32 == sf,
            sf <= 0x0073u32,
            ef & 0x30000000u32 == ef,
    ;
    assert(spec_assembly_format_flags(major_format, subtype_format, endian) == word);
}

pub open spec fn spec_default_subtype(major_format: MajorFormat) -> Option<SubtypeFormat> {
    match major_format {
        MajorFormat::WAV => Some(SubtypeFormat::PCM_16),
        MajorFormat::AIFF => Some(SubtypeFormat::PCM_16),
        MajorFormat::AU => Some(SubtypeFormat::PCM_16),
        MajorFormat::RAW => None,
        MajorFormat::PAF => Some(SubtypeFormat::PCM_16),
        MajorFormat::SVX => Some(SubtypeFormat::PCM_16),
        MajorFormat::NIST => Some(SubtypeFormat::PCM_16),
        MajorFormat::VOC => Some(SubtypeFormat::PCM_16),
        MajorFormat::IRCAM => Some(SubtypeFormat::PCM_16),
        MajorFormat::W64 => Some(SubtypeFormat::PCM_16),
        MajorFormat::MAT4 => Some(SubtypeFormat::DOUBLE),
        MajorFormat::MAT5 => Some(SubtypeFormat::DOUBLE),
        MajorFormat::PVF => Some(SubtypeFormat::PCM_16),
        MajorFormat::XI => Some(SubtypeFormat::DPCM_16),
        MajorFormat::HTK => Some(SubtypeFormat::PCM_16),
        MajorFormat::SDS => Some(SubtypeFormat::PCM_16),
        MajorFormat::AVR => Some(SubtypeFormat::PCM_16),
        MajorFormat::WAVEX => Some(SubtypeFormat::PCM_16),
        MajorFormat::SD2 => Some(SubtypeFormat::PCM_16),
        MajorFormat::FLAC => Some(SubtypeFormat::PCM_16),
        MajorFormat::CAF => Some(SubtypeFormat::PCM_16),
        MajorFormat::WVE => Some(SubtypeFormat::ALAW),
        MajorFormat::OGG => Some(SubtypeFormat::VORBIS),
        MajorFormat::MPC2K => Some(SubtypeFormat::PCM_16),
        MajorFormat::RF64 => Some(SubtypeFormat::PCM_16),
    }
}

/// Returns default audio encoding format for given audio container format;
/// absent for containers with no sensible default (raw streams).
pub fn default_subtype(major_format: MajorFormat) -> (r: Option<SubtypeFormat>)
    ensures
        r == spec_default_subtype(major_format),
{
    match major_format {
        MajorFormat::WAV => Some(SubtypeFormat::PCM_16),
        MajorFormat::AIFF => Some(SubtypeFormat::PCM_16),
        MajorFormat::AU => Some(SubtypeFormat::PCM_16),
        MajorFormat::RAW => None,
        MajorFormat::PAF => Some(SubtypeFormat::PCM_16),
        MajorFormat::SVX => Some(SubtypeFormat::PCM_16),
        MajorFormat::NIST => Some(SubtypeFormat::PCM_16),
        MajorFormat::VOC => Some(SubtypeFormat::PCM_16),
        MajorFormat::IRCAM => Some(SubtypeFormat::PCM_16),
        MajorFormat::W64 => Some(SubtypeFormat::PCM_16),
        MajorFormat::MAT4 => Some(SubtypeFormat::DOUBLE),
        MajorFormat::MAT5 => Some(SubtypeFormat::DOUBLE),
        MajorFormat::PVF => Some(SubtypeFormat::PCM_16),
        MajorFormat::XI => Some(SubtypeFormat::DPCM_16),
        MajorFormat::HTK => Some(SubtypeFormat::PCM_16),
        MajorFormat::SDS => Some(SubtypeFormat::PCM_16),
        MajorFormat::AVR => Some(SubtypeFormat::PCM_16),
        MajorFormat::WAVEX => Some(SubtypeFormat::PCM_16),
        MajorFormat::SD2 => Some(SubtypeFormat::PCM_16),
        MajorFormat::FLAC => Some(SubtypeFormat::PCM_16),
        MajorFormat::CAF => Some(SubtypeFormat::PCM_16),
        MajorFormat::WVE => Some(SubtypeFormat::ALAW),
        MajorFormat::OGG => Some(SubtypeFormat::VORBIS),
        MajorFormat::MPC2K => Some(SubtypeFormat::PCM_16),
        MajorFormat::RF64 => Some(SubtypeFormat::PCM_16),
    }
}

/// Display data for one container format, as the engine reports it.
#[derive(Debug)]
pub struct MajorInfo {
    pub name: String,
    pub extension: String,
}

/// Display data for one sample encoding, as the engine reports it.
#[derive(Debug)]
pub struct SubtypeInfo {
    pub name: String,
}

/// One entry of the engine's supported-format enumeration: the reported
/// format word and the display strings that came with it.
#[derive(Debug)]
pub struct RawFormatInfo {
    pub format: u32,
    pub name: String,
    pub extension: String,
}

pub open spec fn major_dict_has_key(d: Seq<(MajorFormat, MajorInfo)>, m: MajorFormat) -> bool {
    exists|i: int| 0 <= i < d.len() && d[i].0 == m
}

pub open spec fn subtype_dict_has_key(
    d: Seq<(SubtypeFormat, SubtypeInfo)>,
    s: SubtypeFormat,
) -> bool {
    exists|i: int| 0 <= i < d.len() && d[i].0 == s
}

/// The catalogue pair `p` carries the decoded key and display strings of
/// some enumerated entry.
pub open spec fn major_entry_from(entries: Seq<RawFormatInfo>, p: (MajorFormat, MajorInfo)) -> bool {
    exists|k: int|
        0 <= k < entries.len() && #[trigger] spec_flags_to_major_format(entries[k].format)
            == Some(p.0) && p.1.name@ == entries[k].name@ && p.1.extension@ == entries[k].extension@
}

/// The catalogue pair `p` carries the decoded key and display strings of
/// some enumerated entry.
pub open spec fn subtype_entry_from(
    entries: Seq<RawFormatInfo>,
    p: (SubtypeFormat, SubtypeInfo),
) -> bool {
    exists|k: int|
        0 <= k < entries.len() && #[trigger] spec_flags_to_subtype_format(entries[k].format)
            == Some(p.0) && p.1.name@ == entries[k].name@
}

/// Where the catalogue lists the container `m`, if it does.
pub fn major_dict_find(d: &Vec<(MajorFormat, MajorInfo)>, m: MajorFormat) -> (r: Option<usize>)
    ensures
        r matches Some(i) ==> 0 <= i < d@.len() && d@[i as int].0 == m,
        r is None ==> !major_dict_has_key(d@, m),
{
    let mut i: usize = 0;
    while i < d.len()
        invariant
            i <= d@.len(),
            forall|j: int| 0 <= j < i ==> d@[j].0 != m,
        decreases d@.len() - i,
    {
        if d[i].0 == m {
            return Some(i);
        }
        i += 1;
    }
    None
}

/// Where the catalogue lists the encoding `s`, if it does.
pub fn subtype_dict_find(d: &Vec<(SubtypeFormat, SubtypeInfo)>, s: SubtypeFormat) -> (r: Option<
    usize,
>)
    ensures
        r matches Some(i) ==> 0 <= i < d@.len() && d@[i as int].0 == s,
        r is None ==> !subtype_dict_has_key(d@, s),
{
    let mut i: usize = 0;
    while i < d.len()
        invariant
            i <= d@.len(),
            forall|j: int| 0 <= j < i ==> d@[j].0 != s,
        decreases d@.len() - i,
    {
        if d[i].0 == s {
            return Some(i);
        }
        i += 1;
    }
    None
}

/// Build the catalogue of supported audio container formats from the
/// entries the engine enumerates, keeping exactly the entries whose format
/// word decodes to a recognised container and discarding the rest; a
/// container reported more than once keeps its last entry.
pub fn get_supported_major_format_dict(entries: &Vec<RawFormatInfo>) -> (r: Vec<
    (MajorFormat, MajorInfo),
>)
    ensures
        forall|i: int, j: int| 0 <= i < j < r@.len() ==> r@[i].0 != r@[j].0,
        forall|m: MajorFormat|
            #[trigger] major_dict_has_key(r@, m) <==> exists|k: int|
                0 <= k < entries@.len() && #[trigger] spec_flags_to_major_format(
                    entries@[k].format,
                ) == Some(m),
        forall|i: int| 0 <= i < r@.len() ==> major_entry_from(entries@, #[trigger] r@[i]),
{
    let mut out: Vec<(MajorFormat, MajorInfo)> = Vec::new();
    let mut idx: usize = 0;
    while idx < entries.len()
        invariant
            idx <= entries@.len(),
            forall|i: int, j: int| 0 <= i < j < out@.len() ==> out@[i].0 != out@[j].0,
            forall|m: MajorFormat|
                #[trigger] major_dict_has_key(out@, m) <==> exists|k: int|
                    0 <= k < idx && #[trigger] spec_flags_to_major_format(entries@[k].format)
                        == Some(m),
            forall|i: int| 0 <= i < out@.len() ==> major_entry_from(entries@, #[trigger] out@[i]),
        decreases entries@.len() - idx,
    {
        let entry = &entries[idx];
        match flags_to_major_format(entry.format) {
            Some(m) => {
                let info = MajorInfo { name: entry.name.clone(), extension: entry.extension.clone() };
                let ghost pre = out@;
                // a container reported more than once keeps its last entry
                match major_dict_find(&out, m) {
                    Some(at) => {
                        out.set(at, (m, info));
                        proof {
                            assert(out@[at as int].0 == m);
                            assert forall|j: int| 0 <= j < out@.len() implies #[trigger] out@[j].0
                                == pre[j].0 by {
                                if j != at {
                                    assert(out@[j] == pre[j]);
                                }
                            }
                            assert forall|m2: MajorFormat| major_dict_has_key(out@, m2) implies
                                major_dict_has_key(pre, m2) by {
                                let i = choose|i: int| 0 <= i < out@.len() && out@[i].0 == m2;
                                assert(pre[i].0 == m2);
                            }
                            assert forall|m2: MajorFormat| major_dict_has_key(pre, m2) implies
                                major_dict_has_key(out@, m2) by {
                                let i = choose|i: int| 0 <= i < pre.len() && pre[i].0 == m2;
                                assert(out@[i].0 == m2);
                            }
                            assert(spec_flags_to_major_format(entries@[idx as int].format)
                                == Some(out@[at as int].0));
                            assert(major_entry_from(entries@, out@[at as int]));
                            assert forall|j: int| 0 <= j < out@.len() implies major_entry_from(
                                entries@,
                                #[trigger] out@[j],
                            ) by {
                                if j != at {
                                    assert(out@[j] == pre[j]);
                                }
                            }
                            assert forall|m2: MajorFormat|
                                (exists|k: int|
                                    0 <= k < idx + 1 && #[trigger] spec_flags_to_major_format(
                                        entries@[k].format,
                                    ) == Some(m2)) implies major_dict_has_key(out@, m2) by {
                                let k = choose|k: int|
                                    0 <= k < idx + 1 && spec_flags_to_major_format(
                                        entries@[k].format,
                                    ) == Some(m2);
                                if k < idx {
                                    assert(major_dict_has_key(pre, m2));
                                } else {
                                    assert(m2 == m);
                                    assert(major_dict_has_key(out@, m));
                                }
                            }
                            assert forall|m2: MajorFormat| major_dict_has_key(out@, m2) implies
                                exists|k: int|
                                    0 <= k < idx + 1 && #[trigger] spec_flags_to_major_format(
                                        entries@[k].format,
                                    ) == Some(m2) by {
                                assert(major_dict_has_key(pre, m2));
                            }
                        }
                    },
                    None => {
                        out.push((m, info));
                        proof {
                            let last = out@.len() - 1;
                            assert(out@[last].0 == m);
                            assert(major_dict_has_key(out@, m));
                            assert(spec_flags_to_major_format(entries@[idx as int].format)
                                == Some(out@[last].0));
                            assert(major_entry_from(entries@, out@[last]));
                            assert forall|m2: MajorFormat| major_dict_has_key(out@, m2) implies
                                exists|k: int|
                                    0 <= k < idx + 1 && #[trigger] spec_flags_to_major_format(
                                        entries@[k].format,
                                    ) == Some(m2) by {
                                let i = choose|i: int| 0 <= i < out@.len() && out@[i].0 == m2;
                                if i < last {
                                    assert(pre[i].0 == m2);
                                    assert(major_dict_has_key(pre, m2));
                                } else {
                                    assert(spec_flags_to_major_format(
                                        entries@[idx as int].format,
                                    ) == Some(m2));
                                }
                            }
                            assert forall|m2: MajorFormat|
                                (exists|k: int|
                                    0 <= k < idx + 1 && #[trigger] spec_flags_to_major_format(
                                        entries@[k].format,
                                    ) == Some(m2)) implies major_dict_has_key(out@, m2) by {
                                let k = choose|k: int|
                                    0 <= k < idx + 1 && spec_flags_to_major_format(
                                        entries@[k].format,
                                    ) == Some(m2);
                                if k < idx {
                                    assert(major_dict_has_key(pre, m2));
                                    let i = choose|i: int| 0 <= i < pre.len() && pre[i].0 == m2;
                                    assert(out@[i].0 == m2);
                                } else {
                                    assert(m2 == m);
                                }
                            }
                        }
                    },
                }
            },
            None => {
                proof {
                    assert forall|m2: MajorFormat|
                        (exists|k: int|
                            0 <= k < idx + 1 && #[trigger] spec_flags_to_major_format(
                                entries@[k].format,
                            ) == Some(m2)) implies major_dict_has_key(out@, m2) by {
                        let k = choose|k: int|
                            0 <= k < idx + 1 && spec_flags_to_major_format(entries@[k].format)
                                == Some(m2);
                        assert(k < idx);
                    }
                }
            },
        }
        idx += 1;
    }
    out
}

/// Build the catalogue of supported sample encodings from the entries the
/// engine enumerates, keeping exactly the entries whose format word decodes
/// to a recognised encoding and discarding the rest; an encoding reported
/// more than once keeps its last entry.
pub fn get_supported_subtype_format_dict(entries: &Vec<RawFormatInfo>) -> (r: Vec<
    (SubtypeFormat, SubtypeInfo),
>)
    ensures
        forall|i: int, j: int| 0 <= i < j < r@.len() ==> r@[i].0 != r@[j].0,
        forall|s: SubtypeFormat|
            #[trigger] subtype_dict_has_key(r@, s) <==> exists|k: int|
                0 <= k < entries@.len() && #[trigger] spec_flags_to_subtype_format(
                    entries@[k].format,
                ) == Some(s),
        forall|i: int| 0 <= i < r@.len() ==> subtype_entry_from(entries@, #[trigger] r@[i]),
{
    let mut out: Vec<(SubtypeFormat, SubtypeInfo)> = Vec::new();
    let mut idx: usize = 0;
    while idx < entries.len()
        invariant
            idx <= entries@.len(),
            forall|i: int, j: int| 0 <= i < j < out@.len() ==> out@[i].0 != out@[j].0,
            forall|s: SubtypeFormat|
                #[trigger] subtype_dict_has_key(out@, s) <==> exists|k: int|
                    0 <= k < idx && #[trigger] spec_flags_to_subtype_format(entries@[k].format)
                        == Some(s),
            forall|i: int| 0 <= i < out@.len() ==> subtype_entry_from(entries@, #[trigger] out@[i]),
        decreases entries@.len() - idx,
    {
        let entry = &entries[idx];
        match flags_to_subtype_format(entry.format) {
            Some(s) => {
                let info = SubtypeInfo { name: entry.name.clone() };
                let ghost pre = out@;
                // an encoding reported more than once keeps its last entry
                match subtype_dict_find(&out, s) {
                    Some(at) => {
                        out.set(at, (s, info));
                        proof {
                            assert(out@[at as int].0 == s);
                            assert forall|j: int| 0 <= j < out@.len() implies #[trigger] out@[j].0
                                == pre[j].0 by {
                                if j != at {
                                    assert(out@[j] == pre[j]);
                                }
                            }
                            assert forall|s2: SubtypeFormat| subtype_dict_has_key(out@, s2)
                                implies subtype_dict_has_key(pre, s2) by {
                                let i = choose|i: int| 0 <= i < out@.len() && out@[i].0 == s2;
                                assert(pre[i].0 == s2);
                            }
                            assert forall|s2: SubtypeFormat| subtype_dict_has_key(pre, s2)
                                implies subtype_dict_has_key(out@, s2) by {
                                let i = choose|i: int| 0 <= i < pre.len() && pre[i].0 == s2;
                                assert(out@[i].0 == s2);
                            }
                            assert(spec_flags_to_subtype_format(entries@[idx as int].format)
                                == Some(out@[at as int].0));
                            assert(subtype_entry_from(entries@, out@[at as int]));
                            assert forall|j: int| 0 <= j < out@.len() implies subtype_entry_from(
                                entries@,
                                #[trigger] out@[j],
                            ) by {
                                if j != at {
                                    assert(out@[j] == pre[j]);
                                }
                            }
                            assert forall|s2: SubtypeFormat|
                                (exists|k: int|
                                    0 <= k < idx + 1 && #[trigger] spec_flags_to_subtype_format(
                                        entries@[k].format,
                                    ) == Some(s2)) implies subtype_dict_has_key(out@, s2) by {
                                let k = choose|k: int|
                                    0 <= k < idx + 1 && spec_flags_to_subtype_format(
                                        entries@[k].format,
                                    ) == Some(s2);
                                if k < idx {
                                    assert(subtype_dict_has_key(pre, s2));
                                } else {
                                    assert(s2 == s);
                                    assert(subtype_dict_has_key(out@, s));
                                }
                            }
                            assert forall|s2: SubtypeFormat| subtype_dict_has_key(out@, s2)
                                implies exists|k: int|
                                    0 <= k < idx + 1 && #[trigger] spec_flags_to_subtype_format(
                                        entries@[k].format,
                                    ) == Some(s2) by {
                                assert(subtype_dict_has_key(pre, s2));
                            }
                        }
                    },
                    None => {
                        out.push((s, info));
                        proof {
                            let last = out@.len() - 1;
                            assert(out@[last].0 == s);
                            assert(subtype_dict_has_key(out@, s));
                            assert(spec_flags_to_subtype_format(entries@[idx as int].format)
                                == Some(out@[last].0));
                            assert(subtype_entry_from(entries@, out@[last]));
                            assert forall|s2: SubtypeFormat| subtype_dict_has_key(out@, s2)
                                implies exists|k: int|
                                    0 <= k < idx + 1 && #[trigger] spec_flags_to_subtype_format(
                                        entries@[k].format,
                                    ) == Some(s2) by {
                                let i = choose|i: int| 0 <= i < out@.len() && out@[i].0 == s2;
                                if i < last {
                                    assert(pre[i].0 == s2);
                                    assert(subtype_dict_has_key(pre, s2));
                                } else {
                                    assert(spec_flags_to_subtype_format(
                                        entries@[idx as int].format,
                                    ) == Some(s2));
                                }
                            }
                            assert forall|s2: SubtypeFormat|
                                (exists|k: int|
                                    0 <= k < idx + 1 && #[trigger] spec_flags_to_subtype_format(
                                        entries@[k].format,
                                    ) == Some(s2)) implies subtype_dict_has_key(out@, s2) by {
                                let k = choose|k: int|
                                    0 <= k < idx + 1 && spec_flags_to_subtype_format(
                                        entries@[k].format,
                                    ) == Some(s2);
                                if k < idx {
                                    assert(subtype_dict_has_key(pre, s2));
                                    let i = choose|i: int| 0 <= i < pre.len() && pre[i].0 == s2;
                                    assert(out@[i].0 == s2);
                                } else {
                                    assert(s2 == s);
                                }
                            }
                        }
                    },
                }
            },
            None => {
                proof {
                    assert forall|s2: SubtypeFormat|
                        (exists|k: int|
                            0 <= k < idx + 1 && #[trigger] spec_flags_to_subtype_format(
                                entries@[k].format,
                            ) == Some(s2)) implies subtype_dict_has_key(out@, s2) by {
                        let k = choose|k: int|
                            0 <= k < idx + 1 && spec_flags_to_subtype_format(entries@[k].format)
                                == Some(s2);
                        assert(k < idx);
                    }
                }
            },
        }
        idx += 1;
    }
    out
}

/// Look a container up in the catalogue built by
/// `get_supported_major_format_dict`.
pub fn major_dict_get<'a>(d: &'a Vec<(MajorFormat, MajorInfo)>, m: MajorFormat) -> (r: Option<
    &'a MajorInfo,
>)
    ensures
        r is Some <==> major_dict_has_key(d@, m),
        r matches Some(info) ==> exists|i: int|
            0 <= i < d@.len() && d@[i].0 == m && d@[i].1 == *info,
{
    let mut i: usize = 0;
    while i < d.len()
        invariant
            i <= d@.len(),
            forall|j: int| 0 <= j < i ==> d@[j].0 != m,
        decreases d@.len() - i,
    {
        if d[i].0 == m {
            return Some(&d[i].1);
        }
        i += 1;
    }
    None
}

/// Look an encoding up in the catalogue built by
/// `get_supported_subtype_format_dict`.
pub fn subtype_dict_get<'a>(d: &'a Vec<(SubtypeFormat, SubtypeInfo)>, s: SubtypeFormat) -> (r:
    Option<&'a SubtypeInfo>)
    ensures
        r is Some <==> subtype_dict_has_key(d@, s),
        r matches Some(info) ==> exists|i: int|
            0 <= i < d@.len() && d@[i].0 == s && d@[i].1 == *info,
{
    let mut i: usize = 0;
    while i < d.len()
        invariant
            i <= d@.len(),
            forall|j: int| 0 <= j < i ==> d@[j].0 != s,
        decreases d@.len() - i,
    {
        if d[i].0 == s {
            return Some(&d[i].1);
        }
        i += 1;
    }
    None
}

} // verus!
