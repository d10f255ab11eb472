use sndfile::format::{
    assembly_format_flags, default_subtype, endian_to_flags, flags_to_endian,
    flags_to_major_format, flags_to_subtype_format, get_supported_major_format_dict,
    get_supported_subtype_format_dict, major_dict_get, major_format_to_flags, subtype_dict_get,
    subtype_format_to_flags, RawFormatInfo,
};
use sndfile::{Endian, MajorFormat, SubtypeFormat};

const ALL_MAJORS: [MajorFormat; 25] = [
    MajorFormat::WAV,
    MajorFormat::AIFF,
    MajorFormat::AU,
    MajorFormat::RAW,
    MajorFormat::PAF,
    MajorFormat::SVX,
    MajorFormat::NIST,
    MajorFormat::VOC,
    MajorFormat::IRCAM,
    MajorFormat::W64,
    MajorFormat::MAT4,
    MajorFormat::MAT5,
    MajorFormat::PVF,
    MajorFormat::XI,
    MajorFormat::HTK,
    MajorFormat::SDS,
    MajorFormat::AVR,
    MajorFormat::WAVEX,
    MajorFormat::SD2,
    MajorFormat::FLAC,
    MajorFormat::CAF,
    MajorFormat::WVE,
    MajorFormat::OGG,
    MajorFormat::MPC2K,
    MajorFormat::RF64,
];

const ALL_SUBTYPES: [SubtypeFormat; 27] = [
    SubtypeFormat::PCM_S8,
    SubtypeFormat::PCM_16,
    SubtypeFormat::PCM_24,
    SubtypeFormat::PCM_32,
    SubtypeFormat::PCM_U8,
    SubtypeFormat::FLOAT,
    SubtypeFormat::DOUBLE,
    SubtypeFormat::ULAW,
    SubtypeFormat::ALAW,
    SubtypeFormat::IMA_ADPCM,
    SubtypeFormat::MS_ADPCM,
    SubtypeFormat::GSM610,
    SubtypeFormat::VOX_ADPCM,
    SubtypeFormat::G721_32,
    SubtypeFormat::G723_24,
    SubtypeFormat::G723_40,
    SubtypeFormat::DWVW_12,
    SubtypeFormat::DWVW_16,
    SubtypeFormat::DWVW_24,
    SubtypeFormat::DWVW_N,
    SubtypeFormat::DPCM_8,
    SubtypeFormat::DPCM_16,
    SubtypeFormat::VORBIS,
    SubtypeFormat::ALAC_16,
    SubtypeFormat::ALAC_20,
    SubtypeFormat::ALAC_24,
    SubtypeFormat::ALAC_32,
];

const ALL_ENDIANS: [Endian; 4] = [Endian::File, Endian::Little, Endian::Big, Endian::CPU];

#[test]
fn major_flag_values() {
    assert_eq!(major_format_to_flags(MajorFormat::WAV), 0x010000);
    assert_eq!(major_format_to_flags(MajorFormat::AIFF), 0x020000);
    assert_eq!(major_format_to_flags(MajorFormat::RAW), 0x040000);
    assert_eq!(major_format_to_flags(MajorFormat::IRCAM), 0x0A0000);
    assert_eq!(major_format_to_flags(MajorFormat::FLAC), 0x170000);
    assert_eq!(major_format_to_flags(MajorFormat::OGG), 0x200000);
    assert_eq!(major_format_to_flags(MajorFormat::RF64), 0x220000);
}

#[test]
fn subtype_flag_values() {
    assert_eq!(subtype_format_to_flags(SubtypeFormat::PCM_S8), 0x0001);
    assert_eq!(subtype_format_to_flags(SubtypeFormat::PCM_16), 0x0002);
    assert_eq!(subtype_format_to_flags(SubtypeFormat::PCM_24), 0x0003);
    assert_eq!(subtype_format_to_flags(SubtypeFormat::PCM_U8), 0x0005);
    assert_eq!(subtype_format_to_flags(SubtypeFormat::ULAW), 0x0010);
    assert_eq!(subtype_format_to_flags(SubtypeFormat::GSM610), 0x0020);
    assert_eq!(subtype_format_to_flags(SubtypeFormat::VORBIS), 0x0060);
    assert_eq!(subtype_format_to_flags(SubtypeFormat::ALAC_32), 0x0073);
}

#[test]
fn endian_flag_values() {
    assert_eq!(endian_to_flags(Endian::File), 0x00000000);
    assert_eq!(endian_to_flags(Endian::Little), 0x10000000);
    assert_eq!(endian_to_flags(Endian::Big), 0x20000000);
    assert_eq!(endian_to_flags(Endian::CPU), 0x30000000);
}

#[test]
fn assembly_packs_all_three_fields() {
    assert_eq!(
        assembly_format_flags(MajorFormat::WAV, SubtypeFormat::PCM_24, Endian::File),
        0x010003
    );
    assert_eq!(
        assembly_format_flags(MajorFormat::FLAC, SubtypeFormat::PCM_16, Endian::Big),
        0x20170002
    );
    assert_eq!(
        assembly_format_flags(MajorFormat::OGG, SubtypeFormat::VORBIS, Endian::CPU),
        0x30200060
    );
}

#[test]
fn decode_recognises_each_field() {
    assert_eq!(flags_to_major_format(0x010003), Some(MajorFormat::WAV));
    assert_eq!(flags_to_subtype_format(0x010003), Some(SubtypeFormat::PCM_24));
    assert_eq!(flags_to_endian(0x010003), Some(Endian::File));
    assert_eq!(flags_to_major_format(0x20170002), Some(MajorFormat::FLAC));
    assert_eq!(flags_to_subtype_format(0x20170002), Some(SubtypeFormat::PCM_16));
    assert_eq!(flags_to_endian(0x20170002), Some(Endian::Big));
}

#[test]
fn decode_rejects_unknown_flags() {
    // 0x090000 is a hole in the container flag space.
    assert_eq!(flags_to_major_format(0x090000), None);
    // containers past the recognised catalogue
    assert_eq!(flags_to_major_format(0x230000), None);
    assert_eq!(flags_to_major_format(0x000000), None);
    // encodings in holes of the subtype space
    assert_eq!(flags_to_subtype_format(0x010008), None);
    assert_eq!(flags_to_subtype_format(0x010074), None);
    assert_eq!(flags_to_subtype_format(0x010000), None);
}

#[test]
fn round_trip_all_descriptors() {
    for &m in ALL_MAJORS.iter() {
        for &s in ALL_SUBTYPES.iter() {
            for &e in ALL_ENDIANS.iter() {
                let word = assembly_format_flags(m, s, e);
                assert_eq!(flags_to_major_format(word), Some(m));
                assert_eq!(flags_to_subtype_format(word), Some(s));
                assert_eq!(flags_to_endian(word), Some(e));
            }
        }
    }
}

#[test]
fn default_subtype_values() {
    assert_eq!(default_subtype(MajorFormat::WAV), Some(SubtypeFormat::PCM_16));
    assert_eq!(default_subtype(MajorFormat::RAW), None);
    assert_eq!(default_subtype(MajorFormat::MAT4), Some(SubtypeFormat::DOUBLE));
    assert_eq!(default_subtype(MajorFormat::MAT5), Some(SubtypeFormat::DOUBLE));
    assert_eq!(default_subtype(MajorFormat::XI), Some(SubtypeFormat::DPCM_16));
    assert_eq!(default_subtype(MajorFormat::WVE), Some(SubtypeFormat::ALAW));
    assert_eq!(default_subtype(MajorFormat::OGG), Some(SubtypeFormat::VORBIS));
    assert_eq!(default_subtype(MajorFormat::RF64), Some(SubtypeFormat::PCM_16));
}

fn entry(format: u32, name: &str, extension: &str) -> RawFormatInfo {
    RawFormatInfo {
        format,
        name: name.to_owned(),
        extension: extension.to_owned(),
    }
}

#[test]
fn major_dict_keeps_recognised_entries() {
    let entries = vec![
        entry(0x010002, "WAV (Microsoft)", "wav"),
        entry(0x090000, "Mystery container", "xyz"),
        entry(0x170002, "FLAC Lossless Audio Codec", "flac"),
    ];
    let dict = get_supported_major_format_dict(&entries);
    assert_eq!(dict.len(), 2);
    let wav = major_dict_get(&dict, MajorFormat::WAV).unwrap();
    assert_eq!(wav.name, "WAV (Microsoft)");
    assert_eq!(wav.extension, "wav");
    let flac = major_dict_get(&dict, MajorFormat::FLAC).unwrap();
    assert_eq!(flac.name, "FLAC Lossless Audio Codec");
    assert!(major_dict_get(&dict, MajorFormat::OGG).is_none());
}

#[test]
fn major_dict_keeps_last_duplicate() {
    let entries = vec![
        entry(0x010002, "WAV (Microsoft)", "wav"),
        entry(0x010006, "WAV (Microsoft) again", "wav"),
    ];
    let dict = get_supported_major_format_dict(&entries);
    assert_eq!(dict.len(), 1);
    let wav = major_dict_get(&dict, MajorFormat::WAV).unwrap();
    assert_eq!(wav.name, "WAV (Microsoft) again");
}

#[test]
fn subtype_dict_keeps_recognised_entries() {
    let entries = vec![
        entry(0x0002, "Signed 16 bit PCM", ""),
        entry(0x0074, "Mystery encoding", ""),
        entry(0x0060, "Vorbis", ""),
    ];
    let dict = get_supported_subtype_format_dict(&entries);
    assert_eq!(dict.len(), 2);
    let pcm16 = subtype_dict_get(&dict, SubtypeFormat::PCM_16).unwrap();
    assert_eq!(pcm16.name, "Signed 16 bit PCM");
    assert!(subtype_dict_get(&dict, SubtypeFormat::PCM_24).is_none());
}
