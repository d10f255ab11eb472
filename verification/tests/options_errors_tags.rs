use sndfile::error::sf_err_code_to_enum;
use sndfile::options::HostOpenFlags;
use sndfile::tags::{interpret_set_tag_result, interpret_tag_string, tag_type_to_flags};
use sndfile::{
    Endian, MajorFormat, OpenOptions, ReadOptions, SfInfo, SndFileError, SubtypeFormat, TagType,
    WriteOptions,
};

fn wav24_stereo() -> WriteOptions {
    WriteOptions::new(MajorFormat::WAV, SubtypeFormat::PCM_24, Endian::File, 8000, 2)
}

#[test]
fn write_options_carry_their_fields() {
    let w = wav24_stereo();
    assert_eq!(w.major_format, MajorFormat::WAV);
    assert_eq!(w.subtype_format, SubtypeFormat::PCM_24);
    assert_eq!(w.endian, Endian::File);
    assert_eq!(w.samplerate, 8000);
    assert_eq!(w.channels, 2);
}

#[test]
fn validate_keeps_or_drops_by_engine_verdict() {
    let w = wav24_stereo();
    assert_eq!(w.validate(true), Some(w));
    assert_eq!(w.validate(false), None);
}

#[test]
fn check_info_block() {
    let info = wav24_stereo().check_info();
    assert_eq!(
        info,
        SfInfo {
            frames: 0,
            samplerate: 8000,
            channels: 2,
            format: 0x010003,
            sections: 0,
            seekable: 0,
        }
    );
}

#[test]
fn open_mode_flags() {
    let r = OpenOptions::ReadOnly(ReadOptions::Auto);
    let w = OpenOptions::WriteOnly(wav24_stereo());
    let rw = OpenOptions::ReadWrite(ReadOptions::Auto);
    let wr = OpenOptions::WriteRead(wav24_stereo());
    assert_eq!(r.open_mode_flag(), 0x10);
    assert_eq!(w.open_mode_flag(), 0x20);
    assert_eq!(rw.open_mode_flag(), 0x30);
    assert_eq!(wr.open_mode_flag(), 0x30);
}

#[test]
fn initial_info_auto_is_zeroed() {
    let info = OpenOptions::ReadOnly(ReadOptions::Auto).initial_info();
    assert_eq!(
        info,
        SfInfo { frames: 0, samplerate: 0, channels: 0, format: 0, sections: 0, seekable: 0 }
    );
}

#[test]
fn initial_info_raw_declares_stream_shape() {
    let info = OpenOptions::ReadWrite(ReadOptions::Raw(44100, 1)).initial_info();
    assert_eq!(
        info,
        SfInfo {
            frames: 0,
            samplerate: 44100,
            channels: 1,
            format: 0x040000,
            sections: 0,
            seekable: 0,
        }
    );
}

#[test]
fn initial_info_write_packs_descriptor() {
    let info = OpenOptions::WriteOnly(wav24_stereo()).initial_info();
    assert_eq!(
        info,
        SfInfo {
            frames: 0,
            samplerate: 8000,
            channels: 2,
            format: 0x010003,
            sections: 0,
            seekable: 0,
        }
    );
}

#[test]
fn host_open_flags_per_mode() {
    let r = OpenOptions::ReadOnly(ReadOptions::Auto).host_open_flags();
    assert_eq!(r, HostOpenFlags { read: true, write: false, create: false, truncate: false });
    let w = OpenOptions::WriteOnly(wav24_stereo()).host_open_flags();
    assert_eq!(w, HostOpenFlags { read: false, write: true, create: true, truncate: true });
    let rw = OpenOptions::ReadWrite(ReadOptions::Auto).host_open_flags();
    assert_eq!(rw, HostOpenFlags { read: true, write: true, create: false, truncate: false });
    let wr = OpenOptions::WriteRead(wav24_stereo()).host_open_flags();
    assert_eq!(wr, HostOpenFlags { read: true, write: true, create: true, truncate: false });
}

#[test]
fn error_codes_map_to_taxonomy() {
    assert!(matches!(
        sf_err_code_to_enum(1, "unrecognised".to_owned()),
        SndFileError::UnrecognisedFormat(m) if m == "unrecognised"
    ));
    assert!(matches!(
        sf_err_code_to_enum(2, "system".to_owned()),
        SndFileError::SystemError(m) if m == "system"
    ));
    assert!(matches!(
        sf_err_code_to_enum(3, "malformed".to_owned()),
        SndFileError::MalformedFile(m) if m == "malformed"
    ));
    assert!(matches!(
        sf_err_code_to_enum(4, "unsupported".to_owned()),
        SndFileError::UnsupportedEncoding(m) if m == "unsupported"
    ));
    assert!(matches!(
        sf_err_code_to_enum(23, "odd".to_owned()),
        SndFileError::InternalError(m) if m == "odd"
    ));
}

#[test]
fn tag_identifiers() {
    assert_eq!(tag_type_to_flags(TagType::Title), 0x01);
    assert_eq!(tag_type_to_flags(TagType::Copyright), 0x02);
    assert_eq!(tag_type_to_flags(TagType::Software), 0x03);
    assert_eq!(tag_type_to_flags(TagType::Artist), 0x04);
    assert_eq!(tag_type_to_flags(TagType::Comment), 0x05);
    assert_eq!(tag_type_to_flags(TagType::Date), 0x06);
    assert_eq!(tag_type_to_flags(TagType::Album), 0x07);
    assert_eq!(tag_type_to_flags(TagType::License), 0x08);
    assert_eq!(tag_type_to_flags(TagType::Tracknumber), 0x09);
    assert_eq!(tag_type_to_flags(TagType::Genre), 0x10);
}

#[test]
fn absent_tags_stay_absent() {
    // a tag the engine does not have, and one it reports empty, are both absent
    assert_eq!(interpret_tag_string(None), None);
    assert_eq!(interpret_tag_string(Some(String::new())), None);
    // a present tag comes through unchanged
    assert_eq!(
        interpret_tag_string(Some("some_title".to_owned())),
        Some("some_title".to_owned())
    );
}

#[test]
fn set_tag_result_interpretation() {
    assert!(interpret_set_tag_result(0, String::new()).is_ok());
    assert!(matches!(
        interpret_set_tag_result(4, "unsupported".to_owned()),
        Err(SndFileError::UnsupportedEncoding(m)) if m == "unsupported"
    ));
    assert!(matches!(
        interpret_set_tag_result(7, "whatever".to_owned()),
        Err(SndFileError::InternalError(_))
    ));
}
