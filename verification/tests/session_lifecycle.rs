use sndfile::session::{interpret_seek_result, interpret_transfer_result};
use sndfile::{Endian, MajorFormat, SeekFrom, SfInfo, SndFile, SndFileError, SubtypeFormat};
use sndfile::vio::vio_seek_target;

fn good_info() -> SfInfo {
    SfInfo {
        frames: 69632,
        samplerate: 8000,
        channels: 2,
        format: 0x010003,
        sections: 1,
        seekable: 1,
    }
}

#[test]
fn open_info_accepted() {
    let snd = SndFile::from_open_info(&good_info()).unwrap();
    assert!(snd.is_seekable());
    assert_eq!(snd.get_samplerate(), 8000);
    assert_eq!(snd.get_channels(), 2);
    assert_eq!(snd.get_major_format(), MajorFormat::WAV);
    assert_eq!(snd.get_subtype_format(), SubtypeFormat::PCM_24);
    assert_eq!(snd.get_endian(), Endian::File);
}

#[test]
fn open_info_rejects_negative_frames() {
    let info = SfInfo { frames: -1, ..good_info() };
    match SndFile::from_open_info(&info) {
        Err(SndFileError::InvalidParameter(msg)) => {
            assert_eq!(msg, "Got invalid frame count, expect a non-negative number.");
        }
        other => panic!("expected InvalidParameter, got {:?}", other),
    }
}

#[test]
fn open_info_rejects_zero_samplerate() {
    let info = SfInfo { samplerate: 0, ..good_info() };
    match SndFile::from_open_info(&info) {
        Err(SndFileError::InvalidParameter(msg)) => {
            assert_eq!(msg, "Got invalid samplerate, expect a positive number.");
        }
        other => panic!("expected InvalidParameter, got {:?}", other),
    }
}

#[test]
fn open_info_rejects_zero_channels() {
    let info = SfInfo { channels: 0, ..good_info() };
    match SndFile::from_open_info(&info) {
        Err(SndFileError::InvalidParameter(msg)) => {
            assert_eq!(msg, "Got invalid channels, expect a positive number.");
        }
        other => panic!("expected InvalidParameter, got {:?}", other),
    }
}

#[test]
fn open_info_rejects_undecodable_format() {
    // a container flag in a hole of the catalogue
    let info = SfInfo { format: 0x090002, ..good_info() };
    match SndFile::from_open_info(&info) {
        Err(SndFileError::InvalidParameter(msg)) => {
            assert_eq!(msg, "Got invalid format flags.");
        }
        other => panic!("expected InvalidParameter, got {:?}", other),
    }
    // an encoding flag in a hole of the catalogue
    let info = SfInfo { format: 0x010008, ..good_info() };
    assert!(SndFile::from_open_info(&info).is_err());
}

#[test]
fn open_info_unseekable_stream() {
    let info = SfInfo { seekable: 0, ..good_info() };
    let snd = SndFile::from_open_info(&info).unwrap();
    assert!(!snd.is_seekable());
}

#[test]
fn seek_request_mapping() {
    let snd = SndFile::from_open_info(&good_info()).unwrap();
    assert_eq!(snd.seek_request(SeekFrom::Start(17)), Ok((17, 0)));
    assert_eq!(snd.seek_request(SeekFrom::Current(-3)), Ok((-3, 1)));
    assert_eq!(snd.seek_request(SeekFrom::End(0)), Ok((0, 2)));
}

#[test]
fn seek_request_fails_when_unseekable() {
    let info = SfInfo { seekable: 0, ..good_info() };
    let snd = SndFile::from_open_info(&info).unwrap();
    assert_eq!(snd.seek_request(SeekFrom::Start(0)), Err(()));
    assert_eq!(snd.seek_request(SeekFrom::End(0)), Err(()));
}

#[test]
fn seek_result_interpretation() {
    assert_eq!(interpret_seek_result(0), Ok(0));
    assert_eq!(interpret_seek_result(69632), Ok(69632));
    assert_eq!(interpret_seek_result(-1), Err(()));
}

#[test]
fn transfer_result_interpretation() {
    assert_eq!(interpret_transfer_result(0), Ok(0));
    assert_eq!(interpret_transfer_result(17), Ok(17));
    assert_eq!(interpret_transfer_result(-1), Err(()));
}

#[test]
fn frame_accounting() {
    let snd = SndFile::from_open_info(&good_info()).unwrap();
    // a 34-sample interleaved buffer holds 17 two-channel frames
    assert_eq!(snd.request_frames(34), 17);
    assert_eq!(snd.request_frames(0), 0);
    // reading the whole file stages frames * channels samples
    assert_eq!(snd.read_all_buffer_len(69632), 139264);
}

#[test]
fn write_then_read_scenario() {
    // 4096 repetitions of a 34-sample buffer, 2 channels, WAV / 24 bit PCM:
    // every repetition writes 17 frames, so the reopened file reports
    // 4096 * 17 frames and reads the same 17 frames per buffer.
    let write_info = SfInfo {
        frames: 0,
        samplerate: 8000,
        channels: 2,
        format: 0x010003,
        sections: 0,
        seekable: 1,
    };
    let writer = SndFile::from_open_info(&write_info).unwrap();
    assert_eq!(writer.request_frames(34), 17);

    let read_info = SfInfo { frames: 4096 * 17, ..write_info };
    let reader = SndFile::from_open_info(&read_info).unwrap();
    assert!(reader.is_seekable());
    assert_eq!(reader.get_major_format(), MajorFormat::WAV);
    assert_eq!(reader.get_subtype_format(), SubtypeFormat::PCM_24);
    assert_eq!(reader.seek_request(SeekFrom::End(0)), Ok((0, 2)));
    assert_eq!(interpret_seek_result(4096 * 17), Ok(4096 * 17));
    assert_eq!(reader.seek_request(SeekFrom::Start(0)), Ok((0, 0)));
    assert_eq!(reader.request_frames(34), 17);
    assert_eq!(reader.read_all_buffer_len(4096 * 17), 4096 * 34);
}

#[test]
fn vio_seek_target_mapping() {
    assert_eq!(vio_seek_target(10, 0), Some(SeekFrom::Start(10)));
    assert_eq!(vio_seek_target(-4, 1), Some(SeekFrom::Current(-4)));
    assert_eq!(vio_seek_target(-4, 2), Some(SeekFrom::End(-4)));
    assert_eq!(vio_seek_target(-1, 0), None);
    assert_eq!(vio_seek_target(0, 3), None);
    assert_eq!(vio_seek_target(0, -1), None);
}
