//! The tag metadata accessor's verified half: the closed catalogue of tag
//! kinds, their 1:1 mapping to the engine's string-tag identifiers, and the
//! interpretation of what the engine hands back.

use vstd::prelude::*;
use crate::error::{spec_err_for_code, sf_err_code_to_enum, SndFileError};

verus! {

pub const SF_STR_TITLE: u32 = 0x01;
pub const SF_STR_COPYRIGHT: u32 = 0x02;
pub const SF_STR_SOFTWARE: u32 = 0x03;
pub const SF_STR_ARTIST: u32 = 0x04;
pub const SF_STR_COMMENT: u32 = 0x05;
pub const SF_STR_DATE: u32 = 0x06;
pub const SF_STR_ALBUM: u32 = 0x07;
pub const SF_STR_LICENSE: u32 = 0x08;
pub const SF_STR_TRACKNUMBER: u32 = 0x09;
pub const SF_STR_GENRE: u32 = 0x10;

/// Type of tags.
#[derive(Debug, PartialEq, Eq, Clone, Copy, Structural)]
pub enum TagType {
    Title,
    Copyright,
    Software,
    Artist,
    Comment,
    Date,
    Album,
    License,
    Tracknumber,
    Genre,
}

pub open spec fn spec_tag_type_to_flags(t: TagType) -> u32 {
    match t {
        TagType::Title => SF_STR_TITLE,
        TagType::Copyright => SF_STR_COPYRIGHT,
        TagType::Software => SF_STR_SOFTWARE,
        TagType::Artist => SF_STR_ARTIST,
        TagType::Comment => SF_STR_COMMENT,
        TagType::Date => SF_STR_DATE,
        TagType::Album => SF_STR_ALBUM,
        TagType::License => SF_STR_LICENSE,
        TagType::Tracknumber => SF_STR_TRACKNUMBER,
        TagType::Genre => SF_STR_GENRE,
    }
}

/// The engine's string-tag identifier for a tag kind.
pub fn tag_type_to_flags(t: TagType) -> (r: u32)
    ensures
        r == spec_tag_type_to_flags(t),
{
    match t {
        TagType::Title => SF_STR_TITLE,
        TagType::Copyright => SF_STR_COPYRIGHT,
        TagType::Software => SF_STR_SOFTWARE,
        TagType::Artist => SF_STR_ARTIST,
        TagType::Comment => SF_STR_COMMENT,
        TagType::Date => SF_STR_DATE,
        TagType::Album => SF_STR_ALBUM,
        TagType::License => SF_STR_LICENSE,
        TagType::Tracknumber => SF_STR_TRACKNUMBER,
        TagType::Genre => SF_STR_GENRE,
    }
}

/// Interpret the engine's reply to a string-tag query. A missing string and
/// an empty string both mean "tag not present" and surface as absent, never
/// as an empty value; a non-empty string is the tag's value, unchanged.
pub fn interpret_tag_string(raw: Option<String>) -> (r: Option<String>)
    ensures
        r is Some <==> (raw matches Some(s) && s@.len() > 0),
        raw matches Some(s) ==> (s@.len() > 0 ==> r == Some(s)),
{
    match raw {
        None => None,
        Some(s) => {
            if s.as_str().is_empty() {
                None
            } else {
                Some(s)
            }
        },
    }
}

/// Interpret the engine's status code for a tag-set request: zero is
/// success, any other code translates through the error taxonomy with the
/// engine's message for it.
pub fn interpret_set_tag_result(ret_code: i32, err_msg: String) -> (r: Result<(), SndFileError>)
    ensures
        ret_code == 0 ==> r is Ok,
        ret_code != 0 ==> r == Result::<(), SndFileError>::Err(
            spec_err_for_code(ret_code, err_msg),
        ),
{
    if ret_code == 0 {
        Ok(())
    } else {
        Err(sf_err_code_to_enum(ret_code, err_msg))
    }
}

} // verus!
