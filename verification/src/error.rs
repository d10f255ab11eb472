//! The error taxonomy, and the translation of engine status codes into it.
//!
//! Every failure an engine entry point can report is surfaced through one
//! closed enumeration, whichever call produced it. The engine's own codes
//! cover the first four members; `InvalidParameter` is this layer's own
//! post-open validation verdict; `InternalError` preserves any engine code
//! outside the documented set together with its message text; `IOError` is a
//! host-stream failure that happened before the engine was ever invoked.

use vstd::prelude::*;

verus! {

pub const SF_ERR_NO_ERROR: i32 = 0;
pub const SF_ERR_UNRECOGNISED_FORMAT: i32 = 1;
pub const SF_ERR_SYSTEM: i32 = 2;
pub const SF_ERR_MALFORMED_FILE: i32 = 3;
pub const SF_ERR_UNSUPPORTED_ENCODING: i32 = 4;

/// Uniform error taxonomy of the layer; each variant carries the
/// human-readable message that came with the failure.
#[derive(Debug)]
pub enum SndFileError {
    UnrecognisedFormat(String),
    SystemError(String),
    MalformedFile(String),
    UnsupportedEncoding(String),
    InvalidParameter(String),
    InternalError(String),
    IOError(String),
}

/// Which taxonomy member a nonzero engine status code lands in, carrying the
/// engine's message for that code.
pub open spec fn spec_err_for_code(err_code: i32, err_msg: String) -> SndFileError {
    if err_code == SF_ERR_UNRECOGNISED_FORMAT {
        SndFileError::UnrecognisedFormat(err_msg)
    } else if err_code == SF_ERR_SYSTEM {
        SndFileError::SystemError(err_msg)
    } else if err_code == SF_ERR_MALFORMED_FILE {
        SndFileError::MalformedFile(err_msg)
    } else if err_code == SF_ERR_UNSUPPORTED_ENCODING {
        SndFileError::UnsupportedEncoding(err_msg)
    } else {
        SndFileError::InternalError(err_msg)
    }
}

/// Translate a nonzero engine status code into the taxonomy. `err_msg` is
/// the engine's message text for that code, fetched by the caller; codes
/// outside the documented set are preserved as `InternalError` with their
/// original message.
pub fn sf_err_code_to_enum(err_code: i32, err_msg: String) -> (r: SndFileError)
    requires
        err_code != SF_ERR_NO_ERROR,
    ensures
        r == spec_err_for_code(err_code, err_msg),
{
    if err_code == SF_ERR_UNRECOGNISED_FORMAT {
        SndFileError::UnrecognisedFormat(err_msg)
    } else if err_code == SF_ERR_SYSTEM {
        SndFileError::SystemError(err_msg)
    } else if err_code == SF_ERR_MALFORMED_FILE {
        SndFileError::MalformedFile(err_msg)
    } else if err_code == SF_ERR_UNSUPPORTED_ENCODING {
        SndFileError::UnsupportedEncoding(err_msg)
    } else {
        SndFileError::InternalError(err_msg)
    }
}

} // verus!
