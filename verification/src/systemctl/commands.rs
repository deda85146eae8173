//! Interpretation of what the unit-management command hands back: the exit
//! code classification and the decoding of its captured output. The process
//! invocation itself is outside the library; these functions take its wait
//! status and raw stdout as plain values.

use vstd::prelude::*;
use vstd::string::StringSliceAdditionalSpecFns;
use vstd::string::StrSliceExecFns;

use crate::text::{str_eq, trim_end_index, trim_end_spec, vec_to_string};

verus! {

/// Why a captured invocation's output could not be used. The surrounding
/// process maps these to its I/O error kinds.
#[derive(Copy, Clone, Debug, PartialEq, Eq, Structural)]
pub enum CaptureError {
    /// Exit code 4: missing privileges, or the unit was not found.
    PermissionDenied,
    /// Any other unexpected exit code, carried verbatim.
    UnexpectedCode(i32),
    /// The process was terminated by a signal before exiting.
    Interrupted,
    /// Stdout held bytes that are not valid UTF-8.
    InvalidData,
    /// Stdout was empty.
    UnexpectedEof,
}

/// Exit codes after which the captured output is still meaningful: 0 is
/// success, 1 reports a unit that was not found, 3 a unit that is inactive
/// or dead.
pub open spec fn wait_accepted(code: Option<i32>) -> bool {
    code == Some(0i32) || code == Some(1i32) || code == Some(3i32)
}

/// The whole interpretation of a captured invocation: first the wait status
/// is classified, then the captured bytes must be non-empty valid UTF-8.
pub open spec fn capture_spec(code: Option<i32>, stdout: Seq<u8>) -> Result<
    Seq<char>,
    CaptureError,
> {
    if code is None {
        Err(CaptureError::Interrupted)
    } else if code == Some(4i32) {
        Err(CaptureError::PermissionDenied)
    } else if !wait_accepted(code) {
        Err(CaptureError::UnexpectedCode(code->0))
    } else if stdout.len() == 0 {
        Err(CaptureError::UnexpectedEof)
    } else if !vstd::utf8::valid_utf8(stdout) {
        Err(CaptureError::InvalidData)
    } else {
        Ok(vstd::utf8::decode_utf8(stdout))
    }
}

/// Interprets a captured invocation: the wait status (`None` for a signal
/// death) and the raw stdout bytes, yielding the decoded output or the
/// classification of what went wrong, exactly as `capture_spec` states.
pub fn interpret_capture(code: Option<i32>, stdout: Vec<u8>) -> (r: Result<String, CaptureError>)
    ensures
        r matches Ok(s) ==> capture_spec(code, stdout@) matches Ok(v) && s@ == v,
        r matches Err(e) ==> capture_spec(code, stdout@) == Err::<Seq<char>, CaptureError>(e),
{
    match code {
        None => Err(CaptureError::Interrupted),
        Some(c) => {
            if c == 4 {
                Err(CaptureError::PermissionDenied)
            } else if c != 0 && c != 1 && c != 3 {
                Err(CaptureError::UnexpectedCode(c))
            } else if stdout.len() == 0 {
                Err(CaptureError::UnexpectedEof)
            } else {
                match vec_to_string(stdout) {
                    None => Err(CaptureError::InvalidData),
                    Some(s) => {
                        proof {
                            vstd::utf8::encode_utf8_decode_utf8(s@);
                        }
                        Ok(s)
                    }
                }
            }
        }
    }
}

/// What the activity query's captured output means: the service is active
/// exactly when the output, trailing whitespace aside, is the word
/// `active`. The whitespace trimmed is the ASCII kind (space, tab,
/// carriage return, newline), which is all the tool ever ends its one-word
/// answer with; exotic Unicode whitespace is left in place and makes the
/// answer inactive.
pub open spec fn is_active_spec(s: Seq<char>) -> bool {
    trim_end_spec(s) == "active"@
}

/// Decides `is_active_spec` on the captured output of the activity query.
pub fn interpret_is_active(status: &str) -> (r: bool)
    ensures
        r == is_active_spec(status@),
{
    let e = trim_end_index(status);
    let trimmed = status.substring_char(0, e);
    str_eq(trimmed, "active")
}

} // verus!
