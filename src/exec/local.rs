use vstd::prelude::*;

use vstd::utf8::{decode_utf8, valid_utf8};

use crate::exec::{CmdError, CmdResult, ExitCode, exit_code_of};

verus! {

/// Relies on `std::str::from_utf8`: it succeeds exactly on valid UTF-8, and then yields the
/// characters that the bytes encode. The error is passed on as its message.
#[verifier::external_body]
fn utf8_text(bytes: &[u8]) -> (r: Result<String, String>)
    ensures
        r is Ok <==> valid_utf8(bytes@),
        r matches Ok(s) ==> s@ == decode_utf8(bytes@),
{
    match std::str::from_utf8(bytes) {
        Ok(s) => Ok(s.to_owned()),
        Err(e) => Err(e.to_string()),
    }
}

/// The text that captured bytes hold, when they are valid UTF-8.
pub open spec fn decoded(bytes: Seq<u8>) -> Option<Seq<char>> {
    if valid_utf8(bytes) {
        Some(decode_utf8(bytes))
    } else {
        None
    }
}

/// Decodes captured output as text; bytes that are not UTF-8 give a decoding error.
pub fn decode_text(bytes: &[u8]) -> (r: CmdResult<String>)
    ensures
        match decoded(bytes@) {
            Some(t) => r matches Ok(s) && s@ == t,
            None => r matches Err(CmdError::Utf8Error(_)),
        },
{
    match utf8_text(bytes) {
        Ok(s) => Ok(s),
        Err(msg) => Err(CmdError::Utf8Error(msg)),
    }
}

/// The status of a finished process: none if it was ended without one (by a signal).
pub open spec fn status_result(code: Option<i32>) -> CmdResult<ExitCode> {
    match code {
        Some(rc) => Ok(exit_code_of(rc)),
        None => Err(CmdError::NoExitCode),
    }
}

/// What running a process for its status alone reports, given the code it ended with.
pub fn run_outcome(code: Option<i32>) -> (r: CmdResult<ExitCode>)
    ensures
        r == status_result(code),
{
    match code {
        Some(rc) => Ok(ExitCode::from_rc(rc)),
        None => Err(CmdError::NoExitCode),
    }
}

/// What running a process with captured output reports: both streams must be text, the standard
/// output is returned, and the status is normalised as for `run_outcome`.
pub open spec fn execute_result_ok(
    stdout: Seq<u8>,
    stderr: Seq<u8>,
    code: Option<i32>,
    r: CmdResult<(ExitCode, String)>,
) -> bool {
    if decoded(stdout) is None || decoded(stderr) is None {
        r matches Err(CmdError::Utf8Error(_))
    } else {
        match code {
            None => r == Err::<(ExitCode, String), CmdError>(CmdError::NoExitCode),
            Some(rc) => r matches Ok((ec, out)) && ec == exit_code_of(rc) && Some(out@) == decoded(
                stdout,
            ),
        }
    }
}

/// Interprets what a finished process left: its captured standard output and error and its
/// exit code.
pub fn execute_outcome(stdout: &[u8], stderr: &[u8], code: Option<i32>) -> (r: CmdResult<
    (ExitCode, String),
>)
    ensures
        execute_result_ok(stdout@, stderr@, code, r),
{
    let out = match decode_text(stdout) {
        Ok(s) => s,
        Err(e) => return Err(e),
    };
    match decode_text(stderr) {
        Ok(_) => {},
        Err(e) => return Err(e),
    }
    match run_outcome(code) {
        Ok(ec) => Ok((ec, out)),
        Err(e) => Err(e),
    }
}

/// The diagnostic to print for captured standard error: `Error:` and the text on the next
/// line, only when there is some.
pub fn stderr_diagnostic(err_text: &str) -> (r: Option<String>)
    ensures
        err_text@.len() == 0 ==> r is None,
        err_text@.len() > 0 ==> (r matches Some(d) && d@ == "Error:\n"@ + err_text@),
{
    if err_text.unicode_len() == 0 {
        None
    } else {
        let mut d = String::from_str("Error:\n");
        d.append(err_text);
        Some(d)
    }
}

} // verus!
