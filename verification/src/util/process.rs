//! What a finished child process left behind, and what to make of it.

use crate::error::{
    result_view, Cause, CauseView, CodeMsgError, Error, ErrorKind, ErrorView, MsgError,
};
use std::path::PathBuf;
use vstd::prelude::*;
use vstd::utf8::{decode_utf8, valid_utf8};

verus! {

/// `std::path::PathBuf`, carried through as it is: nothing is known of
/// what a path holds.
#[verifier::external_type_specification]
#[verifier::external_body]
pub struct ExPathBuf(PathBuf);

/// One run of a program: its executable, its arguments, and what to feed
/// to its standard input.
#[derive(Debug, PartialEq, Eq)]
pub struct Invocation<'a> {
    pub program: &'a PathBuf,
    pub args: Vec<String>,
    pub stdin: Option<String>,
}

/// An [`Invocation`] with its strings as sequences of characters.
pub struct InvocationView {
    pub program: PathBuf,
    pub args: Seq<Seq<char>>,
    pub stdin: Option<Seq<char>>,
}

impl<'a> View for Invocation<'a> {
    type V = InvocationView;

    open spec fn view(&self) -> InvocationView {
        InvocationView {
            program: *self.program,
            args: self.args.deep_view(),
            stdin: self.stdin.deep_view(),
        }
    }
}

/// How a child process ended: its exit code, `None` where a signal ended
/// it, and the bytes it wrote to its standard and error outputs.
#[derive(Debug, PartialEq, Eq)]
pub struct Output {
    pub code: Option<i32>,
    pub stdout: Vec<u8>,
    pub stderr: Vec<u8>,
}

/// An [`Output`] with its byte vectors as sequences.
pub struct OutputView {
    pub code: Option<i32>,
    pub stdout: Seq<u8>,
    pub stderr: Seq<u8>,
}

impl View for Output {
    type V = OutputView;

    open spec fn view(&self) -> OutputView {
        OutputView { code: self.code, stdout: self.stdout@, stderr: self.stderr@ }
    }
}

impl OutputView {
    /// A process succeeded when it exited with code 0.
    pub open spec fn success(self) -> bool {
        self.code == Some(0i32)
    }
}

/// The standard output of a finished process as text. A process that
/// succeeded gives its standard output, which must be UTF-8. One that failed
/// gives `ChildOutput` with its exit code and its error output as text,
/// which must be UTF-8 as well.
pub open spec fn stdout_text(output: OutputView) -> Result<Seq<char>, ErrorView> {
    if output.success() {
        if valid_utf8(output.stdout) {
            Ok(decode_utf8(output.stdout))
        } else {
            Err(ErrorView { kind: ErrorKind::StdoutUtf8Conversion, cause: CauseView::Absent })
        }
    } else if valid_utf8(output.stderr) {
        Err(
            ErrorView {
                kind: ErrorKind::ChildOutput,
                cause: CauseView::CodeMsg { code: output.code, msg: decode_utf8(output.stderr) },
            },
        )
    } else {
        Err(ErrorView { kind: ErrorKind::StderrUtf8Conversion, cause: CauseView::Absent })
    }
}

/// `String::from_utf8` turns bytes that are valid UTF-8 into the string that
/// they encode, and fails on all other bytes.
#[verifier::external_body]
fn string_from_utf8(bytes: Vec<u8>) -> (r: Option<String>)
    ensures
        r is Some <==> valid_utf8(bytes@),
        r matches Some(s) ==> s@ == decode_utf8(bytes@),
{
    String::from_utf8(bytes).ok()
}

impl Output {
    /// Whether the process exited with code 0.
    pub fn success(&self) -> (r: bool)
        ensures
            r == self@.success(),
    {
        match self.code {
            Some(code) => code == 0,
            None => false,
        }
    }
}

/// The standard output of a finished process as text, or why there is none.
pub fn extract_output_stdout_str(output: Output) -> (r: Result<String, Error>)
    ensures
        result_view(r) == stdout_text(output@),
{
    if output.success() {
        match string_from_utf8(output.stdout) {
            Some(text) => Ok(text),
            None => Err(Error::from_kind(ErrorKind::StdoutUtf8Conversion)),
        }
    } else {
        let code = output.code;
        match string_from_utf8(output.stderr) {
            Some(msg) => Err(
                Error::new(ErrorKind::ChildOutput, Cause::CodeMsg(CodeMsgError::new(code, msg))),
            ),
            None => Err(Error::from_kind(ErrorKind::StderrUtf8Conversion)),
        }
    }
}

/// The error for a child process that has no standard output to read.
/// `stderr` is `None` where it has no error output either, `Some(Err(..))`
/// where reading the error output failed, and else what was read from it.
pub open spec fn missing_stdout(stderr: Option<Result<Seq<char>, Seq<char>>>) -> ErrorView {
    match stderr {
        None => ErrorView { kind: ErrorKind::StderrEmpty, cause: CauseView::Absent },
        Some(Err(why)) => ErrorView {
            kind: ErrorKind::StderrRead,
            cause: CauseView::Msg { msg: why },
        },
        Some(Ok(msg)) => ErrorView {
            kind: ErrorKind::StderrValidMsg,
            cause: CauseView::Msg { msg },
        },
    }
}

/// The error for a child process that has no standard output to read.
pub fn missing_stdout_error(stderr: Option<Result<String, String>>) -> (r: Error)
    ensures
        r@ == missing_stdout(
            match stderr {
                None => None,
                Some(Ok(msg)) => Some(Ok(msg@)),
                Some(Err(why)) => Some(Err(why@)),
            },
        ),
{
    match stderr {
        None => Error::from_kind(ErrorKind::StderrEmpty),
        Some(Err(why)) => Error::new(ErrorKind::StderrRead, Cause::Msg(MsgError::new(why))),
        Some(Ok(msg)) => Error::new(ErrorKind::StderrValidMsg, Cause::Msg(MsgError::new(msg))),
    }
}

} // verus!
