//! What can go wrong: the kind of a failure and the data that caused it.
//!
//! An [`Error`] is a kind with at most one cause. Contracts compare errors
//! by their views, in which every string is a sequence of characters.

use vstd::prelude::*;

verus! {

/// Where an operation failed.
#[derive(Copy, Clone, Eq, PartialEq, Debug, Structural)]
pub enum ErrorKind {
    /// A child process ended with a status other than success.
    ChildOutput,
    /// The default logger could not be set up.
    DefaultLoggerInit,
    /// A listing line has an empty mode field.
    DirFlagEmpty,
    /// The directories above a destination could not be created.
    DirsCreate,
    /// The password could not be piped to the credential process.
    EchoPwPipe,
    /// A file could not be read.
    FileIo,
    /// The first record sent to the log aggregator was not accepted.
    FluentInitCheck,
    /// A record could not be posted to the log aggregator.
    FluentPostTaggedRecord,
    /// The copy-to-local command could not be run.
    HdfsCopyToLocal,
    /// The space-usage command could not be run.
    HdfsDfCmd,
    /// The listing command could not be run.
    HdfsDfsLs,
    /// A non-blank listing line does not have the eight fields of an entry.
    HdfsDfsLsLine,
    /// The client's executable was not found.
    HdfsNotAvailable,
    /// A file pattern is no valid regular expression.
    HdfsRegexMatch,
    /// Authentication with a keytab failed.
    KinitKeytab,
    /// The credential executable was not found.
    KinitNotAvailable,
    /// Authentication with a password failed.
    KinitPw,
    /// The lock file could not be opened.
    LockFileOpen,
    /// The lock file is held by another process.
    LockFileExclusiveLock,
    /// The date and time of a listing line are no timestamp.
    NaiveDateTimeParse,
    /// The available space of a usage report is no number, or the capacity
    /// does not fit in 64 bits.
    ParseHdfsDfSizeValue,
    /// The used space of a usage report is no number.
    ParseHdfsDfUsedValue,
    /// The size of a listing line is no number.
    RegexCapFileSizeParse,
    /// The mode of a listing line is no permission string.
    RegexCapPerm,
    /// The data line of a usage report does not have the expected columns.
    RegexHdfsDfValuesCap,
    /// A usage report does not start with the expected header.
    RegexInitialHdfsDfCap,
    /// The specialised logger could not be set up.
    SpecializedLoggerInit,
    /// The error output of a child process is not UTF-8.
    StderrUtf8Conversion,
    /// A child process has neither standard output nor error output.
    StderrEmpty,
    /// The error output of a child process could not be read.
    StderrRead,
    /// A child process has no standard output; its error output is the cause.
    StderrValidMsg,
    /// The standard output of a child process is not UTF-8.
    StdoutUtf8Conversion,
    /// The root could not be stripped from a path.
    StripRootPath,
    /// The configuration file is no valid TOML.
    TomlConfigParse,
}

/// Why a piece of text is not the value it should be.
#[derive(Copy, Clone, Eq, PartialEq, Debug, Structural)]
pub enum ValueFault {
    /// The text is empty.
    Empty,
    /// A character is not a decimal digit.
    InvalidDigit,
    /// The number does not fit in its type.
    Overflow,
    /// The text does not have the shape of the value.
    Malformed,
    /// A field of the value is outside its range.
    OutOfRange,
}

/// A child process ended unsuccessfully: its exit code, if it has one, and
/// what it wrote to its error output.
#[derive(Debug, PartialEq, Eq)]
pub struct CodeMsgError {
    pub code: Option<i32>,
    pub msg: String,
}

impl CodeMsgError {
    pub fn new(code: Option<i32>, msg: String) -> (r: CodeMsgError)
        ensures
            r.code == code,
            r.msg@ == msg@,
    {
        CodeMsgError { code, msg }
    }
}

/// A failure of which only a message is known.
#[derive(Debug, PartialEq, Eq)]
pub struct MsgError {
    pub msg: String,
}

impl MsgError {
    pub fn new(msg: String) -> (r: MsgError)
        ensures
            r.msg@ == msg@,
    {
        MsgError { msg }
    }
}

/// A failure of the local filesystem at `path`; `inner` is its message.
#[derive(Debug, PartialEq, Eq)]
pub struct PathError {
    pub path: String,
    pub inner: String,
}

impl PathError {
    pub fn new(path: String, inner: String) -> (r: PathError)
        ensures
            r.path@ == path@,
            r.inner@ == inner@,
    {
        PathError { path, inner }
    }
}

/// The text `target` does not match `pattern`.
#[derive(Debug, PartialEq, Eq)]
pub struct RegexCaptureError {
    pub pattern: String,
    pub target: String,
}

impl RegexCaptureError {
    pub fn new(pattern: &str, target: String) -> (r: RegexCaptureError)
        ensures
            r.pattern@ == pattern@,
            r.target@ == target@,
    {
        RegexCaptureError { pattern: pattern.to_owned(), target }
    }
}

/// The text `target` could not be converted; `inner` says why.
#[derive(Debug, PartialEq, Eq)]
pub struct TargetStringError {
    pub target: String,
    pub inner: ValueFault,
}

impl TargetStringError {
    pub fn new(target: String, inner: ValueFault) -> (r: TargetStringError)
        ensures
            r.target@ == target@,
            r.inner == inner,
    {
        TargetStringError { target, inner }
    }
}

/// The pattern `target` is no valid regular expression; `inner` is what the
/// regex compiler said of it.
#[derive(Debug, PartialEq, Eq)]
pub struct RegexError {
    pub target: String,
    pub inner: String,
}

impl RegexError {
    pub fn new(target: String, inner: String) -> (r: RegexError)
        ensures
            r.target@ == target@,
            r.inner@ == inner@,
    {
        RegexError { target, inner }
    }
}

/// The text `perm` is no permission string.
#[derive(Debug, PartialEq, Eq)]
pub struct PermError {
    pub perm: String,
}

impl PermError {
    pub fn new(perm: String) -> (r: PermError)
        ensures
            r.perm@ == perm@,
    {
        PermError { perm }
    }
}

/// What caused an error.
#[derive(Debug, PartialEq, Eq)]
pub enum Cause {
    Absent,
    CodeMsg(CodeMsgError),
    Msg(MsgError),
    Path(PathError),
    RegexCapture(RegexCaptureError),
    TargetString(TargetStringError),
    Regex(RegexError),
    Perm(PermError),
}

/// A [`Cause`] with its strings as sequences of characters.
pub enum CauseView {
    Absent,
    CodeMsg { code: Option<i32>, msg: Seq<char> },
    Msg { msg: Seq<char> },
    Path { path: Seq<char>, inner: Seq<char> },
    RegexCapture { pattern: Seq<char>, target: Seq<char> },
    TargetString { target: Seq<char>, fault: ValueFault },
    Regex { target: Seq<char>, inner: Seq<char> },
    Perm { perm: Seq<char> },
}

impl View for Cause {
    type V = CauseView;

    open spec fn view(&self) -> CauseView {
        match *self {
            Cause::Absent => CauseView::Absent,
            Cause::CodeMsg(e) => CauseView::CodeMsg { code: e.code, msg: e.msg@ },
            Cause::Msg(e) => CauseView::Msg { msg: e.msg@ },
            Cause::Path(e) => CauseView::Path { path: e.path@, inner: e.inner@ },
            Cause::RegexCapture(e) => CauseView::RegexCapture {
                pattern: e.pattern@,
                target: e.target@,
            },
            Cause::TargetString(e) => CauseView::TargetString { target: e.target@, fault: e.inner },
            Cause::Regex(e) => CauseView::Regex { target: e.target@, inner: e.inner@ },
            Cause::Perm(e) => CauseView::Perm { perm: e.perm@ },
        }
    }
}

/// A failure: its kind and its cause.
#[derive(Debug, PartialEq, Eq)]
pub struct Error {
    pub kind: ErrorKind,
    pub cause: Cause,
}

/// An [`Error`] with its strings as sequences of characters.
pub struct ErrorView {
    pub kind: ErrorKind,
    pub cause: CauseView,
}

impl View for Error {
    type V = ErrorView;

    open spec fn view(&self) -> ErrorView {
        ErrorView { kind: self.kind, cause: self.cause@ }
    }
}

impl Error {
    /// An error of the given kind without a cause.
    pub fn from_kind(kind: ErrorKind) -> (r: Error)
        ensures
            r@ == (ErrorView { kind, cause: CauseView::Absent }),
    {
        Error { kind, cause: Cause::Absent }
    }

    /// An error of the given kind with the given cause.
    pub fn new(kind: ErrorKind, cause: Cause) -> (r: Error)
        ensures
            r@ == (ErrorView { kind, cause: cause@ }),
    {
        Error { kind, cause }
    }

    /// The kind of the failure.
    pub fn kind(&self) -> (r: ErrorKind)
        ensures
            r == self.kind,
    {
        self.kind
    }

    /// The cause of the failure.
    pub fn cause(&self) -> (r: &Cause)
        ensures
            *r == self.cause,
    {
        &self.cause
    }
}

/// The view of a result whose two sides have views.
pub open spec fn result_view<T: View, E: View>(r: Result<T, E>) -> Result<T::V, E::V> {
    match r {
        Ok(v) => Ok(v@),
        Err(e) => Err(e@),
    }
}

} // verus!
