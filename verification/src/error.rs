//! The failures a run can end with, and the line that reports them.

use vstd::prelude::*;
use vstd::string::*;

verus! {

/// Why a native file operation failed.
#[derive(Clone, Copy, Debug, PartialEq, Eq, Structural)]
pub enum IoCause {
    /// No file exists at the path.
    NotFound,
    /// The host may not touch the path.
    PermissionDenied,
    /// The path cannot name a file.
    InvalidPath,
    /// The file does not hold valid text.
    InvalidEncoding,
    /// Any other failure of the underlying storage.
    Other,
}

/// The class of a failure.
#[derive(Clone, Copy, Debug, PartialEq, Eq, Structural)]
pub enum ErrorKind {
    /// A native operation failed; the cause is carried along.
    Io(IoCause),
    /// The entry module or one of its dependencies cannot be resolved or read.
    ModuleResolution,
    /// A script threw, rejected, or does not compile.
    Script,
    /// The engine instance cannot be set up as asked.
    Configuration,
}

/// A failure: its class and the description of what went wrong.
#[derive(Debug, PartialEq, Eq)]
pub struct RunError {
    pub kind: ErrorKind,
    pub message: String,
}

/// The mathematical value of a [`RunError`].
pub struct RunErrorView {
    pub kind: ErrorKind,
    pub message: Seq<char>,
}

impl View for RunError {
    type V = RunErrorView;

    open spec fn view(&self) -> RunErrorView {
        RunErrorView { kind: self.kind, message: self.message@ }
    }
}

/// The line that reports a failure: the word `error`, a colon, a space, and
/// the failure's description, unchanged.
pub open spec fn diagnostic_line(e: RunErrorView) -> Seq<char> {
    "error: "@ + e.message
}

impl Clone for RunError {
    fn clone(&self) -> (r: Self)
        ensures
            r@ == self@,
    {
        RunError { kind: self.kind, message: self.message.clone() }
    }
}

impl RunError {
    /// A failed native operation, tagged with its cause.
    pub fn io(cause: IoCause, detail: String) -> (e: RunError)
        ensures
            e@ == (RunErrorView { kind: ErrorKind::Io(cause), message: detail@ }),
    {
        RunError { kind: ErrorKind::Io(cause), message: detail }
    }

    /// A module specifier that cannot be resolved or read.
    pub fn module_resolution(detail: String) -> (e: RunError)
        ensures
            e@ == (RunErrorView { kind: ErrorKind::ModuleResolution, message: detail@ }),
    {
        RunError { kind: ErrorKind::ModuleResolution, message: detail }
    }

    /// A script that threw, rejected, or does not compile.
    pub fn script(detail: String) -> (e: RunError)
        ensures
            e@ == (RunErrorView { kind: ErrorKind::Script, message: detail@ }),
    {
        RunError { kind: ErrorKind::Script, message: detail }
    }

    /// An engine setup that cannot be honoured.
    pub fn configuration(detail: String) -> (e: RunError)
        ensures
            e@ == (RunErrorView { kind: ErrorKind::Configuration, message: detail@ }),
    {
        RunError { kind: ErrorKind::Configuration, message: detail }
    }

    /// Whether a native operation caused this failure.
    pub fn is_io(&self) -> (b: bool)
        ensures
            b == (self@.kind is Io),
    {
        match self.kind {
            ErrorKind::Io(_) => true,
            _ => false,
        }
    }

    /// The line to print for this failure.
    pub fn diagnostic(&self) -> (line: String)
        ensures
            line@ == diagnostic_line(self@),
    {
        let mut line = String::from_str("error: ");
        line.append(self.message.as_str());
        line
    }
}

} // verus!
