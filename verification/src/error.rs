//! The error type of this crate and its conversion to and from I/O failures.

use vstd::prelude::*;
use vstd::string::*;
use crate::text::{decimal, decimal_string};

verus! {

/// The kinds of error that this crate reports.
#[derive(Debug, Clone, Copy, PartialEq, Eq, Structural)]
pub enum ErrorKind {
    /// The caller supplied an argument that does not conform.
    InvalidInput,
    /// Everything else, every failure of the operating system included.
    Other,
}

/// The category under which the operating system reported an I/O failure.
#[derive(Debug, Clone, Copy, PartialEq, Eq, Structural)]
pub enum IoErrorKind {
    /// The file or directory does not exist.
    NotFound,
    /// The caller may not do what it asked for.
    PermissionDenied,
    /// The file or directory exists already.
    AlreadyExists,
    /// An argument was not valid.
    InvalidInput,
    /// Any other category.
    Other,
}

/// What an [`Error`] stands for.
#[verifier::ext_equal]
pub struct ErrorView {
    pub kind: ErrorKind,
    /// The description of what went wrong first.
    pub cause: Seq<char>,
    /// The error code of the operating system, where the cause carried one.
    pub os_code: Option<i32>,
    /// The messages attached on the way up, oldest first.
    pub context: Seq<Seq<char>>,
}

/// What an [`IoFailure`] stands for.
#[verifier::ext_equal]
pub struct IoFailureView {
    pub kind: IoErrorKind,
    pub os_code: Option<i32>,
    pub message: Seq<char>,
    pub source: Option<ErrorView>,
}

/// An error of this crate: a kind, the first cause and the context that
/// was attached to it while it was handed up.
#[derive(Debug, Clone, PartialEq, Eq)]
pub struct Error {
    kind: ErrorKind,
    cause: String,
    os_code: Option<i32>,
    context: Vec<String>,
}

/// An I/O failure as plain values: the category, the code of the operating
/// system if there was one, the failure's own description, and the error of
/// this crate that the failure was made from, if it was made from one.
#[derive(Debug, Clone, PartialEq, Eq)]
pub struct IoFailure {
    pub kind: IoErrorKind,
    pub os_code: Option<i32>,
    pub message: String,
    pub source: Option<Error>,
}

/// The kind under which an I/O failure of category `kind` is reported.
pub open spec fn kind_from_io(kind: IoErrorKind) -> ErrorKind {
    if kind == IoErrorKind::InvalidInput {
        ErrorKind::InvalidInput
    } else {
        ErrorKind::Other
    }
}

/// The I/O category that carries an error of kind `kind`.
pub open spec fn kind_to_io(kind: ErrorKind) -> IoErrorKind {
    match kind {
        ErrorKind::InvalidInput => IoErrorKind::InvalidInput,
        ErrorKind::Other => IoErrorKind::Other,
    }
}

/// The name of a kind, as it is written in a description.
pub open spec fn kind_name(kind: ErrorKind) -> Seq<char> {
    match kind {
        ErrorKind::InvalidInput => "InvalidInput"@,
        ErrorKind::Other => "Other"@,
    }
}

/// The lines that list the first `n` context messages, each with its index.
pub open spec fn context_lines(context: Seq<Seq<char>>, n: nat) -> Seq<char>
    decreases n,
{
    if n == 0 {
        Seq::empty()
    } else {
        context_lines(context, (n - 1) as nat) + "\n  ["@ + decimal((n - 1) as nat) + "] "@
            + context[n - 1]
    }
}

impl ErrorView {
    /// The same error with one more message attached.
    pub open spec fn with_context(self, message: Seq<char>) -> ErrorView {
        ErrorView { context: self.context.push(message), ..self }
    }

    /// The text that describes the error: kind, cause, then the context.
    pub open spec fn describe(self) -> Seq<char> {
        kind_name(self.kind) + ": "@ + self.cause + context_lines(self.context, self.context.len())
    }

    /// The error that an I/O failure becomes: the error it was made from, if
    /// any; else a fresh one whose kind follows the failure's category.
    pub open spec fn from_io(failure: IoFailureView) -> ErrorView {
        match failure.source {
            Some(e) => e,
            None => ErrorView {
                kind: kind_from_io(failure.kind),
                cause: failure.message,
                os_code: failure.os_code,
                context: Seq::empty(),
            },
        }
    }

    /// The I/O failure that carries this error.
    pub open spec fn into_io(self) -> IoFailureView {
        IoFailureView {
            kind: kind_to_io(self.kind),
            os_code: self.os_code,
            message: self.describe(),
            source: Some(self),
        }
    }
}

impl View for Error {
    type V = ErrorView;

    closed spec fn view(&self) -> ErrorView {
        ErrorView {
            kind: self.kind,
            cause: self.cause@,
            os_code: self.os_code,
            context: self.context@.map_values(|s: String| s@),
        }
    }
}

impl View for IoFailure {
    type V = IoFailureView;

    open spec fn view(&self) -> IoFailureView {
        IoFailureView {
            kind: self.kind,
            os_code: self.os_code,
            message: self.message@,
            source: match self.source {
                Some(e) => Some(e@),
                None => None,
            },
        }
    }
}

impl ErrorKind {
    /// Classifies an I/O failure by its category: only invalid input keeps a
    /// kind of its own.
    pub fn from_io(kind: IoErrorKind) -> (r: ErrorKind)
        ensures
            r == kind_from_io(kind),
    {
        match kind {
            IoErrorKind::InvalidInput => ErrorKind::InvalidInput,
            _ => ErrorKind::Other,
        }
    }

    /// The I/O category under which an error of this kind is handed on.
    pub fn io_kind(self) -> (r: IoErrorKind)
        ensures
            r == kind_to_io(self),
    {
        match self {
            ErrorKind::InvalidInput => IoErrorKind::InvalidInput,
            ErrorKind::Other => IoErrorKind::Other,
        }
    }

    /// The name of the kind.
    pub fn name(self) -> (r: &'static str)
        ensures
            r@ == kind_name(self),
    {
        match self {
            ErrorKind::InvalidInput => "InvalidInput",
            ErrorKind::Other => "Other",
        }
    }
}

impl Error {
    /// An error of the given kind and cause, with no context yet.
    pub fn new(kind: ErrorKind, cause: &str) -> (e: Error)
        ensures
            e@ == (ErrorView { kind, cause: cause@, os_code: None, context: Seq::empty() }),
    {
        let e = Error { kind, cause: String::from_str(cause), os_code: None, context: Vec::new() };
        assert(e@.context =~= Seq::empty());
        e
    }

    /// The kind of the error.
    pub fn kind(&self) -> (k: ErrorKind)
        ensures
            k == self@.kind,
    {
        self.kind
    }

    /// The description of what went wrong first.
    pub fn cause(&self) -> (c: &str)
        ensures
            c@ == self@.cause,
    {
        self.cause.as_str()
    }

    /// The error code of the operating system, where the cause carried one.
    pub fn os_code(&self) -> (c: Option<i32>)
        ensures
            c == self@.os_code,
    {
        self.os_code
    }

    /// The attached messages, oldest first.
    pub fn context(&self) -> (c: &Vec<String>)
        ensures
            c@.map_values(|s: String| s@) == self@.context,
    {
        &self.context
    }

    /// Attaches one more message, keeping kind, cause and earlier context.
    pub fn with_context(self, message: String) -> (e: Error)
        ensures
            e@ == self@.with_context(message@),
    {
        let mut e = self;
        e.context.push(message);
        assert(e@.context =~= self@.context.push(message@));
        e
    }

    /// Turns an I/O failure into an error of this crate.
    pub fn from_io(failure: IoFailure) -> (e: Error)
        ensures
            e@ == ErrorView::from_io(failure@),
    {
        match failure.source {
            Some(e) => e,
            None => {
                let e = Error {
                    kind: ErrorKind::from_io(failure.kind),
                    cause: failure.message,
                    os_code: failure.os_code,
                    context: Vec::new(),
                };
                assert(e@.context =~= Seq::empty());
                e
            },
        }
    }

    /// Turns the error into an I/O failure that carries it.
    pub fn into_io(self) -> (failure: IoFailure)
        ensures
            failure@ == self@.into_io(),
    {
        let message = self.describe();
        IoFailure { kind: self.kind.io_kind(), os_code: self.os_code, message, source: Some(self) }
    }

    /// Describes the error in text: the kind and the cause on the first
    /// line, then one numbered line for each context message.
    pub fn describe(&self) -> (text: String)
        ensures
            text@ == self@.describe(),
    {
        let mut text = String::from_str(self.kind.name());
        text.append(": ");
        text.append(self.cause.as_str());
        let ghost head = text@;
        let mut i: usize = 0;
        while i < self.context.len()
            invariant
                i <= self.context.len(),
                head == kind_name(self@.kind) + ": "@ + self@.cause,
                text@ == head + context_lines(self@.context, i as nat),
            decreases self.context.len() - i,
        {
            let number = decimal_string(i as u64);
            text.append("\n  [");
            text.append(number.as_str());
            text.append("] ");
            text.append(self.context[i].as_str());
            i = i + 1;
        }
        text
    }
}

/// The kind of an error survives the way through the I/O category and back.
pub proof fn lemma_kind_round_trip(kind: ErrorKind)
    ensures
        kind_from_io(kind_to_io(kind)) == kind,
{
}

/// Among the I/O categories only invalid input is kept apart: every other
/// category becomes [`ErrorKind::Other`].
pub proof fn lemma_only_invalid_input_is_kept(kind: IoErrorKind)
    ensures
        kind_from_io(kind) == ErrorKind::InvalidInput <==> kind == IoErrorKind::InvalidInput,
        kind_from_io(kind) == ErrorKind::Other <==> kind != IoErrorKind::InvalidInput,
{
}

/// An error that is handed on as an I/O failure and taken back comes out
/// whole: kind, cause, code and context are what they were.
pub proof fn lemma_error_round_trip(e: ErrorView)
    ensures
        ErrorView::from_io(e.into_io()) == e,
        e.into_io().kind == kind_to_io(e.kind),
{
}

} // verus!
