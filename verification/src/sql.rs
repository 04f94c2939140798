//! The values an SQL function receives and the ways it can fail.

use vstd::prelude::*;

verus! {

/// The storage class of an SQL argument.
#[derive(Clone, Copy, Debug, PartialEq, Eq, Structural)]
pub enum SqlKind {
    Text,
    Integer,
    Float,
    Blob,
    Null,
}

/// One argument of an SQL function call, as the host reads it: its storage
/// class, its text (absent when the bytes are not UTF-8), and its value as a
/// 32-bit and as a 64-bit integer.
#[derive(Debug)]
pub struct SqlArg {
    pub kind: SqlKind,
    pub text: Option<String>,
    pub int: i32,
    pub int64: i64,
}

/// A value handed back to SQLite.
#[derive(Debug)]
pub enum SqlValue {
    Null,
    Text(String),
    Bool(bool),
}

/// Why an SQL function call did not produce a value.
#[derive(Debug)]
pub enum Failure {
    /// The call fails with this error message.
    Message(String),
    /// An argument that had to be read as text is not valid UTF-8.
    BadText,
    /// The call cannot continue: the host aborts here.
    Halt,
}

/// The mathematical form of a [`Failure`].
pub enum FailureView {
    Message(Seq<char>),
    BadText,
    Halt,
}

impl View for Failure {
    type V = FailureView;

    open spec fn view(&self) -> FailureView {
        match self {
            Failure::Message(m) => FailureView::Message(m@),
            Failure::BadText => FailureView::BadText,
            Failure::Halt => FailureView::Halt,
        }
    }
}

/// An executable result agrees with its specified outcome: both succeed with
/// the same value, or both fail in the same way.
pub open spec fn agrees<T>(r: Result<T, Failure>, s: Result<T, FailureView>) -> bool {
    match (r, s) {
        (Ok(a), Ok(b)) => a == b,
        (Err(e), Err(f)) => e@ == f,
        _ => false,
    }
}

/// The failure with the given message.
pub open spec fn msg(m: Seq<char>) -> FailureView {
    FailureView::Message(m)
}

/// The text of an argument, or the failure of reading it as text.
pub open spec fn arg_text(a: SqlArg) -> Result<Seq<char>, FailureView> {
    match a.text {
        Some(t) => Ok(t@),
        None => Err(FailureView::BadText),
    }
}

/// Reads an argument as text.
pub fn read_text(a: &SqlArg) -> (r: Result<&str, Failure>)
    ensures
        match (r, arg_text(*a)) {
            (Ok(t), Ok(s)) => t@ == s,
            (Err(e), Err(f)) => e@ == f,
            _ => false,
        },
{
    match &a.text {
        Some(t) => Ok(t.as_str()),
        None => Err(Failure::BadText),
    }
}

} // verus!
