//! The failures of the file exports.
use vstd::prelude::*;

use crate::text::{owned, push_str, same_text};

verus! {

/// A file-system failure: the kind of error (its `ErrorKind` name, such
/// as `NotFound`) and its message.
#[derive(Debug, Clone)]
pub struct IoFailure {
    pub kind: String,
    pub message: String,
}

impl IoFailure {
    /// A failure of `kind` with `message`.
    pub fn new(kind: &str, message: &str) -> (f: IoFailure)
        ensures
            f.kind@ == kind@,
            f.message@ == message@,
    {
        IoFailure { kind: owned(kind), message: owned(message) }
    }
}

/// The failure of one of the file exports.
#[derive(Debug, Clone)]
pub enum GuiError {
    /// Writing the file failed.
    Io(IoFailure),
    /// The PNG encoder rejected the image.
    Png(String),
    /// The JSON serialisation failed.
    Json(String),
}

/// Two errors are equal when they are of the same variant with the same
/// texts (for `Io`, the same kind and message).
pub open spec fn same_error(a: GuiError, b: GuiError) -> bool {
    match (a, b) {
        (GuiError::Io(x), GuiError::Io(y)) => x.kind@ == y.kind@ && x.message@ == y.message@,
        (GuiError::Png(x), GuiError::Png(y)) => x@ == y@,
        (GuiError::Json(x), GuiError::Json(y)) => x@ == y@,
        _ => false,
    }
}

impl PartialEq for GuiError {
    fn eq(&self, other: &Self) -> (r: bool) {
        match self {
            GuiError::Io(x) => match other {
                GuiError::Io(y) => same_text(x.kind.as_str(), y.kind.as_str())
                    && same_text(x.message.as_str(), y.message.as_str()),
                _ => false,
            },
            GuiError::Png(x) => match other {
                GuiError::Png(y) => same_text(x.as_str(), y.as_str()),
                _ => false,
            },
            GuiError::Json(x) => match other {
                GuiError::Json(y) => same_text(x.as_str(), y.as_str()),
                _ => false,
            },
        }
    }
}

impl vstd::std_specs::cmp::PartialEqSpecImpl for GuiError {
    open spec fn obeys_eq_spec() -> bool {
        true
    }

    open spec fn eq_spec(&self, other: &Self) -> bool {
        same_error(*self, *other)
    }
}

/// The message of an error.
pub open spec fn error_text(e: GuiError) -> Seq<char> {
    match e {
        GuiError::Io(f) => "export I/O error: "@ + f.message@,
        GuiError::Png(m) => "PNG encode error: "@ + m@,
        GuiError::Json(m) => "JSON serialize error: "@ + m@,
    }
}

impl GuiError {
    /// The message shown in the header notice: `export I/O error: <msg>`,
    /// `PNG encode error: <msg>`, `JSON serialize error: <msg>`.
    pub fn to_string(&self) -> (t: String)
        ensures
            t@ == error_text(*self),
    {
        match self {
            GuiError::Io(f) => {
                let mut t = owned("export I/O error: ");
                push_str(&mut t, f.message.as_str());
                t
            },
            GuiError::Png(m) => {
                let mut t = owned("PNG encode error: ");
                push_str(&mut t, m.as_str());
                t
            },
            GuiError::Json(m) => {
                let mut t = owned("JSON serialize error: ");
                push_str(&mut t, m.as_str());
                t
            },
        }
    }

    /// The underlying file-system failure: present for `Io` alone.
    pub fn source(&self) -> (r: Option<&IoFailure>)
        ensures
            r == (match self {
                GuiError::Io(f) => Some(f),
                _ => None,
            }),
    {
        match self {
            GuiError::Io(f) => Some(f),
            _ => None,
        }
    }
}

} // verus!
