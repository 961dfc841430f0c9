//! The one error kind of the editor: a failed file operation.

use vstd::prelude::*;
use vstd::string::StringExecFns;

verus! {

/// Why a file operation failed.
///
/// Every variant is the same kind of failure to the user; they differ only in
/// the message shown. The two variants without a payload are raised by the
/// editor itself; the other two carry the message that the file system gave.
#[derive(Clone, Debug, PartialEq, Eq)]
pub enum IoError {
    /// The chosen path has no final component that could name the document.
    FileNotFound,
    /// The document has no backing path to be saved to.
    NoBackingPath,
    /// Reading the file failed, or its bytes were not valid text.
    ReadFailed(String),
    /// Writing the file failed.
    WriteFailed(String),
}

/// The mathematical value of an [`IoError`].
pub enum IoErrorView {
    FileNotFound,
    NoBackingPath,
    ReadFailed(Seq<char>),
    WriteFailed(Seq<char>),
}

impl IoErrorView {
    /// The text shown to the user for this failure.
    pub open spec fn message(self) -> Seq<char> {
        match self {
            IoErrorView::FileNotFound => "File not found"@,
            IoErrorView::NoBackingPath => "File path doesn't exist"@,
            IoErrorView::ReadFailed(m) => m,
            IoErrorView::WriteFailed(m) => m,
        }
    }
}

impl View for IoError {
    type V = IoErrorView;

    open spec fn view(&self) -> IoErrorView {
        match self {
            IoError::FileNotFound => IoErrorView::FileNotFound,
            IoError::NoBackingPath => IoErrorView::NoBackingPath,
            IoError::ReadFailed(m) => IoErrorView::ReadFailed(m@),
            IoError::WriteFailed(m) => IoErrorView::WriteFailed(m@),
        }
    }
}

impl IoError {
    /// The text shown to the user for this failure.
    pub fn message(&self) -> (text: String)
        ensures
            text@ == self@.message(),
    {
        match self {
            IoError::FileNotFound => String::from_str("File not found"),
            IoError::NoBackingPath => String::from_str("File path doesn't exist"),
            IoError::ReadFailed(m) => m.clone(),
            IoError::WriteFailed(m) => m.clone(),
        }
    }
}

} // verus!
