//! Failures that end a clipboard read.

use vstd::prelude::*;
use vstd::string::StringExecFns;

verus! {

/// What went wrong.
#[derive(Clone, Copy, Debug, PartialEq, Eq, Structural)]
pub enum ErrorKind {
    /// The clipboard could not be opened for exclusive use.
    ClipboardOpen,
    /// The decoder refused the bitmap file it was given.
    Decode,
    /// The encoder failed to write the PNG stream.
    Encode,
    /// A directory or a file of the image store could not be made, written or
    /// inspected.
    Io,
}

/// A failure together with the text that the failing part gave for it.
#[derive(Clone, Debug)]
pub struct ReadError {
    pub kind: ErrorKind,
    pub detail: String,
}

/// The line shown for a failure of `kind` with the given detail.
pub open spec fn message_of(kind: ErrorKind, detail: Seq<char>) -> Seq<char> {
    match kind {
        ErrorKind::ClipboardOpen => "Failed to open clipboard"@,
        ErrorKind::Decode => "Failed to decode BMP: "@ + detail,
        ErrorKind::Encode => "Failed to encode PNG: "@ + detail,
        ErrorKind::Io => detail,
    }
}

impl ReadError {
    /// The failure to open the clipboard; it carries no detail.
    pub fn clipboard_open() -> (error: ReadError)
        ensures
            error.kind == ErrorKind::ClipboardOpen,
            error.detail@ == Seq::<char>::empty(),
    {
        ReadError { kind: ErrorKind::ClipboardOpen, detail: String::new() }
    }

    /// A failure of the image store, described by `detail`.
    pub fn io(detail: String) -> (error: ReadError)
        ensures
            error.kind == ErrorKind::Io,
            error.detail@ == detail@,
    {
        ReadError { kind: ErrorKind::Io, detail }
    }

    /// The line shown for this failure.
    pub open spec fn spec_message(&self) -> Seq<char> {
        message_of(self.kind, self.detail@)
    }

    /// Builds the line shown for this failure.
    pub fn message(&self) -> (line: String)
        ensures
            line@ == self.spec_message(),
    {
        match self.kind {
            ErrorKind::ClipboardOpen => String::from_str("Failed to open clipboard"),
            ErrorKind::Decode => {
                let mut line = String::from_str("Failed to decode BMP: ");
                line.append(self.detail.as_str());
                line
            },
            ErrorKind::Encode => {
                let mut line = String::from_str("Failed to encode PNG: ");
                line.append(self.detail.as_str());
                line
            },
            ErrorKind::Io => self.detail.clone(),
        }
    }
}

} // verus!
