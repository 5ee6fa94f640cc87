//! What can go wrong in a run, and what each failure means for it.

use vstd::prelude::*;
use vstd::string::StringExecFns;

verus! {

/// A failure of a run.
#[derive(Debug)]
pub enum CopyError {
    /// The paths given are missing or malformed. Nothing is copied.
    Argument(String),
    /// The source could not be listed or its size could not be measured.
    /// Nothing is copied.
    SourceUnreadable,
    /// The copy into one destination failed. The other destinations are
    /// still copied to, and the failure is reported in the end.
    DestinationCopy { destination: String, reason: String },
    /// The terminal refused a write. The display cannot go on.
    RenderIo(String),
}

/// A failure as plain values.
pub enum CopyErrorView {
    Argument(Seq<char>),
    SourceUnreadable,
    DestinationCopy { destination: Seq<char>, reason: Seq<char> },
    RenderIo(Seq<char>),
}

impl View for CopyError {
    type V = CopyErrorView;

    open spec fn view(&self) -> CopyErrorView {
        match self {
            CopyError::Argument(detail) => CopyErrorView::Argument(detail@),
            CopyError::SourceUnreadable => CopyErrorView::SourceUnreadable,
            CopyError::DestinationCopy { destination, reason } => CopyErrorView::DestinationCopy {
                destination: destination@,
                reason: reason@,
            },
            CopyError::RenderIo(detail) => CopyErrorView::RenderIo(detail@),
        }
    }
}

impl CopyErrorView {
    /// Whether the run ends at once on this failure. Only a failed
    /// destination lets it go on.
    pub open spec fn is_fatal(self) -> bool {
        !(self is DestinationCopy)
    }

    /// The exit code of a process that ends on this failure, or that ends
    /// with such a failure on record.
    pub open spec fn exit_code(self) -> u8 {
        match self {
            CopyErrorView::Argument(_) => 2,
            CopyErrorView::SourceUnreadable => 3,
            CopyErrorView::DestinationCopy { .. } => 4,
            CopyErrorView::RenderIo(_) => 5,
        }
    }

    /// The one line that reports the failure.
    pub open spec fn message(self) -> Seq<char> {
        match self {
            CopyErrorView::Argument(detail) => "invalid arguments: "@ + detail,
            CopyErrorView::SourceUnreadable => "the source directory cannot be read"@,
            CopyErrorView::DestinationCopy { destination, reason } => "failed to copy to "@
                + destination + ": "@ + reason,
            CopyErrorView::RenderIo(detail) => "cannot write to the terminal: "@ + detail,
        }
    }
}

impl CopyError {
    /// Whether the run ends at once on this failure.
    pub fn is_fatal(&self) -> (fatal: bool)
        ensures
            fatal == self@.is_fatal(),
    {
        match self {
            CopyError::DestinationCopy { .. } => false,
            _ => true,
        }
    }

    /// The exit code for this failure: never 0, and a different one for
    /// each kind of failure.
    pub fn exit_code(&self) -> (code: u8)
        ensures
            code == self@.exit_code(),
            code != 0,
    {
        match self {
            CopyError::Argument(_) => 2,
            CopyError::SourceUnreadable => 3,
            CopyError::DestinationCopy { .. } => 4,
            CopyError::RenderIo(_) => 5,
        }
    }

    /// The one line that reports the failure.
    pub fn message(&self) -> (line: String)
        ensures
            line@ == self@.message(),
    {
        match self {
            CopyError::Argument(detail) => {
                let mut line = String::from_str("invalid arguments: ");
                line.append(detail.as_str());
                line
            },
            CopyError::SourceUnreadable => String::from_str("the source directory cannot be read"),
            CopyError::DestinationCopy { destination, reason } => {
                let mut line = String::from_str("failed to copy to ");
                line.append(destination.as_str());
                line.append(": ");
                line.append(reason.as_str());
                line
            },
            CopyError::RenderIo(detail) => {
                let mut line = String::from_str("cannot write to the terminal: ");
                line.append(detail.as_str());
                line
            },
        }
    }
}

/// No failure exits with 0, and two failures exit with the same code only if
/// they are of the same kind.
pub proof fn lemma_exit_codes_tell_failures_apart(one: CopyErrorView, other: CopyErrorView)
    ensures
        one.exit_code() != 0,
        one.exit_code() == other.exit_code() <==> {
            ||| one is Argument && other is Argument
            ||| one is SourceUnreadable && other is SourceUnreadable
            ||| one is DestinationCopy && other is DestinationCopy
            ||| one is RenderIo && other is RenderIo
        },
{
}

} // verus!
