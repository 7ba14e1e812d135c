//! The error that ends an invocation.

use crate::text::optional_text;
use vstd::prelude::*;
use vstd::string::*;

verus! {

/// The words that announce an input/output error.
pub const IO_LABEL: &'static str = "IO Error: ";

/// The words that announce an error of the version-control command.
pub const VCS_LABEL: &'static str = "VCS Error: ";

/// The words that announce an error of the model.
pub const MODEL_LABEL: &'static str = "Model Error: ";

/// The three ways an invocation can fail.
#[derive(Debug, Clone, Copy, PartialEq, Eq, Structural)]
pub enum SmartCommitterErrorKind {
    /// A file could not be used, or a process could not be started or
    /// waited for.
    IOError,
    /// The version-control command ran and failed, or its output could not
    /// be read.
    VCSError,
    /// The chat endpoint could not be reached, or its answer could not be read.
    ModelError,
}

/// An error of one of the three kinds, with a message for the user and, where
/// another error lies underneath, the text of that one.
#[derive(Debug, Clone, PartialEq, Eq)]
pub struct SmartCommitterError {
    pub source: Option<String>,
    pub kind: SmartCommitterErrorKind,
    pub message: String,
}

/// What an error says, as plain text.
pub struct SmartCommitterErrorView {
    pub source: Option<Seq<char>>,
    pub kind: SmartCommitterErrorKind,
    pub message: Seq<char>,
}

impl View for SmartCommitterError {
    type V = SmartCommitterErrorView;

    open spec fn view(&self) -> SmartCommitterErrorView {
        SmartCommitterErrorView {
            source: optional_text(self.source),
            kind: self.kind,
            message: self.message@,
        }
    }
}

/// The words that announce an error of the given kind.
pub open spec fn kind_label(kind: SmartCommitterErrorKind) -> Seq<char> {
    match kind {
        SmartCommitterErrorKind::IOError => IO_LABEL@,
        SmartCommitterErrorKind::VCSError => VCS_LABEL@,
        SmartCommitterErrorKind::ModelError => MODEL_LABEL@,
    }
}

/// The text shown for an error: the label of its kind, its message and, on a
/// line of its own, the text of the error underneath where there is one.
pub open spec fn display_text(e: SmartCommitterErrorView) -> Seq<char> {
    kind_label(e.kind) + e.message + match e.source {
        Some(source) => seq!['\n'] + source,
        None => Seq::<char>::empty(),
    }
}

/// A text or an error, as plain text.
pub open spec fn text_outcome(r: Result<String, SmartCommitterError>) -> Result<
    Seq<char>,
    SmartCommitterErrorView,
> {
    match r {
        Ok(t) => Ok(t@),
        Err(e) => Err(e@),
    }
}

impl SmartCommitterError {
    /// An error of the given kind.
    pub fn new(kind: SmartCommitterErrorKind, message: String, source: Option<String>) -> (e: Self)
        ensures
            e@ == (SmartCommitterErrorView {
                source: optional_text(source),
                kind: kind,
                message: message@,
            }),
    {
        SmartCommitterError { source, kind, message }
    }

    /// The text shown for this error.
    pub fn to_text(&self) -> (t: String)
        ensures
            t@ == display_text(self@),
    {
        let label: &'static str = match self.kind {
            SmartCommitterErrorKind::IOError => IO_LABEL,
            SmartCommitterErrorKind::VCSError => VCS_LABEL,
            SmartCommitterErrorKind::ModelError => MODEL_LABEL,
        };
        let mut t: String = label.to_owned();
        t.append(self.message.as_str());
        match &self.source {
            Some(source) => {
                proof {
                    reveal_strlit("\n");
                }
                t.append("\n");
                t.append(source.as_str());
                assert(t@ =~= display_text(self@));
            },
            None => {
                assert(t@ =~= display_text(self@));
            },
        }
        t
    }
}

} // verus!
