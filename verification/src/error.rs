//! The errors that a session reports.

use vstd::prelude::*;

verus! {

/// The operation during which the engine reported a failure.
#[derive(Clone, Copy, Debug, PartialEq, Eq)]
pub enum Operation {
    Open,
    Write,
    Read,
}

/// A failure that the engine reported, with its diagnostic text as the
/// engine wrote it.
#[derive(Debug, PartialEq, Eq)]
pub enum EngineError {
    OpenFailed(String),
    WriteFailed(String),
    ReadFailed(String),
}

/// The mathematical value of an [`EngineError`].
pub enum EngineErrorView {
    OpenFailed(Seq<char>),
    WriteFailed(Seq<char>),
    ReadFailed(Seq<char>),
}

impl View for EngineError {
    type V = EngineErrorView;

    open spec fn view(&self) -> EngineErrorView {
        match self {
            EngineError::OpenFailed(text) => EngineErrorView::OpenFailed(text@),
            EngineError::WriteFailed(text) => EngineErrorView::WriteFailed(text@),
            EngineError::ReadFailed(text) => EngineErrorView::ReadFailed(text@),
        }
    }
}

impl EngineErrorView {
    /// The error of `operation` that carries `text`.
    pub open spec fn during(operation: Operation, text: Seq<char>) -> EngineErrorView {
        match operation {
            Operation::Open => EngineErrorView::OpenFailed(text),
            Operation::Write => EngineErrorView::WriteFailed(text),
            Operation::Read => EngineErrorView::ReadFailed(text),
        }
    }

    /// The diagnostic text.
    pub open spec fn message(self) -> Seq<char> {
        match self {
            EngineErrorView::OpenFailed(text) => text,
            EngineErrorView::WriteFailed(text) => text,
            EngineErrorView::ReadFailed(text) => text,
        }
    }

    /// The operation that failed.
    pub open spec fn operation(self) -> Operation {
        match self {
            EngineErrorView::OpenFailed(_) => Operation::Open,
            EngineErrorView::WriteFailed(_) => Operation::Write,
            EngineErrorView::ReadFailed(_) => Operation::Read,
        }
    }
}

impl EngineError {
    /// Builds the error of `operation` around the engine's text.
    pub fn during(operation: Operation, text: String) -> (error: EngineError)
        ensures
            error@ == EngineErrorView::during(operation, text@),
    {
        match operation {
            Operation::Open => EngineError::OpenFailed(text),
            Operation::Write => EngineError::WriteFailed(text),
            Operation::Read => EngineError::ReadFailed(text),
        }
    }

    /// The diagnostic text, as the engine wrote it.
    pub fn message(&self) -> (text: &String)
        ensures
            text@ == self@.message(),
    {
        match self {
            EngineError::OpenFailed(text) => text,
            EngineError::WriteFailed(text) => text,
            EngineError::ReadFailed(text) => text,
        }
    }

    /// The operation that failed.
    pub fn operation(&self) -> (operation: Operation)
        ensures
            operation == self@.operation(),
    {
        match self {
            EngineError::OpenFailed(_) => Operation::Open,
            EngineError::WriteFailed(_) => Operation::Write,
            EngineError::ReadFailed(_) => Operation::Read,
        }
    }
}

} // verus!
