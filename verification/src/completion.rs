//! What an operation of the session ends with.

use crate::error::{EngineError, EngineErrorView};
use crate::ldb::{lookup_view, status_view};
use crate::native::{Call, CallView};
use crate::value::{ValueBuffer, ValueBufferView};
use vstd::prelude::*;

verus! {

/// The result of an operation that has run to its end.
#[derive(Debug, PartialEq, Eq)]
pub enum Completion {
    /// The session is open, or the engine refused to open the database.
    Opened(Result<(), EngineError>),
    /// The pair is written, or the engine refused the write.
    Written(Result<(), EngineError>),
    /// The value of the key, `None` if the engine holds no record of it,
    /// or the failure of the lookup. A value now belongs to the caller.
    Read(Result<Option<ValueBuffer>, EngineError>),
    /// The database is closed.
    Closed,
}

/// The mathematical value of a [`Completion`].
pub enum CompletionView {
    Opened(Result<(), EngineErrorView>),
    Written(Result<(), EngineErrorView>),
    Read(Result<Option<ValueBufferView>, EngineErrorView>),
    Closed,
}

impl View for Completion {
    type V = CompletionView;

    open spec fn view(&self) -> CompletionView {
        match self {
            Completion::Opened(result) => CompletionView::Opened(status_view(*result)),
            Completion::Written(result) => CompletionView::Written(status_view(*result)),
            Completion::Read(result) => CompletionView::Read(lookup_view(*result)),
            Completion::Closed => CompletionView::Closed,
        }
    }
}

/// The view of a result that may not be there yet.
pub open spec fn outcome_view(outcome: Option<Completion>) -> Option<CompletionView> {
    match outcome {
        Some(completion) => Some(completion@),
        None => None,
    }
}

/// What the session asks of its driver after a reply.
#[derive(Debug, PartialEq, Eq)]
pub enum Step {
    /// Perform this call and come back with its reply.
    Call(Call),
    /// The operation has ended with this result; the session is at rest.
    Done(Completion),
}

/// The mathematical value of a [`Step`].
pub enum StepView {
    Call(CallView),
    Done(CompletionView),
}

impl View for Step {
    type V = StepView;

    open spec fn view(&self) -> StepView {
        match self {
            Step::Call(call) => StepView::Call(call@),
            Step::Done(completion) => StepView::Done(completion@),
        }
    }
}

} // verus!
