//! The error slot of a session.

use vstd::prelude::*;

verus! {

/// A diagnostic message that the engine allocated and wrote into the
/// error slot: where it lies, and what it says.
#[derive(Debug, PartialEq, Eq)]
pub struct Diagnostic {
    /// The address of the message in the engine's memory; never null.
    pub address: usize,
    /// The text of the message.
    pub text: String,
}

/// The mathematical value of a [`Diagnostic`].
pub struct DiagnosticView {
    pub address: usize,
    pub text: Seq<char>,
}

impl View for Diagnostic {
    type V = DiagnosticView;

    open spec fn view(&self) -> DiagnosticView {
        DiagnosticView { address: self.address, text: self.text@ }
    }
}

impl DiagnosticView {
    /// A message lies at an address other than null.
    pub open spec fn wf(self) -> bool {
        self.address != 0
    }
}

/// The view of an optional diagnostic.
pub open spec fn slot_view(slot: Option<Diagnostic>) -> Option<DiagnosticView> {
    match slot {
        Some(diagnostic) => Some(diagnostic@),
        None => None,
    }
}

/// The single slot into which the engine writes a diagnostic when a call
/// fails, and which it leaves alone when the call succeeds.
///
/// The slot is looked at right after every call that can fill it, and is
/// empty again before the next such call.
#[derive(Debug)]
pub struct ErrorChannel {
    slot: Option<Diagnostic>,
}

impl View for ErrorChannel {
    type V = Option<DiagnosticView>;

    closed spec fn view(&self) -> Option<DiagnosticView> {
        slot_view(self.slot)
    }
}

impl ErrorChannel {
    /// An empty slot.
    pub fn new() -> (channel: ErrorChannel)
        ensures
            channel@ is None,
    {
        ErrorChannel { slot: None }
    }

    /// Whether the last call left a diagnostic behind.
    pub fn is_populated(&self) -> (populated: bool)
        ensures
            populated == (self@ is Some),
    {
        self.slot.is_some()
    }

    /// Records what a native call left in the slot. The slot was empty
    /// when the call was made.
    pub fn deliver(&mut self, written: Option<Diagnostic>)
        requires
            old(self)@ is None,
        ensures
            final(self)@ == slot_view(written),
    {
        self.slot = written;
    }

    /// Takes the diagnostic out of the slot, if there is one, and leaves
    /// the slot empty.
    pub fn take(&mut self) -> (taken: Option<Diagnostic>)
        ensures
            slot_view(taken) == old(self)@,
            final(self)@ is None,
    {
        self.slot.take()
    }
}

} // verus!
