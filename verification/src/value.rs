//! Values that a lookup returns.

use crate::native::Release;
use vstd::prelude::*;

verus! {

/// A byte range that the engine allocated for the result of a lookup.
///
/// Whoever holds the value owns that range: the engine neither keeps nor
/// frees it. [`ValueBuffer::release`] gives up the value and names the one
/// release that is then due.
#[derive(Debug, PartialEq, Eq)]
pub struct ValueBuffer {
    /// The address of the range in the engine's memory; never null.
    pub address: usize,
    /// The bytes of the range, as many as the engine reported.
    pub bytes: Vec<u8>,
}

/// The mathematical value of a [`ValueBuffer`].
pub struct ValueBufferView {
    pub address: usize,
    pub bytes: Seq<u8>,
}

impl View for ValueBuffer {
    type V = ValueBufferView;

    open spec fn view(&self) -> ValueBufferView {
        ValueBufferView { address: self.address, bytes: self.bytes@ }
    }
}

impl ValueBufferView {
    /// An allocated range lies at an address other than null.
    pub open spec fn wf(self) -> bool {
        self.address != 0
    }
}

/// The view of an optional value.
pub open spec fn value_view(value: Option<ValueBuffer>) -> Option<ValueBufferView> {
    match value {
        Some(buffer) => Some(buffer@),
        None => None,
    }
}

impl ValueBuffer {
    /// The bytes of the value.
    pub fn as_bytes(&self) -> (bytes: &Vec<u8>)
        ensures
            bytes@ == self@.bytes,
    {
        &self.bytes
    }

    /// The number of bytes of the value.
    pub fn len(&self) -> (len: usize)
        ensures
            len == self@.bytes.len(),
    {
        self.bytes.len()
    }

    /// Whether the value has no bytes.
    pub fn is_empty(&self) -> (empty: bool)
        ensures
            empty == (self@.bytes.len() == 0),
    {
        self.bytes.len() == 0
    }

    /// Gives the value up: the release of its range in the engine's
    /// memory, which is due exactly once.
    pub fn release(self) -> (release: Release)
        ensures
            release == Release::Memory(self@.address),
    {
        Release::Memory(self.address)
    }
}

} // verus!
