//! The engine's configuration object.

use crate::native::{Call, CallView, Release};
use vstd::prelude::*;

verus! {

/// A configuration object of the engine, made for one open call. It asks
/// the engine to create the database where none exists yet.
#[derive(Clone, Copy, Debug, PartialEq, Eq)]
pub struct LdbOptions {
    /// The address of the object; never null.
    pub handle: usize,
}

impl LdbOptions {
    /// The object exists.
    pub open spec fn wf(self) -> bool {
        self.handle != 0
    }

    /// The creation policy of every session: a missing database is created.
    pub open spec fn create_if_missing_spec() -> bool {
        true
    }

    /// Takes charge of the object that `OptionsCreate` has returned.
    pub fn new(handle: usize) -> (options: LdbOptions)
        requires
            handle != 0,
        ensures
            options == (LdbOptions { handle }),
            options.wf(),
    {
        LdbOptions { handle }
    }

    /// The creation policy of every session: a missing database is created.
    #[verifier::when_used_as_spec(create_if_missing_spec)]
    pub fn create_if_missing() -> (enabled: bool)
        ensures
            enabled == Self::create_if_missing_spec(),
    {
        true
    }

    /// The call that writes the creation policy into the object.
    pub fn configure(&self) -> (call: Call)
        ensures
            call@ == (CallView::OptionsSetCreateIfMissing {
                options: self.handle,
                enabled: Self::create_if_missing_spec(),
            }),
    {
        Call::OptionsSetCreateIfMissing {
            options: self.handle,
            enabled: Self::create_if_missing(),
        }
    }

    /// The call that opens the database at `path` with this configuration.
    pub fn open(&self, path: Vec<u8>) -> (call: Call)
        ensures
            call@ == (CallView::Open { options: self.handle, path: path@ }),
    {
        Call::Open { options: self.handle, path }
    }

    /// The release that is due when the open call has returned, whether it
    /// succeeded or failed.
    pub fn release(&self) -> (release: Release)
        ensures
            release == Release::Options(self.handle),
    {
        Release::Options(self.handle)
    }
}

} // verus!
