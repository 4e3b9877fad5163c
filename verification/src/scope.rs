//! Releases that wait for the end of an operation.

use crate::native::Release;
use vstd::prelude::*;

verus! {

/// The releases that an operation owes at its end, in the order in which
/// it took the things on. They are carried out last in, first out, on
/// every way out of the operation.
#[derive(Debug)]
pub struct Scope {
    deferred: Vec<Release>,
}

impl View for Scope {
    type V = Seq<Release>;

    closed spec fn view(&self) -> Seq<Release> {
        self.deferred@
    }
}

impl Scope {
    /// A scope that owes nothing.
    pub fn new() -> (scope: Scope)
        ensures
            scope@ == Seq::<Release>::empty(),
    {
        Scope { deferred: Vec::new() }
    }

    /// Whether nothing is owed.
    pub fn is_empty(&self) -> (empty: bool)
        ensures
            empty == (self@.len() == 0),
    {
        self.deferred.len() == 0
    }

    /// The number of releases owed.
    pub fn len(&self) -> (len: usize)
        ensures
            len == self@.len(),
    {
        self.deferred.len()
    }

    /// Puts a release off until the operation ends.
    pub fn defer(&mut self, release: Release)
        ensures
            final(self)@ == old(self)@.push(release),
    {
        self.deferred.push(release);
    }

    /// Takes the release that is due next, the one put off last, out of
    /// the scope.
    pub fn exit(&mut self) -> (due: Option<Release>)
        ensures
            old(self)@.len() == 0 ==> due is None && final(self)@ == old(self)@,
            old(self)@.len() > 0 ==> due == Some(old(self)@.last()) && final(self)@ == old(
                self,
            )@.drop_last(),
    {
        self.deferred.pop()
    }
}

} // verus!
