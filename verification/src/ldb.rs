//! The open database and what the replies of the engine mean for it.

use crate::batch::WriteBatch;
use crate::channel::{slot_view, Diagnostic, DiagnosticView, ErrorChannel};
use crate::error::{EngineError, EngineErrorView, Operation};
use crate::native::{Call, CallView, Release};
use crate::scope::Scope;
use crate::value::{value_view, ValueBuffer, ValueBufferView};
use vstd::prelude::*;

verus! {

/// An open database of the engine, bound to the path it was opened at,
/// with the error slot of its session.
#[derive(Debug)]
pub struct Ldb {
    handle: usize,
    path: Vec<u8>,
    channel: ErrorChannel,
}

/// The mathematical value of an [`Ldb`].
pub struct LdbView {
    /// The address of the database; never null.
    pub handle: usize,
    /// The path that the database was opened at.
    pub path: Seq<u8>,
    /// What the error slot holds.
    pub channel: Option<DiagnosticView>,
}

impl View for Ldb {
    type V = LdbView;

    closed spec fn view(&self) -> LdbView {
        LdbView { handle: self.handle, path: self.path@, channel: self.channel@ }
    }
}

/// The view of the result of an open call.
pub open spec fn opened_view(result: Result<Ldb, EngineError>) -> Result<LdbView, EngineErrorView> {
    match result {
        Ok(ldb) => Ok(ldb@),
        Err(error) => Err(error@),
    }
}

/// The view of the result of a write.
pub open spec fn status_view(result: Result<(), EngineError>) -> Result<(), EngineErrorView> {
    match result {
        Ok(()) => Ok(()),
        Err(error) => Err(error@),
    }
}

/// The view of the result of a lookup.
pub open spec fn lookup_view(result: Result<Option<ValueBuffer>, EngineError>) -> Result<
    Option<ValueBufferView>,
    EngineErrorView,
> {
    match result {
        Ok(value) => Ok(value_view(value)),
        Err(error) => Err(error@),
    }
}

/// What a look at the error slot after `operation` yields: nothing if the
/// slot is empty, else the error of that operation with the text in the slot.
pub open spec fn checked(slot: Option<DiagnosticView>, operation: Operation) -> Result<
    (),
    EngineErrorView,
> {
    match slot {
        None => Ok(()),
        Some(diagnostic) => Err(EngineErrorView::during(operation, diagnostic.text)),
    }
}

/// The release that a look at the error slot puts off: that of the
/// message's memory, if there was a message.
pub open spec fn check_defers(slot: Option<DiagnosticView>) -> Seq<Release> {
    match slot {
        None => Seq::empty(),
        Some(diagnostic) => seq![Release::Memory(diagnostic.address)],
    }
}

/// The result of an open call that returned `database` and left `error`
/// in the slot: a message is the failure, and without one `database` is
/// the open database.
pub open spec fn opened(path: Seq<u8>, database: usize, error: Option<DiagnosticView>) -> Result<
    LdbView,
    EngineErrorView,
> {
    match error {
        Some(diagnostic) => Err(EngineErrorView::OpenFailed(diagnostic.text)),
        None => Ok(LdbView { handle: database, path, channel: None }),
    }
}

/// Whether a lookup found a record: it left no message, and returned a
/// range of at least one byte.
pub open spec fn found(value: Option<ValueBufferView>, error: Option<DiagnosticView>) -> bool {
    &&& error is None
    &&& value matches Some(buffer) && buffer.bytes.len() > 0
}

/// The result of a lookup that returned `value` and left `error` in the
/// slot. The slot is looked at first: a message is a failure, whatever
/// else came back. Without one, a range of no bytes, like no range at all,
/// says that no record was found; any other range is the record's value.
///
/// A record stored with an empty value therefore reads as absent.
pub open spec fn looked_up(value: Option<ValueBufferView>, error: Option<DiagnosticView>) -> Result<
    Option<ValueBufferView>,
    EngineErrorView,
> {
    match error {
        Some(diagnostic) => Err(EngineErrorView::ReadFailed(diagnostic.text)),
        None => if found(value, error) {
            Ok(value)
        } else {
            Ok(None)
        },
    }
}

/// The releases that a lookup puts off: that of the message, if there was
/// one, and that of a range which the caller does not get.
pub open spec fn lookup_defers(
    value: Option<ValueBufferView>,
    error: Option<DiagnosticView>,
) -> Seq<Release> {
    check_defers(error) + match value {
        Some(buffer) => if found(value, error) {
            Seq::empty()
        } else {
            seq![Release::Memory(buffer.address)]
        },
        None => Seq::empty(),
    }
}

/// How a scope grows by what a lookup puts off.
proof fn lemma_lookup_defers(
    scope: Seq<Release>,
    value: Option<ValueBufferView>,
    error: Option<DiagnosticView>,
)
    ensures
        scope + lookup_defers(value, error) == match value {
            Some(buffer) if !found(value, error) => (scope + check_defers(error)).push(
                Release::Memory(buffer.address),
            ),
            _ => scope + check_defers(error),
        },
{
    let grown = match value {
        Some(buffer) if !found(value, error) => (scope + check_defers(error)).push(
            Release::Memory(buffer.address),
        ),
        _ => scope + check_defers(error),
    };
    assert(scope + lookup_defers(value, error) =~= grown);
}

impl LdbView {
    /// The database exists, and the error slot is empty, as it is between
    /// any two calls.
    pub open spec fn wf(self) -> bool {
        &&& self.handle != 0
        &&& self.channel is None
    }
}

impl Ldb {
    /// Decides what an open call at `path` has brought: the engine has
    /// returned `database`, null if it failed, and has left `error` in the
    /// slot, a message exactly if it returned null.
    ///
    /// A database comes with an empty slot. A failure becomes
    /// `OpenFailed` with the engine's text, and the release of the
    /// message's memory is put off to the end of `scope`.
    pub fn new(
        path: Vec<u8>,
        database: usize,
        error: Option<Diagnostic>,
        scope: &mut Scope,
    ) -> (result: Result<Ldb, EngineError>)
        requires
            database == 0 <==> error is Some,
        ensures
            opened_view(result) == opened(path@, database, slot_view(error)),
            result is Ok <==> database != 0,
            result is Err <==> error is Some,
            result matches Ok(ldb) ==> ldb@.wf(),
            final(scope)@ == old(scope)@ + check_defers(slot_view(error)),
    {
        let mut channel = ErrorChannel::new();
        channel.deliver(error);
        match Self::check(&mut channel, Operation::Open, scope) {
            Ok(()) => Ok(Ldb { handle: database, path, channel }),
            Err(failure) => Err(failure),
        }
    }

    /// Looks at an error slot right after `operation` and empties it.
    ///
    /// An empty slot is success. A message is the failure of the
    /// operation: its text goes into the error, and the release of its
    /// memory is put off to the end of `scope`.
    pub fn check(channel: &mut ErrorChannel, operation: Operation, scope: &mut Scope) -> (result:
        Result<(), EngineError>)
        ensures
            status_view(result) == checked(old(channel)@, operation),
            final(channel)@ is None,
            final(scope)@ == old(scope)@ + check_defers(old(channel)@),
    {
        match channel.take() {
            Some(diagnostic) => {
                scope.defer(Release::Memory(diagnostic.address));
                proof {
                    assert(old(scope)@.push(Release::Memory(diagnostic.address)) =~= old(scope)@
                        + check_defers(old(channel)@));
                }
                Err(EngineError::during(operation, diagnostic.text))
            },
            None => {
                proof {
                    assert(old(scope)@ + Seq::<Release>::empty() =~= old(scope)@);
                }
                Ok(())
            },
        }
    }

    /// Looks at the session's error slot right after `operation` and
    /// empties it.
    pub fn check_error(&mut self, operation: Operation, scope: &mut Scope) -> (result: Result<
        (),
        EngineError,
    >)
        ensures
            status_view(result) == checked(old(self)@.channel, operation),
            final(self)@ == (LdbView { channel: None, ..old(self)@ }),
            final(scope)@ == old(scope)@ + check_defers(old(self)@.channel),
    {
        Self::check(&mut self.channel, operation, scope)
    }

    /// The address of the database.
    pub fn handle(&self) -> (handle: usize)
        ensures
            handle == self@.handle,
    {
        self.handle
    }

    /// The path that the database was opened at.
    pub fn path(&self) -> (path: &Vec<u8>)
        ensures
            path@ == self@.path,
    {
        &self.path
    }

    /// The call that applies `batch` to the database.
    pub fn apply(&self, write_options: usize, batch: &WriteBatch) -> (call: Call)
        ensures
            call@ == (CallView::Write {
                database: self@.handle,
                options: write_options,
                batch: batch.handle,
            }),
    {
        Call::Write { database: self.handle, options: write_options, batch: batch.handle }
    }

    /// The call that looks `key` up in the database.
    pub fn get(&self, read_options: usize, key: Vec<u8>) -> (call: Call)
        ensures
            call@ == (CallView::Get { database: self@.handle, options: read_options, key: key@ }),
    {
        Call::Get { database: self.handle, options: read_options, key }
    }

    /// Decides what applying a batch has brought: the engine has left
    /// `error` in the slot.
    ///
    /// An empty slot is success. A message becomes `WriteFailed` with the
    /// engine's text; the slot is empty again afterwards, and the release
    /// of the message's memory is put off to the end of `scope`.
    pub fn write(&mut self, error: Option<Diagnostic>, scope: &mut Scope) -> (result: Result<
        (),
        EngineError,
    >)
        requires
            old(self)@.wf(),
        ensures
            status_view(result) == checked(slot_view(error), Operation::Write),
            final(self)@ == old(self)@,
            final(scope)@ == old(scope)@ + check_defers(slot_view(error)),
    {
        self.channel.deliver(error);
        self.check_error(Operation::Write, scope)
    }

    /// Decides what a lookup has brought: the engine has returned `value`,
    /// `None` for null, and has left `error` in the slot.
    ///
    /// The slot is looked at first: a message becomes `ReadFailed` with
    /// the engine's text, whatever else came back. Without one, a range of
    /// no bytes, like no range at all, says that no record was found; any
    /// other range is the record's value and passes to the caller as it
    /// is. The release of the message, and of a range that the caller does
    /// not get, is put off to the end of `scope`.
    pub fn read(
        &mut self,
        value: Option<ValueBuffer>,
        error: Option<Diagnostic>,
        scope: &mut Scope,
    ) -> (result: Result<Option<ValueBuffer>, EngineError>)
        requires
            old(self)@.wf(),
        ensures
            lookup_view(result) == looked_up(value_view(value), slot_view(error)),
            final(self)@ == old(self)@,
            final(scope)@ == old(scope)@ + lookup_defers(value_view(value), slot_view(error)),
    {
        self.channel.deliver(error);
        match self.check_error(Operation::Read, scope) {
            Err(failure) => {
                match value {
                    Some(buffer) => scope.defer(buffer.release()),
                    None => {},
                }
                proof {
                    lemma_lookup_defers(old(scope)@, value_view(value), slot_view(error));
                }
                Err(failure)
            },
            Ok(()) => {
                proof {
                    lemma_lookup_defers(old(scope)@, value_view(value), slot_view(error));
                }
                match value {
                    Some(buffer) => {
                        if buffer.is_empty() {
                            scope.defer(buffer.release());
                            Ok(None)
                        } else {
                            Ok(Some(buffer))
                        }
                    },
                    None => Ok(None),
                }
            },
        }
    }

    /// Ends the session: the call that closes the database. The engine
    /// defines it not to fail, so no error slot goes with it.
    pub fn close(self) -> (call: Call)
        ensures
            call@ == Release::Database(self@.handle).call_view(),
    {
        Release::Database(self.handle).call()
    }
}

} // verus!
