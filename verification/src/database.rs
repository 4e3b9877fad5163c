//! The session: one database from open to close.
//!
//! A [`Database`] performs no native call. It names the next call, takes
//! the reply, and names the call after that, until the operation ends:
//!
//! ```text
//! let (mut database, mut call) = Database::open_or_create(path);
//! loop {
//!     let reply = /* perform `call` */;
//!     match database.resume(reply) {
//!         Step::Call(next) => call = next,
//!         Step::Done(completion) => break completion,
//!     }
//! }
//! ```
//!
//! `write`, `read` and `close` start the other operations in the same way.

use crate::batch::WriteBatch;
use crate::completion::{outcome_view, Completion, CompletionView, Step, StepView};
use crate::error::Operation;
use crate::ldb::{check_defers, checked, looked_up, lookup_defers, opened, Ldb, LdbView};
use crate::native::{Call, CallView, Release, Reply, ReplyView};
use crate::options::LdbOptions;
use crate::scope::Scope;
use vstd::pervasive::unreached;
use vstd::prelude::*;

verus! {

/// Where a session stands between its beginning and its end.
#[derive(Debug)]
pub enum Session {
    /// No database is open yet.
    Uninitialized,
    /// The database is open.
    Open(Ldb),
    /// The database has been closed. Nothing follows.
    Closed,
}

/// The mathematical value of a [`Session`].
pub enum SessionView {
    Uninitialized,
    Open(LdbView),
    Closed,
}

impl View for Session {
    type V = SessionView;

    open spec fn view(&self) -> SessionView {
        match self {
            Session::Uninitialized => SessionView::Uninitialized,
            Session::Open(ldb) => SessionView::Open(ldb@),
            Session::Closed => SessionView::Closed,
        }
    }
}

/// The call whose reply the session waits for.
#[derive(Clone, Copy, Debug, PartialEq, Eq)]
pub enum Progress {
    /// None: the session is at rest.
    Idle,
    /// `OptionsCreate`, for an open.
    CreatingOptions,
    /// `OptionsSetCreateIfMissing` on these options.
    ConfiguringOptions { options: LdbOptions },
    /// `Open`.
    Opening,
    /// `WriteOptionsCreate`, for a write.
    CreatingWriteOptions,
    /// `WriteBatchCreate`.
    CreatingBatch { write_options: usize },
    /// `WriteBatchPut` on this batch.
    Staging { write_options: usize, batch: WriteBatch },
    /// `Write`.
    Applying,
    /// `ReadOptionsCreate`, for a lookup.
    CreatingReadOptions,
    /// `Get`.
    Getting,
    /// A release at the end of an operation.
    Releasing,
    /// `Close`.
    Closing,
}

/// The mathematical value of a [`Database`].
pub struct DatabaseView {
    /// Where the session stands.
    pub session: SessionView,
    /// The call whose reply is awaited.
    pub progress: Progress,
    /// The path of an open that has not made its `Open` call yet.
    pub path: Seq<u8>,
    /// The key of a write or lookup that has not handed it to the engine yet.
    pub key: Seq<u8>,
    /// The value of a write that has not handed it to the engine yet.
    pub value: Seq<u8>,
    /// The releases that the operation under way owes at its end.
    pub scope: Seq<Release>,
    /// The result of the operation under way, once it is decided.
    pub outcome: Option<CompletionView>,
}

impl DatabaseView {
    /// A session that has just begun to open the database at `path`.
    pub open spec fn opening(path: Seq<u8>) -> DatabaseView {
        DatabaseView {
            session: SessionView::Uninitialized,
            progress: Progress::CreatingOptions,
            path,
            key: Seq::empty(),
            value: Seq::empty(),
            scope: Seq::empty(),
            outcome: None,
        }
    }

    /// The session is open and at rest: a write, a lookup or the close
    /// can begin.
    pub open spec fn ready(self) -> bool {
        &&& self.session is Open
        &&& self.progress is Idle
    }

    /// Whether the path of an open waits for its `Open` call.
    pub open spec fn path_waits(self) -> bool {
        self.progress is CreatingOptions || self.progress is ConfiguringOptions
            || self.progress is Opening
    }

    /// Whether the key of a write or of a lookup waits for its call.
    pub open spec fn key_waits(self) -> bool {
        self.progress is CreatingWriteOptions || self.progress is CreatingBatch
            || self.progress is CreatingReadOptions
    }

    /// Whether the value of a write waits for its call.
    pub open spec fn value_waits(self) -> bool {
        self.progress is CreatingWriteOptions || self.progress is CreatingBatch
    }

    /// Whether all that the operation under way holds exists: nothing
    /// that it owes, and no object that it works with, lies at the null
    /// address.
    pub open spec fn holds_what_exists(self) -> bool {
        &&& forall|i: int| 0 <= i < self.scope.len() ==> (#[trigger] self.scope[i]).address() != 0
        &&& match self.progress {
            Progress::ConfiguringOptions { options } => options.wf(),
            Progress::CreatingBatch { write_options } => write_options != 0,
            Progress::Staging { write_options, batch } => write_options != 0 && batch.wf(),
            _ => true,
        }
    }

    /// What holds of a session between any two steps: an open database
    /// exists and its error slot is empty; all that the operation under
    /// way holds exists; at rest nothing is owed; every operation runs in
    /// the state of the session that permits it; releases at the end of
    /// an operation follow a decided result; and the session keeps no
    /// argument that it has handed on.
    pub open spec fn wf(self) -> bool {
        &&& self.session matches SessionView::Open(ldb) ==> ldb.wf()
        &&& self.holds_what_exists()
        &&& self.path_waits() || self.path.len() == 0
        &&& self.key_waits() || self.key.len() == 0
        &&& self.value_waits() || self.value.len() == 0
        &&& match self.progress {
            Progress::Idle => self.scope.len() == 0 && self.outcome is None,
            Progress::CreatingOptions | Progress::ConfiguringOptions { .. } | Progress::Opening => {
                self.session is Uninitialized && self.outcome is None
            },
            Progress::CreatingWriteOptions
            | Progress::CreatingBatch { .. }
            | Progress::Staging { .. }
            | Progress::Applying
            | Progress::CreatingReadOptions
            | Progress::Getting => self.session is Open && self.outcome is None,
            Progress::Releasing => self.outcome is Some,
            Progress::Closing => {
                self.session is Closed && self.scope.len() == 0 && self.outcome is None
            },
        }
    }

    /// Whether `reply` can be the reply to the call that the session
    /// waits for: it has the form of that call's result, and it is one
    /// that the engine's interface can give.
    pub open spec fn accepts(self, reply: ReplyView) -> bool {
        &&& reply.wf()
        &&& match self.progress {
            Progress::Idle => false,
            Progress::CreatingOptions
            | Progress::CreatingWriteOptions
            | Progress::CreatingBatch { .. }
            | Progress::CreatingReadOptions => reply is Object,
            Progress::ConfiguringOptions { .. }
            | Progress::Staging { .. }
            | Progress::Releasing
            | Progress::Closing => reply is Returned,
            Progress::Opening => reply is Opened,
            Progress::Applying => reply is Written,
            Progress::Getting => reply is Fetched,
        }
    }

    /// The address of the open database.
    pub open spec fn database(self) -> usize
        recommends
            self.session is Open,
    {
        self.session->Open_0.handle
    }

    /// The session at the start of a write of `value` under `key`.
    pub open spec fn begin_write(self, key: Seq<u8>, value: Seq<u8>) -> DatabaseView
        recommends
            self.ready(),
    {
        DatabaseView { progress: Progress::CreatingWriteOptions, key, value, ..self }
    }

    /// The session at the start of a lookup of `key`.
    pub open spec fn begin_read(self, key: Seq<u8>) -> DatabaseView
        recommends
            self.ready(),
    {
        DatabaseView { progress: Progress::CreatingReadOptions, key, ..self }
    }

    /// The session at the start of its close: the database is given up.
    pub open spec fn begin_close(self) -> DatabaseView
        recommends
            self.ready(),
    {
        DatabaseView { session: SessionView::Closed, progress: Progress::Closing, ..self }
    }

    /// The end of an operation whose result is decided: while a release
    /// is owed, the one put off last is called for; when none is left,
    /// the session comes to rest and hands the result out.
    pub open spec fn unwind(self) -> (DatabaseView, StepView)
        recommends
            self.outcome is Some,
    {
        if self.scope.len() > 0 {
            (
                DatabaseView {
                    progress: Progress::Releasing,
                    scope: self.scope.drop_last(),
                    ..self
                },
                StepView::Call(self.scope.last().call_view()),
            )
        } else {
            (
                DatabaseView { progress: Progress::Idle, outcome: None, ..self },
                StepView::Done(self.outcome->0),
            )
        }
    }

    /// The session after `reply`, and what it asks for next.
    ///
    /// An open allocates the options, sets the creation policy, opens,
    /// and releases the options whether or not the engine opened the
    /// database. A write allocates write options and a batch, stages the
    /// one pair, applies the batch and looks at the error slot. A lookup
    /// allocates read options, gets the value and looks at the error slot
    /// first. Whatever an operation allocates it owes from that moment
    /// on, and releases at its end.
    pub open spec fn resume(self, reply: ReplyView) -> (DatabaseView, StepView)
        recommends
            self.wf(),
            self.accepts(reply),
    {
        match self.progress {
            // At rest no reply is awaited, and `accepts` admits none.
            Progress::Idle => (self, arbitrary()),
            Progress::CreatingOptions => {
                let options = LdbOptions { handle: reply->Object_handle };
                (
                    DatabaseView {
                        progress: Progress::ConfiguringOptions { options },
                        scope: self.scope.push(Release::Options(options.handle)),
                        ..self
                    },
                    StepView::Call(
                        CallView::OptionsSetCreateIfMissing {
                            options: options.handle,
                            enabled: LdbOptions::create_if_missing_spec(),
                        },
                    ),
                )
            },
            Progress::ConfiguringOptions { options } => (
                DatabaseView { progress: Progress::Opening, ..self },
                StepView::Call(CallView::Open { options: options.handle, path: self.path }),
            ),
            Progress::Opening => {
                let error = reply->Opened_error;
                let result = opened(self.path, reply->Opened_database, error);
                DatabaseView {
                    session: match result {
                        Ok(ldb) => SessionView::Open(ldb),
                        Err(_) => self.session,
                    },
                    path: Seq::empty(),
                    scope: self.scope + check_defers(error),
                    outcome: Some(
                        CompletionView::Opened(
                            match result {
                                Ok(_) => Ok(()),
                                Err(failure) => Err(failure),
                            },
                        ),
                    ),
                    ..self
                }.unwind()
            },
            Progress::CreatingWriteOptions => {
                let write_options = reply->Object_handle;
                (
                    DatabaseView {
                        progress: Progress::CreatingBatch { write_options },
                        scope: self.scope.push(Release::WriteOptions(write_options)),
                        ..self
                    },
                    StepView::Call(CallView::WriteBatchCreate),
                )
            },
            Progress::CreatingBatch { write_options } => {
                let batch = WriteBatch { handle: reply->Object_handle };
                (
                    DatabaseView {
                        progress: Progress::Staging { write_options, batch },
                        key: Seq::empty(),
                        value: Seq::empty(),
                        scope: self.scope.push(Release::WriteBatch(batch.handle)),
                        ..self
                    },
                    StepView::Call(
                        CallView::WriteBatchPut {
                            batch: batch.handle,
                            key: self.key,
                            value: self.value,
                        },
                    ),
                )
            },
            Progress::Staging { write_options, batch } => (
                DatabaseView { progress: Progress::Applying, ..self },
                StepView::Call(
                    CallView::Write {
                        database: self.database(),
                        options: write_options,
                        batch: batch.handle,
                    },
                ),
            ),
            Progress::Applying => {
                let error = reply->Written_error;
                DatabaseView {
                    scope: self.scope + check_defers(error),
                    outcome: Some(CompletionView::Written(checked(error, Operation::Write))),
                    ..self
                }.unwind()
            },
            Progress::CreatingReadOptions => {
                let read_options = reply->Object_handle;
                (
                    DatabaseView {
                        progress: Progress::Getting,
                        key: Seq::empty(),
                        scope: self.scope.push(Release::ReadOptions(read_options)),
                        ..self
                    },
                    StepView::Call(
                        CallView::Get {
                            database: self.database(),
                            options: read_options,
                            key: self.key,
                        },
                    ),
                )
            },
            Progress::Getting => {
                let value = reply->Fetched_value;
                let error = reply->Fetched_error;
                DatabaseView {
                    scope: self.scope + lookup_defers(value, error),
                    outcome: Some(CompletionView::Read(looked_up(value, error))),
                    ..self
                }.unwind()
            },
            Progress::Releasing => self.unwind(),
            Progress::Closing => (
                DatabaseView { progress: Progress::Idle, ..self },
                StepView::Done(CompletionView::Closed),
            ),
        }
    }
}

/// A scope of things that exist, grown by things that exist, is one.
proof fn lemma_scope_grows(scope: Seq<Release>, deferred: Seq<Release>)
    requires
        forall|i: int| 0 <= i < scope.len() ==> (#[trigger] scope[i]).address() != 0,
        forall|i: int| 0 <= i < deferred.len() ==> (#[trigger] deferred[i]).address() != 0,
    ensures
        forall|i: int|
            0 <= i < (scope + deferred).len() ==> (#[trigger] (scope + deferred)[i]).address()
                != 0,
{
}

/// One session with the engine: the database at one path from open to
/// close, its error slot, and the operation that is under way.
#[derive(Debug)]
pub struct Database {
    session: Session,
    progress: Progress,
    path: Vec<u8>,
    key: Vec<u8>,
    value: Vec<u8>,
    scope: Scope,
    outcome: Option<Completion>,
}

impl View for Database {
    type V = DatabaseView;

    closed spec fn view(&self) -> DatabaseView {
        DatabaseView {
            session: self.session@,
            progress: self.progress,
            path: self.path@,
            key: self.key@,
            value: self.value@,
            scope: self.scope@,
            outcome: outcome_view(self.outcome),
        }
    }
}

impl Database {
    /// Begins a session on the database at `path`, which the engine
    /// creates if it does not exist. The session starts with an empty
    /// error slot and asks for the options first.
    ///
    /// The operation ends with `Completion::Opened`: `Ok` with the
    /// session open, or `OpenFailed` with no database open and nothing
    /// left allocated.
    pub fn open_or_create(path: Vec<u8>) -> (begun: (Database, Call))
        ensures
            begun.0@ == DatabaseView::opening(path@),
            begun.0@.wf(),
            begun.1@ == CallView::OptionsCreate,
    {
        let database = Database {
            session: Session::Uninitialized,
            progress: Progress::CreatingOptions,
            path,
            key: Vec::new(),
            value: Vec::new(),
            scope: Scope::new(),
            outcome: None,
        };
        (database, Call::OptionsCreate)
    }

    /// Begins the write of one pair. Key and value are byte strings of
    /// any content.
    ///
    /// The operation ends with `Completion::Written`: `Ok`, or
    /// `WriteFailed` with the engine's text.
    pub fn write(&mut self, key: Vec<u8>, value: Vec<u8>) -> (call: Call)
        requires
            old(self)@.wf(),
            old(self)@.ready(),
        ensures
            final(self)@ == old(self)@.begin_write(key@, value@),
            final(self)@.wf(),
            call@ == CallView::WriteOptionsCreate,
    {
        self.key = key;
        self.value = value;
        self.progress = Progress::CreatingWriteOptions;
        Call::WriteOptionsCreate
    }

    /// Begins the lookup of `key`.
    ///
    /// The operation ends with `Completion::Read`: the value, `None` if
    /// the engine holds no record of the key, or `ReadFailed` with the
    /// engine's text.
    pub fn read(&mut self, key: Vec<u8>) -> (call: Call)
        requires
            old(self)@.wf(),
            old(self)@.ready(),
        ensures
            final(self)@ == old(self)@.begin_read(key@),
            final(self)@.wf(),
            call@ == CallView::ReadOptionsCreate,
    {
        self.key = key;
        self.progress = Progress::CreatingReadOptions;
        Call::ReadOptionsCreate
    }

    /// Begins the end of the session: gives the database up and asks for
    /// it to be closed. From here on the session is closed.
    ///
    /// The operation ends with `Completion::Closed`.
    pub fn close(&mut self) -> (call: Call)
        requires
            old(self)@.wf(),
            old(self)@.ready(),
        ensures
            final(self)@ == old(self)@.begin_close(),
            final(self)@.wf(),
            call@ == (CallView::Close { database: old(self)@.database() }),
            call@.wf(),
    {
        let mut session = Session::Closed;
        std::mem::swap(&mut self.session, &mut session);
        self.progress = Progress::Closing;
        match session {
            Session::Open(ldb) => ldb.close(),
            _ => unreached(),
        }
    }

    /// Takes the reply to the call that the session asked for last, and
    /// says what comes next: another call, or the result of the operation.
    pub fn resume(&mut self, reply: Reply) -> (step: Step)
        requires
            old(self)@.wf(),
            old(self)@.accepts(reply@),
        ensures
            (final(self)@, step@) == old(self)@.resume(reply@),
            final(self)@.wf(),
            step matches Step::Call(call) ==> call@.wf(),
    {
        let progress = self.progress;
        match progress {
            Progress::Idle => unreached(),
            Progress::CreatingOptions => {
                let options = match reply {
                    Reply::Object { handle } => LdbOptions::new(handle),
                    _ => unreached(),
                };
                self.scope.defer(options.release());
                self.progress = Progress::ConfiguringOptions { options };
                Step::Call(options.configure())
            },
            Progress::ConfiguringOptions { options } => {
                self.progress = Progress::Opening;
                Step::Call(options.open(self.path.clone()))
            },
            Progress::Opening => {
                let mut path = Vec::new();
                std::mem::swap(&mut self.path, &mut path);
                let result = match reply {
                    Reply::Opened { database, error } => Ldb::new(
                        path,
                        database,
                        error,
                        &mut self.scope,
                    ),
                    _ => unreached(),
                };
                match result {
                    Ok(ldb) => {
                        self.session = Session::Open(ldb);
                        self.outcome = Some(Completion::Opened(Ok(())));
                    },
                    Err(failure) => {
                        self.outcome = Some(Completion::Opened(Err(failure)));
                    },
                }
                proof {
                    lemma_scope_grows(old(self)@.scope, check_defers(reply@->Opened_error));
                }
                self.unwind()
            },
            Progress::CreatingWriteOptions => {
                let write_options = match reply {
                    Reply::Object { handle } => handle,
                    _ => unreached(),
                };
                self.scope.defer(Release::WriteOptions(write_options));
                self.progress = Progress::CreatingBatch { write_options };
                Step::Call(Call::WriteBatchCreate)
            },
            Progress::CreatingBatch { write_options } => {
                let batch = match reply {
                    Reply::Object { handle } => WriteBatch::new(handle),
                    _ => unreached(),
                };
                self.scope.defer(batch.release());
                let mut key = Vec::new();
                let mut value = Vec::new();
                std::mem::swap(&mut self.key, &mut key);
                std::mem::swap(&mut self.value, &mut value);
                self.progress = Progress::Staging { write_options, batch };
                Step::Call(batch.put(key, value))
            },
            Progress::Staging { write_options, batch } => {
                self.progress = Progress::Applying;
                match &self.session {
                    Session::Open(ldb) => Step::Call(ldb.apply(write_options, &batch)),
                    _ => unreached(),
                }
            },
            Progress::Applying => {
                let error = match reply {
                    Reply::Written { error } => error,
                    _ => unreached(),
                };
                let status = match &mut self.session {
                    Session::Open(ldb) => ldb.write(error, &mut self.scope),
                    _ => unreached(),
                };
                self.outcome = Some(Completion::Written(status));
                proof {
                    lemma_scope_grows(old(self)@.scope, check_defers(reply@->Written_error));
                }
                self.unwind()
            },
            Progress::CreatingReadOptions => {
                let read_options = match reply {
                    Reply::Object { handle } => handle,
                    _ => unreached(),
                };
                self.scope.defer(Release::ReadOptions(read_options));
                let mut key = Vec::new();
                std::mem::swap(&mut self.key, &mut key);
                self.progress = Progress::Getting;
                match &self.session {
                    Session::Open(ldb) => Step::Call(ldb.get(read_options, key)),
                    _ => unreached(),
                }
            },
            Progress::Getting => {
                let lookup = match reply {
                    Reply::Fetched { value, error } => match &mut self.session {
                        Session::Open(ldb) => ldb.read(value, error, &mut self.scope),
                        _ => unreached(),
                    },
                    _ => unreached(),
                };
                self.outcome = Some(Completion::Read(lookup));
                proof {
                    lemma_scope_grows(
                        old(self)@.scope,
                        lookup_defers(reply@->Fetched_value, reply@->Fetched_error),
                    );
                }
                self.unwind()
            },
            Progress::Releasing => self.unwind(),
            Progress::Closing => {
                self.progress = Progress::Idle;
                Step::Done(Completion::Closed)
            },
        }
    }

    /// Ends an operation whose result is decided: calls for the release
    /// that was put off last, or, when nothing is owed any more, comes to
    /// rest and hands the result out.
    fn unwind(&mut self) -> (step: Step)
        requires
            old(self)@.outcome is Some,
            old(self)@.holds_what_exists(),
        ensures
            (final(self)@, step@) == old(self)@.unwind(),
            final(self)@.holds_what_exists(),
            step matches Step::Call(call) ==> call@.wf(),
    {
        match self.scope.exit() {
            Some(release) => {
                self.progress = Progress::Releasing;
                Step::Call(release.call())
            },
            None => {
                self.progress = Progress::Idle;
                match self.outcome.take() {
                    Some(completion) => Step::Done(completion),
                    None => unreached(),
                }
            },
        }
    }

    /// Whether `reply` can be the reply to the call that the session
    /// waits for.
    pub fn accepts(&self, reply: &Reply) -> (accepted: bool)
        ensures
            accepted == self@.accepts(reply@),
    {
        reply.is_wf() && match self.progress {
            Progress::Idle => false,
            Progress::CreatingOptions
            | Progress::CreatingWriteOptions
            | Progress::CreatingBatch { .. }
            | Progress::CreatingReadOptions => match reply {
                Reply::Object { .. } => true,
                _ => false,
            },
            Progress::ConfiguringOptions { .. }
            | Progress::Staging { .. }
            | Progress::Releasing
            | Progress::Closing => match reply {
                Reply::Returned => true,
                _ => false,
            },
            Progress::Opening => match reply {
                Reply::Opened { .. } => true,
                _ => false,
            },
            Progress::Applying => match reply {
                Reply::Written { .. } => true,
                _ => false,
            },
            Progress::Getting => match reply {
                Reply::Fetched { .. } => true,
                _ => false,
            },
        }
    }

    /// Whether the database is open.
    pub fn is_open(&self) -> (open: bool)
        ensures
            open == (self@.session is Open),
    {
        match self.session {
            Session::Open(_) => true,
            _ => false,
        }
    }

    /// Whether the database has been closed.
    pub fn is_closed(&self) -> (closed: bool)
        ensures
            closed == (self@.session is Closed),
    {
        match self.session {
            Session::Closed => true,
            _ => false,
        }
    }

    /// Whether no operation is under way.
    pub fn is_idle(&self) -> (idle: bool)
        ensures
            idle == (self@.progress is Idle),
    {
        match self.progress {
            Progress::Idle => true,
            _ => false,
        }
    }

    /// Whether a write, a lookup or the close can begin: the database is
    /// open and no operation is under way.
    pub fn is_ready(&self) -> (ready: bool)
        ensures
            ready == self@.ready(),
    {
        self.is_open() && self.is_idle()
    }

    /// The path of the open database.
    pub fn path(&self) -> (path: Option<&Vec<u8>>)
        ensures
            match path {
                Some(bytes) => self@.session matches SessionView::Open(ldb) && bytes@ == ldb.path,
                None => !(self@.session is Open),
            },
    {
        match &self.session {
            Session::Open(ldb) => Some(ldb.path()),
            _ => None,
        }
    }
}

} // verus!
