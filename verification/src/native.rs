//! The boundary to the engine: the calls that a driver performs for the
//! session and the replies that it hands back.
//!
//! Objects and memory of the engine are named by their address; zero is
//! the null address.

use crate::channel::{slot_view, Diagnostic, DiagnosticView};
use crate::value::{value_view, ValueBuffer, ValueBufferView};
use vstd::prelude::*;

verus! {

/// One call of the engine's interface.
#[derive(Debug, PartialEq, Eq)]
pub enum Call {
    /// Allocate a configuration object.
    OptionsCreate,
    /// Set the creation policy of a configuration object.
    OptionsSetCreateIfMissing { options: usize, enabled: bool },
    /// Destroy a configuration object.
    OptionsDestroy { options: usize },
    /// Open the database at `path`, with an empty error slot.
    Open { options: usize, path: Vec<u8> },
    /// Close a database.
    Close { database: usize },
    /// Allocate write options with the default durability policy.
    WriteOptionsCreate,
    /// Destroy write options.
    WriteOptionsDestroy { options: usize },
    /// Allocate an empty write batch.
    WriteBatchCreate,
    /// Stage one pair in a write batch: the bytes of `key` and of `value`,
    /// each with its length.
    WriteBatchPut { batch: usize, key: Vec<u8>, value: Vec<u8> },
    /// Destroy a write batch.
    WriteBatchDestroy { batch: usize },
    /// Apply a write batch to a database, with an empty error slot.
    Write { database: usize, options: usize, batch: usize },
    /// Allocate read options with the default consistency policy.
    ReadOptionsCreate,
    /// Destroy read options.
    ReadOptionsDestroy { options: usize },
    /// Look `key` up in a database, with an empty error slot.
    Get { database: usize, options: usize, key: Vec<u8> },
    /// Return memory to the engine's allocator.
    Free { address: usize },
}

/// The mathematical value of a [`Call`].
pub enum CallView {
    OptionsCreate,
    OptionsSetCreateIfMissing { options: usize, enabled: bool },
    OptionsDestroy { options: usize },
    Open { options: usize, path: Seq<u8> },
    Close { database: usize },
    WriteOptionsCreate,
    WriteOptionsDestroy { options: usize },
    WriteBatchCreate,
    WriteBatchPut { batch: usize, key: Seq<u8>, value: Seq<u8> },
    WriteBatchDestroy { batch: usize },
    Write { database: usize, options: usize, batch: usize },
    ReadOptionsCreate,
    ReadOptionsDestroy { options: usize },
    Get { database: usize, options: usize, key: Seq<u8> },
    Free { address: usize },
}

impl CallView {
    /// Whether the call names nothing at the null address: the engine is
    /// never handed an object or memory that does not exist.
    pub open spec fn wf(self) -> bool {
        match self {
            CallView::OptionsCreate
            | CallView::WriteOptionsCreate
            | CallView::WriteBatchCreate
            | CallView::ReadOptionsCreate => true,
            CallView::OptionsSetCreateIfMissing { options, .. } => options != 0,
            CallView::OptionsDestroy { options } => options != 0,
            CallView::Open { options, .. } => options != 0,
            CallView::Close { database } => database != 0,
            CallView::WriteOptionsDestroy { options } => options != 0,
            CallView::WriteBatchPut { batch, .. } => batch != 0,
            CallView::WriteBatchDestroy { batch } => batch != 0,
            CallView::Write { database, options, batch } => {
                database != 0 && options != 0 && batch != 0
            },
            CallView::ReadOptionsDestroy { options } => options != 0,
            CallView::Get { database, options, .. } => database != 0 && options != 0,
            CallView::Free { address } => address != 0,
        }
    }
}

impl View for Call {
    type V = CallView;

    open spec fn view(&self) -> CallView {
        match self {
            Call::OptionsCreate => CallView::OptionsCreate,
            Call::OptionsSetCreateIfMissing { options, enabled } => {
                CallView::OptionsSetCreateIfMissing { options: *options, enabled: *enabled }
            },
            Call::OptionsDestroy { options } => CallView::OptionsDestroy { options: *options },
            Call::Open { options, path } => CallView::Open { options: *options, path: path@ },
            Call::Close { database } => CallView::Close { database: *database },
            Call::WriteOptionsCreate => CallView::WriteOptionsCreate,
            Call::WriteOptionsDestroy { options } => {
                CallView::WriteOptionsDestroy { options: *options }
            },
            Call::WriteBatchCreate => CallView::WriteBatchCreate,
            Call::WriteBatchPut { batch, key, value } => {
                CallView::WriteBatchPut { batch: *batch, key: key@, value: value@ }
            },
            Call::WriteBatchDestroy { batch } => CallView::WriteBatchDestroy { batch: *batch },
            Call::Write { database, options, batch } => {
                CallView::Write { database: *database, options: *options, batch: *batch }
            },
            Call::ReadOptionsCreate => CallView::ReadOptionsCreate,
            Call::ReadOptionsDestroy { options } => {
                CallView::ReadOptionsDestroy { options: *options }
            },
            Call::Get { database, options, key } => {
                CallView::Get { database: *database, options: *options, key: key@ }
            },
            Call::Free { address } => CallView::Free { address: *address },
        }
    }
}

/// Something of the engine's that the session holds and has to give back:
/// the release that is due for it. The database is held for the length of
/// the session, everything else for the length of one operation.
#[derive(Clone, Copy, Debug, PartialEq, Eq)]
pub enum Release {
    /// An open database.
    Database(usize),
    /// A configuration object.
    Options(usize),
    /// Write options.
    WriteOptions(usize),
    /// A write batch.
    WriteBatch(usize),
    /// Read options.
    ReadOptions(usize),
    /// Memory from the engine's allocator: a diagnostic or a value.
    Memory(usize),
}

impl Release {
    /// The address of the thing.
    pub open spec fn address(self) -> usize {
        match self {
            Release::Database(address) => address,
            Release::Options(address) => address,
            Release::WriteOptions(address) => address,
            Release::WriteBatch(address) => address,
            Release::ReadOptions(address) => address,
            Release::Memory(address) => address,
        }
    }

    /// The call that gives the thing back, by the routine that matches how
    /// the engine made it.
    pub open spec fn call_view(self) -> CallView {
        match self {
            Release::Database(database) => CallView::Close { database },
            Release::Options(options) => CallView::OptionsDestroy { options },
            Release::WriteOptions(options) => CallView::WriteOptionsDestroy { options },
            Release::WriteBatch(batch) => CallView::WriteBatchDestroy { batch },
            Release::ReadOptions(options) => CallView::ReadOptionsDestroy { options },
            Release::Memory(address) => CallView::Free { address },
        }
    }

    /// The call that gives the thing back.
    pub fn call(self) -> (call: Call)
        ensures
            call@ == self.call_view(),
    {
        match self {
            Release::Database(database) => Call::Close { database },
            Release::Options(options) => Call::OptionsDestroy { options },
            Release::WriteOptions(options) => Call::WriteOptionsDestroy { options },
            Release::WriteBatch(batch) => Call::WriteBatchDestroy { batch },
            Release::ReadOptions(options) => Call::ReadOptionsDestroy { options },
            Release::Memory(address) => Call::Free { address },
        }
    }
}

/// What a call left behind when it returned.
#[derive(Debug, PartialEq, Eq)]
pub enum Reply {
    /// A call without a result has returned.
    Returned,
    /// An allocating call has returned this object.
    Object { handle: usize },
    /// `Open` has returned this database, null if it failed, and has left
    /// this in the error slot.
    Opened { database: usize, error: Option<Diagnostic> },
    /// `Write` has left this in the error slot.
    Written { error: Option<Diagnostic> },
    /// `Get` has returned this range, `None` for null, with as many bytes
    /// as it reported, and has left this in the error slot.
    Fetched { value: Option<ValueBuffer>, error: Option<Diagnostic> },
}

/// The mathematical value of a [`Reply`].
pub enum ReplyView {
    Returned,
    Object { handle: usize },
    Opened { database: usize, error: Option<DiagnosticView> },
    Written { error: Option<DiagnosticView> },
    Fetched { value: Option<ValueBufferView>, error: Option<DiagnosticView> },
}

impl View for Reply {
    type V = ReplyView;

    open spec fn view(&self) -> ReplyView {
        match self {
            Reply::Returned => ReplyView::Returned,
            Reply::Object { handle } => ReplyView::Object { handle: *handle },
            Reply::Opened { database, error } => {
                ReplyView::Opened { database: *database, error: slot_view(*error) }
            },
            Reply::Written { error } => ReplyView::Written { error: slot_view(*error) },
            Reply::Fetched { value, error } => {
                ReplyView::Fetched { value: value_view(*value), error: slot_view(*error) }
            },
        }
    }
}

/// Whether a slot is empty or holds a message at an address other than null.
pub open spec fn slot_wf(slot: Option<DiagnosticView>) -> bool {
    slot matches Some(diagnostic) ==> diagnostic.wf()
}

impl ReplyView {
    /// What the engine's interface promises of every reply: an object, a
    /// message and a value lie at an address other than null, and `Open`
    /// fills the error slot exactly when it returns no database.
    pub open spec fn wf(self) -> bool {
        match self {
            ReplyView::Returned => true,
            ReplyView::Object { handle } => handle != 0,
            ReplyView::Opened { database, error } => {
                &&& slot_wf(error)
                &&& database == 0 <==> error is Some
            },
            ReplyView::Written { error } => slot_wf(error),
            ReplyView::Fetched { value, error } => {
                &&& slot_wf(error)
                &&& value matches Some(buffer) ==> buffer.wf()
            },
        }
    }
}

/// Whether a slot is empty or holds a message at an address other than null.
fn slot_is_wf(slot: &Option<Diagnostic>) -> (wf: bool)
    ensures
        wf == slot_wf(slot_view(*slot)),
{
    match slot {
        Some(diagnostic) => diagnostic.address != 0,
        None => true,
    }
}

impl Reply {
    /// Whether the reply is one that the engine's interface can give.
    pub fn is_wf(&self) -> (wf: bool)
        ensures
            wf == self@.wf(),
    {
        match self {
            Reply::Returned => true,
            Reply::Object { handle } => *handle != 0,
            Reply::Opened { database, error } => {
                slot_is_wf(error) && ((*database == 0) == error.is_some())
            },
            Reply::Written { error } => slot_is_wf(error),
            Reply::Fetched { value, error } => {
                slot_is_wf(error) && match value {
                    Some(buffer) => buffer.address != 0,
                    None => true,
                }
            },
        }
    }
}

} // verus!
