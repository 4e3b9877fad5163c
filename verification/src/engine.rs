//! What a session does together with an engine that keeps its records.
//!
//! The engine is not part of this crate. What is assumed of it here is
//! what a key-value store is: a write of a batch in which one pair was
//! staged stores the value under the key, in place of any value stored
//! before, and a lookup returns the value stored under the key, in a
//! range of its own, or no range if there is none.

use crate::completion::{CompletionView, StepView};
use crate::course::{
    read_events, read_runs_its_course, read_steps, write_events, write_runs_its_course,
};
use crate::database::DatabaseView;
use crate::native::CallView;
use crate::value::ValueBufferView;
use vstd::prelude::*;

verus! {

/// The records of an engine after the write of a batch in which the one
/// pair was staged.
pub open spec fn written(records: Map<Seq<u8>, Seq<u8>>, key: Seq<u8>, value: Seq<u8>) -> Map<
    Seq<u8>,
    Seq<u8>,
> {
    records.insert(key, value)
}

/// What the lookup of `key` returns from an engine with these records:
/// the value stored under the key, in a range at `address`, or no range.
pub open spec fn fetched(records: Map<Seq<u8>, Seq<u8>>, key: Seq<u8>, address: usize) -> Option<
    ValueBufferView,
> {
    if records.dom().contains(key) {
        Some(ValueBufferView { address, bytes: records[key] })
    } else {
        None
    }
}

/// A value that has been written is the value that is read: the write
/// stages exactly the bytes given, under exactly the key given, and the
/// lookup of that key ends with exactly these bytes, whatever the engine
/// held before. The value has at least one byte.
pub proof fn written_value_is_read_back(
    database: DatabaseView,
    records: Map<Seq<u8>, Seq<u8>>,
    key: Seq<u8>,
    value: Seq<u8>,
    write_options: usize,
    batch: usize,
    read_options: usize,
    address: usize,
)
    requires
        database.wf(),
        database.ready(),
        value.len() > 0,
        write_options != 0,
        batch != 0,
        read_options != 0,
        address != 0,
    ensures
        ({
            let write = write_events(key, value, write_options, batch, None);
            let read = read_events(
                key,
                read_options,
                fetched(written(records, key, value), key, address),
                None,
            );
            &&& database.permits_all(write)
            &&& database.steps(write)[2] == StepView::Call(
                CallView::WriteBatchPut { batch, key, value },
            )
            &&& database.steps(write).last() == StepView::Done(CompletionView::Written(Ok(())))
            &&& database.run(write).permits_all(read)
            &&& database.run(write).steps(read)[1] == StepView::Call(
                CallView::Get { database: database.database(), options: read_options, key },
            )
            &&& database.run(write).steps(read).last() == StepView::Done(
                CompletionView::Read(Ok(Some(ValueBufferView { address, bytes: value }))),
            )
        }),
{
    write_runs_its_course(database, key, value, write_options, batch, None);
    read_runs_its_course(
        database,
        key,
        read_options,
        fetched(written(records, key, value), key, address),
        None,
    );
}

/// A key that was never written reads as absent, and that is no error.
pub proof fn unwritten_key_reads_absent(
    database: DatabaseView,
    records: Map<Seq<u8>, Seq<u8>>,
    key: Seq<u8>,
    read_options: usize,
    address: usize,
)
    requires
        database.wf(),
        database.ready(),
        !records.dom().contains(key),
        read_options != 0,
    ensures
        ({
            let read = read_events(key, read_options, fetched(records, key, address), None);
            &&& database.permits_all(read)
            &&& database.steps(read).last() == StepView::Done(CompletionView::Read(Ok(None)))
        }),
{
    read_runs_its_course(database, key, read_options, fetched(records, key, address), None);
}

/// Of two values written under one key, the one written last is read.
/// It has at least one byte.
pub proof fn last_write_wins(
    database: DatabaseView,
    records: Map<Seq<u8>, Seq<u8>>,
    key: Seq<u8>,
    first: Seq<u8>,
    second: Seq<u8>,
    read_options: usize,
    address: usize,
)
    requires
        database.wf(),
        database.ready(),
        second.len() > 0,
        read_options != 0,
        address != 0,
    ensures
        ({
            let twice = written(written(records, key, first), key, second);
            let read = read_events(key, read_options, fetched(twice, key, address), None);
            &&& database.permits_all(read)
            &&& database.steps(read).last() == StepView::Done(
                CompletionView::Read(Ok(Some(ValueBufferView { address, bytes: second }))),
            )
        }),
{
    let twice = written(written(records, key, first), key, second);
    read_runs_its_course(database, key, read_options, fetched(twice, key, address), None);
}

/// A key written with a value of no bytes reads as absent: a range of no
/// bytes is the sign that there is no record. The session frees the
/// range, which the caller does not get.
pub proof fn empty_value_reads_absent(
    database: DatabaseView,
    records: Map<Seq<u8>, Seq<u8>>,
    key: Seq<u8>,
    read_options: usize,
    address: usize,
)
    requires
        database.wf(),
        database.ready(),
        read_options != 0,
        address != 0,
    ensures
        ({
            let stored = fetched(written(records, key, Seq::empty()), key, address);
            let read = read_events(key, read_options, stored, None);
            &&& database.permits_all(read)
            &&& database.steps(read) == seq![
                StepView::Call(CallView::ReadOptionsCreate),
                StepView::Call(
                    CallView::Get { database: database.database(), options: read_options, key },
                ),
                StepView::Call(CallView::Free { address }),
                StepView::Call(CallView::ReadOptionsDestroy { options: read_options }),
                StepView::Done(CompletionView::Read(Ok(None))),
            ]
        }),
{
    let stored = fetched(written(records, key, Seq::empty()), key, address);
    read_runs_its_course(database, key, read_options, stored, None);
    assert(read_steps(database.database(), key, read_options, stored, None) =~= seq![
        StepView::Call(CallView::ReadOptionsCreate),
        StepView::Call(
            CallView::Get { database: database.database(), options: read_options, key },
        ),
        StepView::Call(CallView::Free { address }),
        StepView::Call(CallView::ReadOptionsDestroy { options: read_options }),
        StepView::Done(CompletionView::Read(Ok(None))),
    ]);
}

} // verus!
