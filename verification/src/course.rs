//! The course of each operation: the calls that it makes, in their order,
//! for every reply that the engine can give, and the result that it ends
//! with.

use crate::channel::DiagnosticView;
use crate::completion::{CompletionView, StepView};
use crate::database::{DatabaseView, Progress, SessionView};
use crate::error::{EngineErrorView, Operation};
use crate::events::{run_in_two_parts, Event};
use crate::ldb::{check_defers, checked, looked_up, lookup_defers, opened, LdbView};
use crate::native::{slot_wf, CallView, Release, ReplyView};
use crate::options::LdbOptions;
use crate::value::ValueBufferView;
use vstd::prelude::*;

verus! {

/// The replies to `count` calls without a result.
pub open spec fn returned(count: nat) -> Seq<Event> {
    Seq::new(count, |i: int| Event::Reply(ReplyView::Returned))
}

/// The calls that give back what is `owed`, the last entry first.
pub open spec fn releases(owed: Seq<Release>) -> Seq<StepView> {
    Seq::new(owed.len(), |i: int| StepView::Call(owed[owed.len() - 1 - i].call_view()))
}

/// The result of an open call that left `error` in the slot.
pub open spec fn open_result(error: Option<DiagnosticView>) -> Result<(), EngineErrorView> {
    checked(error, Operation::Open)
}

/// What happens to a session that opens a database: the engine returns
/// the `options`, sets the policy, returns `database` from the open call
/// with `error` in the slot, and carries out the releases.
pub open spec fn open_events(options: usize, database: usize, error: Option<DiagnosticView>) -> Seq<
    Event,
> {
    seq![
        Event::Reply(ReplyView::Object { handle: options }),
        Event::Reply(ReplyView::Returned),
        Event::Reply(ReplyView::Opened { database, error }),
    ] + returned(1 + check_defers(error).len())
}

/// What an open asks for after its first call, `OptionsCreate`: to set
/// the policy, to open, to free the message if there is one, to destroy
/// the options, and then nothing more.
pub open spec fn open_steps(path: Seq<u8>, options: usize, error: Option<DiagnosticView>) -> Seq<
    StepView,
> {
    seq![
        StepView::Call(
            CallView::OptionsSetCreateIfMissing {
                options,
                enabled: LdbOptions::create_if_missing_spec(),
            },
        ),
        StepView::Call(CallView::Open { options, path }),
    ] + releases(seq![Release::Options(options)] + check_defers(error)) + seq![
        StepView::Done(CompletionView::Opened(open_result(error))),
    ]
}

/// What happens to a session that writes a pair: the engine returns the
/// `write_options` and the `batch`, stages the pair, leaves `error` in
/// the slot of the write, and carries out the releases.
pub open spec fn write_events(
    key: Seq<u8>,
    value: Seq<u8>,
    write_options: usize,
    batch: usize,
    error: Option<DiagnosticView>,
) -> Seq<Event> {
    seq![
        Event::Write { key, value },
        Event::Reply(ReplyView::Object { handle: write_options }),
        Event::Reply(ReplyView::Object { handle: batch }),
        Event::Reply(ReplyView::Returned),
        Event::Reply(ReplyView::Written { error }),
    ] + returned(2 + check_defers(error).len())
}

/// What a write asks for: write options, a batch, the one pair staged
/// in it with the bytes given, the batch applied to the database, the
/// message freed if there is one, batch and options destroyed, and then
/// nothing more.
pub open spec fn write_steps(
    database: usize,
    key: Seq<u8>,
    value: Seq<u8>,
    write_options: usize,
    batch: usize,
    error: Option<DiagnosticView>,
) -> Seq<StepView> {
    seq![
        StepView::Call(CallView::WriteOptionsCreate),
        StepView::Call(CallView::WriteBatchCreate),
        StepView::Call(CallView::WriteBatchPut { batch, key, value }),
        StepView::Call(CallView::Write { database, options: write_options, batch }),
    ] + releases(
        seq![Release::WriteOptions(write_options), Release::WriteBatch(batch)] + check_defers(
            error,
        ),
    ) + seq![StepView::Done(CompletionView::Written(checked(error, Operation::Write)))]
}

/// What happens to a session that looks a key up: the engine returns the
/// `read_options`, returns `value` from the lookup with `error` in the
/// slot, and carries out the releases.
pub open spec fn read_events(
    key: Seq<u8>,
    read_options: usize,
    value: Option<ValueBufferView>,
    error: Option<DiagnosticView>,
) -> Seq<Event> {
    seq![
        Event::Read { key },
        Event::Reply(ReplyView::Object { handle: read_options }),
        Event::Reply(ReplyView::Fetched { value, error }),
    ] + returned(1 + lookup_defers(value, error).len())
}

/// What a lookup asks for: read options, the value of the key with the
/// bytes given, a range freed that the caller does not get, the message
/// freed if there is one, the options destroyed, and then nothing more.
pub open spec fn read_steps(
    database: usize,
    key: Seq<u8>,
    read_options: usize,
    value: Option<ValueBufferView>,
    error: Option<DiagnosticView>,
) -> Seq<StepView> {
    seq![
        StepView::Call(CallView::ReadOptionsCreate),
        StepView::Call(CallView::Get { database, options: read_options, key }),
    ] + releases(seq![Release::ReadOptions(read_options)] + lookup_defers(value, error)) + seq![
        StepView::Done(CompletionView::Read(looked_up(value, error))),
    ]
}

/// The end of an operation gives back all that is owed, last in, first
/// out, then hands the result out and leaves the session at rest.
pub proof fn end_releases_all(database: DatabaseView)
    requires
        database.outcome is Some,
    ensures
        database.unwind().0.permits_all(returned(database.scope.len())),
        seq![database.unwind().1] + database.unwind().0.steps(returned(database.scope.len()))
            == releases(database.scope) + seq![StepView::Done(database.outcome->0)],
        database.unwind().0.run(returned(database.scope.len())) == (DatabaseView {
            progress: Progress::Idle,
            scope: Seq::empty(),
            outcome: None,
            ..database
        }),
    decreases database.scope.len(),
{
    let (next, step) = database.unwind();
    let events = returned(database.scope.len());
    let done = seq![StepView::Done(database.outcome->0)];
    if database.scope.len() == 0 {
        assert(database.scope =~= Seq::empty());
        assert(seq![step] + next.steps(events) =~= releases(database.scope) + done);
    } else {
        let rest = returned(next.scope.len());
        assert(events.drop_first() =~= rest);
        assert(next.advance(events[0]) == next.unwind());
        end_releases_all(next);
        let after = next.unwind().0;
        assert(next.steps(events) == seq![next.unwind().1] + after.steps(rest));
        assert(releases(database.scope) =~= seq![step] + releases(next.scope));
        assert(seq![step] + next.steps(events) =~= releases(database.scope) + done);
    }
}

/// The course of an open: for every reply that the engine can give, the
/// session asks for the calls of [`open_steps`], in that order, and ends
/// open on the database returned, or not open with `OpenFailed` and the
/// engine's text. Either way the options are destroyed, and a message is
/// freed.
pub proof fn open_runs_its_course(
    path: Seq<u8>,
    options: usize,
    database: usize,
    error: Option<DiagnosticView>,
)
    requires
        options != 0,
        slot_wf(error),
        database == 0 <==> error is Some,
    ensures
        DatabaseView::opening(path).permits_all(open_events(options, database, error)),
        DatabaseView::opening(path).steps(open_events(options, database, error)) == open_steps(
            path,
            options,
            error,
        ),
        DatabaseView::opening(path).run(open_events(options, database, error))
            == (DatabaseView {
            session: match error {
                None => SessionView::Open(LdbView { handle: database, path, channel: None }),
                Some(_) => SessionView::Uninitialized,
            },
            progress: Progress::Idle,
            path: Seq::empty(),
            ..DatabaseView::opening(path)
        }),
{
    let begun = DatabaseView::opening(path);
    let head = seq![
        Event::Reply(ReplyView::Object { handle: options }),
        Event::Reply(ReplyView::Returned),
        Event::Reply(ReplyView::Opened { database, error }),
    ];
    let owed = seq![Release::Options(options)] + check_defers(error);
    let tail = returned(1 + check_defers(error).len());
    let (first, asked_first) = begun.advance(head[0]);
    let (second, asked_second) = first.advance(head[1]);
    let result = opened(path, database, error);
    let decided = DatabaseView {
        session: match result {
            Ok(ldb) => SessionView::Open(ldb),
            Err(_) => second.session,
        },
        path: Seq::empty(),
        scope: second.scope + check_defers(error),
        outcome: Some(CompletionView::Opened(open_result(error))),
        ..second
    };
    assert(second.advance(head[2]) == decided.unwind());
    assert(decided.scope =~= owed);
    assert(tail =~= returned(decided.scope.len()));
    end_releases_all(decided);
    let third = decided.unwind().0;
    assert(head.drop_first() =~= seq![head[1], head[2]]);
    assert(head.drop_first().drop_first() =~= seq![head[2]]);
    assert(head.drop_first().drop_first().drop_first() =~= Seq::<Event>::empty());
    reveal_with_fuel(DatabaseView::permits_all, 4);
    reveal_with_fuel(DatabaseView::run, 4);
    reveal_with_fuel(DatabaseView::steps, 4);
    assert(begun.permits_all(head));
    assert(begun.run(head) == third);
    assert(begun.steps(head) =~= seq![asked_first, asked_second, decided.unwind().1]);
    run_in_two_parts(begun, head, tail);
    assert(begun.steps(head + tail) =~= open_steps(path, options, error));
}

/// An open that succeeds leaves the error slot empty, and an open that
/// fails has found a message in it: the open ends with `Ok` exactly if
/// the engine left the slot empty, and the session is then open with an
/// empty slot; it ends with `OpenFailed` and the engine's text exactly if
/// the engine left a message, and no database is then open.
pub proof fn open_fills_the_slot_exactly_on_failure(
    path: Seq<u8>,
    options: usize,
    database: usize,
    error: Option<DiagnosticView>,
)
    requires
        options != 0,
        slot_wf(error),
        database == 0 <==> error is Some,
    ensures
        ({
            let events = open_events(options, database, error);
            let ended = DatabaseView::opening(path).run(events);
            let result = DatabaseView::opening(path).steps(events).last();
            &&& result == StepView::Done(CompletionView::Opened(Ok(()))) <==> error is None
            &&& error is None ==> ended.session == SessionView::Open(
                LdbView { handle: database, path, channel: None },
            )
            &&& error matches Some(diagnostic) ==> result == StepView::Done(
                CompletionView::Opened(Err(EngineErrorView::OpenFailed(diagnostic.text))),
            ) && ended.session is Uninitialized
        }),
{
    open_runs_its_course(path, options, database, error);
}

/// The course of a write: for every reply that the engine can give, the
/// session asks for the calls of [`write_steps`], in that order, and ends
/// as it began, with `Ok` exactly if the write left the slot empty, else
/// with `WriteFailed` and the engine's text. Either way batch and options
/// are destroyed, and a message is freed.
pub proof fn write_runs_its_course(
    database: DatabaseView,
    key: Seq<u8>,
    value: Seq<u8>,
    write_options: usize,
    batch: usize,
    error: Option<DiagnosticView>,
)
    requires
        database.wf(),
        database.ready(),
        write_options != 0,
        batch != 0,
        slot_wf(error),
    ensures
        database.permits_all(write_events(key, value, write_options, batch, error)),
        database.steps(write_events(key, value, write_options, batch, error)) == write_steps(
            database.database(),
            key,
            value,
            write_options,
            batch,
            error,
        ),
        database.run(write_events(key, value, write_options, batch, error)) == database,
{
    let head = seq![
        Event::Write { key, value },
        Event::Reply(ReplyView::Object { handle: write_options }),
        Event::Reply(ReplyView::Object { handle: batch }),
        Event::Reply(ReplyView::Returned),
        Event::Reply(ReplyView::Written { error }),
    ];
    let owed = seq![Release::WriteOptions(write_options), Release::WriteBatch(batch)]
        + check_defers(error);
    let tail = returned(2 + check_defers(error).len());
    let (first, asked_first) = database.advance(head[0]);
    let (second, asked_second) = first.advance(head[1]);
    let (third, asked_third) = second.advance(head[2]);
    let (fourth, asked_fourth) = third.advance(head[3]);
    let decided = DatabaseView {
        scope: fourth.scope + check_defers(error),
        outcome: Some(CompletionView::Written(checked(error, Operation::Write))),
        ..fourth
    };
    assert(fourth.advance(head[4]) == decided.unwind());
    assert(database.scope =~= Seq::empty());
    assert(decided.scope =~= owed);
    assert(tail =~= returned(decided.scope.len()));
    end_releases_all(decided);
    let fifth = decided.unwind().0;
    let one = head.drop_first();
    let two = one.drop_first();
    let three = two.drop_first();
    let four = three.drop_first();
    assert(one =~= seq![head[1], head[2], head[3], head[4]]);
    assert(two =~= seq![head[2], head[3], head[4]]);
    assert(three =~= seq![head[3], head[4]]);
    assert(four =~= seq![head[4]]);
    assert(four.drop_first() =~= Seq::<Event>::empty());
    reveal_with_fuel(DatabaseView::permits_all, 6);
    reveal_with_fuel(DatabaseView::run, 6);
    reveal_with_fuel(DatabaseView::steps, 6);
    assert(database.permits_all(head));
    assert(database.run(head) == fifth);
    assert(database.steps(head) =~= seq![
        asked_first,
        asked_second,
        asked_third,
        asked_fourth,
        decided.unwind().1,
    ]);
    run_in_two_parts(database, head, tail);
    assert(database.steps(head + tail) =~= write_steps(
        database.database(),
        key,
        value,
        write_options,
        batch,
        error,
    ));
    assert(database.key =~= Seq::empty());
    assert(database.value =~= Seq::empty());
    assert(database.run(head + tail) == database);
}

/// The course of a lookup: for every reply that the engine can give, the
/// session asks for the calls of [`read_steps`], in that order, and ends
/// as it began, with the result that [`looked_up`] names. A range that
/// the caller does not get is freed, a message is freed, and the options
/// are destroyed; a value that the caller gets is not freed.
pub proof fn read_runs_its_course(
    database: DatabaseView,
    key: Seq<u8>,
    read_options: usize,
    value: Option<ValueBufferView>,
    error: Option<DiagnosticView>,
)
    requires
        database.wf(),
        database.ready(),
        read_options != 0,
        (ReplyView::Fetched { value, error }).wf(),
    ensures
        database.permits_all(read_events(key, read_options, value, error)),
        database.steps(read_events(key, read_options, value, error)) == read_steps(
            database.database(),
            key,
            read_options,
            value,
            error,
        ),
        database.run(read_events(key, read_options, value, error)) == database,
{
    let head = seq![
        Event::Read { key },
        Event::Reply(ReplyView::Object { handle: read_options }),
        Event::Reply(ReplyView::Fetched { value, error }),
    ];
    let owed = seq![Release::ReadOptions(read_options)] + lookup_defers(value, error);
    let tail = returned(1 + lookup_defers(value, error).len());
    let (first, asked_first) = database.advance(head[0]);
    let (second, asked_second) = first.advance(head[1]);
    let decided = DatabaseView {
        scope: second.scope + lookup_defers(value, error),
        outcome: Some(CompletionView::Read(looked_up(value, error))),
        ..second
    };
    assert(second.advance(head[2]) == decided.unwind());
    assert(database.scope =~= Seq::empty());
    assert(decided.scope =~= owed);
    assert(tail =~= returned(decided.scope.len()));
    end_releases_all(decided);
    let third = decided.unwind().0;
    assert(head.drop_first() =~= seq![head[1], head[2]]);
    assert(head.drop_first().drop_first() =~= seq![head[2]]);
    assert(head.drop_first().drop_first().drop_first() =~= Seq::<Event>::empty());
    reveal_with_fuel(DatabaseView::permits_all, 4);
    reveal_with_fuel(DatabaseView::run, 4);
    reveal_with_fuel(DatabaseView::steps, 4);
    assert(database.permits_all(head));
    assert(database.run(head) == third);
    assert(database.steps(head) =~= seq![asked_first, asked_second, decided.unwind().1]);
    run_in_two_parts(database, head, tail);
    assert(database.steps(head + tail) =~= read_steps(
        database.database(),
        key,
        read_options,
        value,
        error,
    ));
    assert(database.key =~= Seq::empty());
    assert(database.run(head + tail) == database);
}

/// What happens to a session that is closed: its owner begins the close,
/// and the call comes back.
pub open spec fn close_events() -> Seq<Event> {
    seq![Event::Close, Event::Reply(ReplyView::Returned)]
}

/// The course of the close: the session asks for the database to be
/// closed, once, and is closed from then on.
pub proof fn close_runs_its_course(database: DatabaseView)
    requires
        database.wf(),
        database.ready(),
    ensures
        database.permits_all(close_events()),
        database.steps(close_events()) == seq![
            StepView::Call(CallView::Close { database: database.database() }),
            StepView::Done(CompletionView::Closed),
        ],
        database.run(close_events()) == (DatabaseView { session: SessionView::Closed, ..database }),
{
    let events = close_events();
    assert(events.drop_first() =~= seq![events[1]]);
    assert(events.drop_first().drop_first() =~= Seq::<Event>::empty());
    reveal_with_fuel(DatabaseView::permits_all, 3);
    reveal_with_fuel(DatabaseView::run, 3);
    reveal_with_fuel(DatabaseView::steps, 3);
    assert(database.steps(events) =~= seq![
        StepView::Call(CallView::Close { database: database.database() }),
        StepView::Done(CompletionView::Closed),
    ]);
}

/// Nothing happens to a session at rest that is not open: no operation
/// begins before the database is open or after it is closed, nor after an
/// open that failed, and no reply is taken.
pub proof fn rest_without_database_is_final(database: DatabaseView, event: Event)
    requires
        database.progress is Idle,
        !(database.session is Open),
    ensures
        !database.permits(event),
{
}

} // verus!
