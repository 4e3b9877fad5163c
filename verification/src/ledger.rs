//! The account of what the session holds of the engine's.
//!
//! Every object and every piece of memory that the engine hands to the
//! session is given back exactly once, or passes to the caller. This file
//! states that of one step and of whole runs, over multisets of
//! [`Release`]: one entry for each thing that is held.

use crate::completion::{CompletionView, StepView};
use crate::database::{DatabaseView, Progress, SessionView};
use crate::events::Event;
use crate::ldb::{check_defers, lookup_defers};
use crate::native::{CallView, Release, ReplyView};
use vstd::multiset::Multiset;
use vstd::prelude::*;

verus! {

/// What performing `call` gives back to the engine.
pub open spec fn released_by(call: CallView) -> Seq<Release> {
    match call {
        CallView::Close { database } => seq![Release::Database(database)],
        CallView::OptionsDestroy { options } => seq![Release::Options(options)],
        CallView::WriteOptionsDestroy { options } => seq![Release::WriteOptions(options)],
        CallView::WriteBatchDestroy { batch } => seq![Release::WriteBatch(batch)],
        CallView::ReadOptionsDestroy { options } => seq![Release::ReadOptions(options)],
        CallView::Free { address } => seq![Release::Memory(address)],
        _ => Seq::empty(),
    }
}

/// What a step gives back to the engine: what the call it asks for releases.
pub open spec fn given_back(step: StepView) -> Seq<Release> {
    match step {
        StepView::Call(call) => released_by(call),
        StepView::Done(_) => Seq::empty(),
    }
}

/// What a step passes to the caller: the value that a lookup found.
pub open spec fn handed_over(step: StepView) -> Seq<Release> {
    match step {
        StepView::Done(CompletionView::Read(Ok(Some(buffer)))) => seq![
            Release::Memory(buffer.address),
        ],
        _ => Seq::empty(),
    }
}

/// What the database that an open call returned adds to the session's
/// holdings: the database, unless the engine returned null.
pub open spec fn database_of(database: usize) -> Seq<Release> {
    if database == 0 {
        Seq::empty()
    } else {
        seq![Release::Database(database)]
    }
}

/// The value that a result holds for the caller.
pub open spec fn value_of(outcome: Option<CompletionView>) -> Seq<Release> {
    match outcome {
        Some(CompletionView::Read(Ok(Some(buffer)))) => seq![Release::Memory(buffer.address)],
        _ => Seq::empty(),
    }
}

impl DatabaseView {
    /// What the session holds of the engine's: what the operation under
    /// way owes, the value that its result holds for the caller, and the
    /// open database.
    pub open spec fn held(self) -> Multiset<Release> {
        let transient = self.scope.to_multiset().add(value_of(self.outcome).to_multiset());
        match self.session {
            SessionView::Open(ldb) => transient.insert(Release::Database(ldb.handle)),
            _ => transient,
        }
    }

    /// What `reply` hands to the session: the object that an allocating
    /// call returned, the database, the message in the error slot and the
    /// range of a value.
    pub open spec fn taken(self, reply: ReplyView) -> Seq<Release> {
        match reply {
            ReplyView::Returned => Seq::empty(),
            ReplyView::Object { handle } => match self.progress {
                Progress::CreatingOptions => seq![Release::Options(handle)],
                Progress::CreatingWriteOptions => seq![Release::WriteOptions(handle)],
                Progress::CreatingBatch { .. } => seq![Release::WriteBatch(handle)],
                Progress::CreatingReadOptions => seq![Release::ReadOptions(handle)],
                _ => Seq::empty(),
            },
            ReplyView::Opened { database, error } => database_of(database) + check_defers(error),
            ReplyView::Written { error } => check_defers(error),
            ReplyView::Fetched { value, error } => check_defers(error) + match value {
                Some(buffer) => seq![Release::Memory(buffer.address)],
                None => Seq::empty(),
            },
        }
    }

    /// What `event` hands to the session.
    pub open spec fn taken_with(self, event: Event) -> Seq<Release> {
        match event {
            Event::Reply(reply) => self.taken(reply),
            _ => Seq::empty(),
        }
    }

    /// All that the session is handed in the course of `events`.
    pub open spec fn taken_during(self, events: Seq<Event>) -> Multiset<Release>
        decreases events.len(),
    {
        if events.len() == 0 {
            Multiset::empty()
        } else {
            self.taken_with(events[0]).to_multiset().add(
                self.advance(events[0]).0.taken_during(events.drop_first()),
            )
        }
    }

    /// All that the session gives back in the course of `events`.
    pub open spec fn given_back_during(self, events: Seq<Event>) -> Multiset<Release>
        decreases events.len(),
    {
        if events.len() == 0 {
            Multiset::empty()
        } else {
            given_back(self.advance(events[0]).1).to_multiset().add(
                self.advance(events[0]).0.given_back_during(events.drop_first()),
            )
        }
    }

    /// All that the session passes to the caller in the course of `events`.
    pub open spec fn handed_over_during(self, events: Seq<Event>) -> Multiset<Release>
        decreases events.len(),
    {
        if events.len() == 0 {
            Multiset::empty()
        } else {
            handed_over(self.advance(events[0]).1).to_multiset().add(
                self.advance(events[0]).0.handed_over_during(events.drop_first()),
            )
        }
    }
}

/// A sequence of one entry is the multiset of that entry.
proof fn lemma_one(release: Release)
    ensures
        seq![release].to_multiset() =~= Multiset::singleton(release),
{
    broadcast use vstd::seq_lib::group_to_multiset_ensures;
    broadcast use vstd::multiset::group_multiset_axioms;

    assert(seq![release] =~= Seq::<Release>::empty().push(release));
    Seq::<Release>::empty().to_multiset_ensures();
    assert(Seq::<Release>::empty().to_multiset() =~= Multiset::<Release>::empty());
}

/// The empty sequence is the empty multiset.
proof fn lemma_none()
    ensures
        Seq::<Release>::empty().to_multiset() =~= Multiset::<Release>::empty(),
{
    broadcast use vstd::multiset::group_multiset_axioms;

    Seq::<Release>::empty().to_multiset_ensures();
}

/// The multiset of a sequence of at most one entry, added to a scope.
proof fn lemma_deferred(scope: Seq<Release>, deferred: Seq<Release>)
    ensures
        (scope + deferred).to_multiset() =~= scope.to_multiset().add(deferred.to_multiset()),
{
    vstd::seq_lib::lemma_multiset_commutative(scope, deferred);
}

/// What the end of an operation does to the account: a release that is
/// called for leaves the scope, and a result that is handed out takes its
/// value with it.
proof fn lemma_unwind_keeps_account(database: DatabaseView)
    requires
        database.outcome is Some,
    ensures
        database.held() =~= database.unwind().0.held().add(
            given_back(database.unwind().1).to_multiset(),
        ).add(handed_over(database.unwind().1).to_multiset()),
        database.unwind().0.session == database.session,
        database.unwind().0.progress is Idle ==> database.unwind().0.scope.len() == 0
            && database.unwind().0.outcome is None,
        database.unwind().0.progress is Idle || (database.unwind().0.progress is Releasing
            && database.unwind().0.outcome is Some),
{
    broadcast use vstd::seq_lib::group_to_multiset_ensures;
    broadcast use vstd::multiset::group_multiset_axioms;

    let (next, step) = database.unwind();
    lemma_none();
    if database.scope.len() > 0 {
        let due = database.scope.last();
        assert(database.scope =~= next.scope.push(due));
        assert(released_by(due.call_view()) =~= seq![due]);
        lemma_one(due);
        assert(handed_over(step) =~= Seq::empty());
    } else {
        assert(given_back(step) =~= Seq::empty());
        assert(handed_over(step) =~= value_of(database.outcome));
        assert(value_of(next.outcome) =~= Seq::empty());
    }
}

/// The account of a step that begins an operation.
proof fn lemma_begin_keeps_account(database: DatabaseView, event: Event)
    requires
        database.wf(),
        database.ready(),
        !(event is Reply),
    ensures
        database.advance(event).0.wf(),
        database.held().add(database.taken_with(event).to_multiset())
            =~= database.advance(event).0.held().add(
            given_back(database.advance(event).1).to_multiset(),
        ).add(handed_over(database.advance(event).1).to_multiset()),
{
    broadcast use vstd::seq_lib::group_to_multiset_ensures;
    broadcast use vstd::multiset::group_multiset_axioms;

    lemma_none();
    assert(database.scope =~= Seq::empty());
    if event is Close {
        lemma_one(Release::Database(database.database()));
    }
}

/// The account of a step that takes an object on or goes on without
/// taking anything.
proof fn lemma_forward_keeps_account(database: DatabaseView, reply: ReplyView)
    requires
        database.wf(),
        database.accepts(reply),
        reply is Object || reply is Returned,
        !(database.progress is Releasing),
    ensures
        database.resume(reply).0.wf(),
        database.held().add(database.taken(reply).to_multiset()) =~= database.resume(
            reply,
        ).0.held().add(given_back(database.resume(reply).1).to_multiset()).add(
            handed_over(database.resume(reply).1).to_multiset(),
        ),
{
    broadcast use vstd::seq_lib::group_to_multiset_ensures;
    broadcast use vstd::multiset::group_multiset_axioms;

    lemma_none();
    if reply is Object {
        lemma_one(database.taken(reply)[0]);
        assert(database.taken(reply) =~= seq![database.taken(reply)[0]]);
    }
    if database.progress is Closing {
        assert(database.scope =~= Seq::empty());
    }
}

/// The account of the step that decides an open.
proof fn lemma_open_keeps_account(database: DatabaseView, reply: ReplyView)
    requires
        database.wf(),
        database.accepts(reply),
        database.progress is Opening,
    ensures
        database.resume(reply).0.wf(),
        database.held().add(database.taken(reply).to_multiset()) =~= database.resume(
            reply,
        ).0.held().add(given_back(database.resume(reply).1).to_multiset()).add(
            handed_over(database.resume(reply).1).to_multiset(),
        ),
{
    broadcast use vstd::multiset::group_multiset_axioms;

    let error = reply->Opened_error;
    let handle = reply->Opened_database;
    let result = crate::ldb::opened(database.path, handle, error);
    let decided = DatabaseView {
        session: match result {
            Ok(ldb) => SessionView::Open(ldb),
            Err(_) => database.session,
        },
        path: Seq::empty(),
        scope: database.scope + check_defers(error),
        outcome: Some(
            CompletionView::Opened(
                match result {
                    Ok(_) => Ok(()),
                    Err(failure) => Err(failure),
                },
            ),
        ),
        ..database
    };
    assert(database.resume(reply) == decided.unwind());
    lemma_unwind_keeps_account(decided);
    lemma_none();
    lemma_deferred(database.scope, check_defers(error));
    lemma_deferred(database_of(handle), check_defers(error));
    if handle != 0 {
        lemma_one(Release::Database(handle));
    }
    assert(value_of(decided.outcome) =~= Seq::empty());
    assert(value_of(database.outcome) =~= Seq::empty());
    assert(database.held().add(database.taken(reply).to_multiset()) =~= decided.held());
}

/// The account of the step that decides a write.
proof fn lemma_write_keeps_account(database: DatabaseView, reply: ReplyView)
    requires
        database.wf(),
        database.accepts(reply),
        database.progress is Applying,
    ensures
        database.resume(reply).0.wf(),
        database.held().add(database.taken(reply).to_multiset()) =~= database.resume(
            reply,
        ).0.held().add(given_back(database.resume(reply).1).to_multiset()).add(
            handed_over(database.resume(reply).1).to_multiset(),
        ),
{
    broadcast use vstd::multiset::group_multiset_axioms;

    let error = reply->Written_error;
    let decided = DatabaseView {
        scope: database.scope + check_defers(error),
        outcome: Some(
            CompletionView::Written(crate::ldb::checked(error, crate::error::Operation::Write)),
        ),
        ..database
    };
    assert(database.resume(reply) == decided.unwind());
    lemma_unwind_keeps_account(decided);
    lemma_none();
    lemma_deferred(database.scope, check_defers(error));
    assert(value_of(decided.outcome) =~= Seq::empty());
    assert(value_of(database.outcome) =~= Seq::empty());
    assert(database.held().add(database.taken(reply).to_multiset()) =~= decided.held());
}

/// The account of the step that decides a lookup.
proof fn lemma_read_keeps_account(database: DatabaseView, reply: ReplyView)
    requires
        database.wf(),
        database.accepts(reply),
        database.progress is Getting,
    ensures
        database.resume(reply).0.wf(),
        database.held().add(database.taken(reply).to_multiset()) =~= database.resume(
            reply,
        ).0.held().add(given_back(database.resume(reply).1).to_multiset()).add(
            handed_over(database.resume(reply).1).to_multiset(),
        ),
{
    broadcast use vstd::multiset::group_multiset_axioms;

    let value = reply->Fetched_value;
    let error = reply->Fetched_error;
    let decided = DatabaseView {
        scope: database.scope + lookup_defers(value, error),
        outcome: Some(CompletionView::Read(crate::ldb::looked_up(value, error))),
        ..database
    };
    assert(database.resume(reply) == decided.unwind());
    lemma_unwind_keeps_account(decided);
    lemma_none();
    lemma_deferred(database.scope, lookup_defers(value, error));
    let range = match value {
        Some(buffer) => seq![Release::Memory(buffer.address)],
        None => Seq::empty(),
    };
    lemma_deferred(check_defers(error), range);
    assert(value_of(database.outcome) =~= Seq::empty());
    if value_of(decided.outcome).len() > 0 {
        assert(lookup_defers(value, error) =~= Seq::empty());
        assert(check_defers(error) =~= Seq::empty());
        assert(value_of(decided.outcome) =~= range);
    } else {
        assert(value_of(decided.outcome) =~= Seq::empty());
        assert(lookup_defers(value, error) =~= check_defers(error) + range);
    }
    assert(database.held().add(database.taken(reply).to_multiset()) =~= decided.held());
}

/// Every step keeps the account: what the session held before, with what
/// the event hands to it, is what it holds afterwards, with what the step
/// gives back to the engine and what it passes to the caller.
pub proof fn advance_keeps_account(database: DatabaseView, event: Event)
    requires
        database.wf(),
        database.permits(event),
    ensures
        database.advance(event).0.wf(),
        database.held().add(database.taken_with(event).to_multiset())
            == database.advance(event).0.held().add(
            given_back(database.advance(event).1).to_multiset(),
        ).add(handed_over(database.advance(event).1).to_multiset()),
{
    match event {
        Event::Reply(reply) => {
            match database.progress {
                Progress::Opening => lemma_open_keeps_account(database, reply),
                Progress::Applying => lemma_write_keeps_account(database, reply),
                Progress::Getting => lemma_read_keeps_account(database, reply),
                Progress::Releasing => {
                    lemma_unwind_keeps_account(database);
                    lemma_none();
                    assert(database.held().add(Seq::<Release>::empty().to_multiset())
                        =~= database.held());
                },
                _ => lemma_forward_keeps_account(database, reply),
            }
        },
        _ => lemma_begin_keeps_account(database, event),
    }
}

/// Two accounts that follow one another make one account.
proof fn lemma_accounts_add_up(
    first: Multiset<Release>,
    taken: Multiset<Release>,
    middle: Multiset<Release>,
    given: Multiset<Release>,
    handed: Multiset<Release>,
    taken_later: Multiset<Release>,
    last: Multiset<Release>,
    given_later: Multiset<Release>,
    handed_later: Multiset<Release>,
)
    requires
        first.add(taken) == middle.add(given).add(handed),
        middle.add(taken_later) == last.add(given_later).add(handed_later),
    ensures
        first.add(taken.add(taken_later)) == last.add(given.add(given_later)).add(
            handed.add(handed_later),
        ),
{
    broadcast use vstd::multiset::group_multiset_axioms;

    assert forall|release: Release|
        first.add(taken.add(taken_later)).count(release) == last.add(
            given.add(given_later),
        ).add(handed.add(handed_later)).count(release) by {
        let one = first.add(taken);
        let two = middle.add(given).add(handed);
        let three = middle.add(taken_later);
        let four = last.add(given_later).add(handed_later);
        assert(one.count(release) == first.count(release) + taken.count(release));
        assert(two.count(release) == middle.count(release) + given.count(release)
            + handed.count(release));
        assert(three.count(release) == middle.count(release) + taken_later.count(release));
        assert(four.count(release) == last.count(release) + given_later.count(release)
            + handed_later.count(release));
        assert(one.count(release) == two.count(release));
        assert(three.count(release) == four.count(release));
        assert(taken.add(taken_later).count(release) == taken.count(release)
            + taken_later.count(release));
        assert(given.add(given_later).count(release) == given.count(release)
            + given_later.count(release));
        assert(handed.add(handed_later).count(release) == handed.count(release)
            + handed_later.count(release));
    }
    assert(first.add(taken.add(taken_later)) =~= last.add(given.add(given_later)).add(
        handed.add(handed_later),
    ));
}

/// Every run keeps the account: what the session held at first, with all
/// that it was handed, is what it holds at last, with all that it gave
/// back to the engine and all that it passed to the caller.
pub proof fn run_keeps_account(database: DatabaseView, events: Seq<Event>)
    requires
        database.wf(),
        database.permits_all(events),
    ensures
        database.run(events).wf(),
        database.held().add(database.taken_during(events)) == database.run(events).held().add(
            database.given_back_during(events),
        ).add(database.handed_over_during(events)),
    decreases events.len(),
{
    broadcast use vstd::multiset::group_multiset_axioms;

    if events.len() == 0 {
        assert(database.held().add(Multiset::empty()) =~= database.held().add(
            Multiset::empty(),
        ).add(Multiset::empty()));
    } else {
        let event = events[0];
        let (next, step) = database.advance(event);
        let rest = events.drop_first();
        advance_keeps_account(database, event);
        run_keeps_account(next, rest);
        lemma_accounts_add_up(
            database.held(),
            database.taken_with(event).to_multiset(),
            next.held(),
            given_back(step).to_multiset(),
            handed_over(step).to_multiset(),
            next.taken_during(rest),
            next.run(rest).held(),
            next.given_back_during(rest),
            next.handed_over_during(rest),
        );
    }
}

/// A session that has come to its end has leaked nothing and released
/// nothing twice: from its beginning to a state of rest in which no
/// database is open, be it after the close or after an open that failed,
/// all that the engine handed to it has been given back exactly once or
/// has passed to the caller, whatever the engine replied on the way.
pub proof fn session_leaves_nothing(path: Seq<u8>, events: Seq<Event>)
    requires
        DatabaseView::opening(path).permits_all(events),
        DatabaseView::opening(path).run(events).progress is Idle,
        !(DatabaseView::opening(path).run(events).session is Open),
    ensures
        DatabaseView::opening(path).taken_during(events) == DatabaseView::opening(
            path,
        ).given_back_during(events).add(DatabaseView::opening(path).handed_over_during(events)),
{
    broadcast use vstd::multiset::group_multiset_axioms;

    let begun = DatabaseView::opening(path);
    let ended = begun.run(events);
    run_keeps_account(begun, events);
    rest_holds_the_database_alone(ended);
    lemma_none();
    assert(value_of(begun.outcome) =~= Seq::empty());
    assert(begun.held() =~= Multiset::empty());
    let taken = begun.taken_during(events);
    let given = begun.given_back_during(events);
    let handed = begun.handed_over_during(events);
    assert forall|release: Release| taken.count(release) == given.add(handed).count(release) by {
        assert(begun.held().add(taken).count(release) == ended.held().add(given).add(
            handed,
        ).count(release));
        assert(begun.held().count(release) == 0);
        assert(ended.held().count(release) == 0);
    }
    assert(taken =~= given.add(handed));
}

/// A session at rest holds nothing but its open database.
pub proof fn rest_holds_the_database_alone(database: DatabaseView)
    requires
        database.wf(),
        database.progress is Idle,
    ensures
        database.held() == match database.session {
            SessionView::Open(ldb) => Multiset::singleton(Release::Database(ldb.handle)),
            _ => Multiset::empty(),
        },
{
    broadcast use vstd::multiset::group_multiset_axioms;

    lemma_none();
    assert(database.scope =~= Seq::empty());
    assert(value_of(database.outcome) =~= Seq::empty());
    assert(database.held() =~= match database.session {
        SessionView::Open(ldb) => Multiset::singleton(Release::Database(ldb.handle)),
        _ => Multiset::empty(),
    });
}

} // verus!
