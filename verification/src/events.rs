//! What happens to a session, one event after the other.

use crate::completion::StepView;
use crate::database::{DatabaseView, SessionView};
use crate::native::{CallView, ReplyView};
use vstd::prelude::*;

verus! {

/// What can happen to a session: its owner begins an operation, or the
/// driver comes back with a reply.
pub enum Event {
    /// The owner begins the write of a pair.
    Write { key: Seq<u8>, value: Seq<u8> },
    /// The owner begins a lookup.
    Read { key: Seq<u8> },
    /// The owner begins the close.
    Close,
    /// The driver hands over the reply to the call asked for last.
    Reply(ReplyView),
}

/// How far a session has come: not yet open, open, closed.
pub open spec fn stage(session: SessionView) -> nat {
    match session {
        SessionView::Uninitialized => 0,
        SessionView::Open(_) => 1,
        SessionView::Closed => 2,
    }
}

impl DatabaseView {
    /// Whether `event` can happen now: an operation begins on an open
    /// session at rest, and a reply answers the call asked for last.
    pub open spec fn permits(self, event: Event) -> bool {
        match event {
            Event::Reply(reply) => self.accepts(reply),
            _ => self.ready(),
        }
    }

    /// The session after `event`, and what it asks for next.
    pub open spec fn advance(self, event: Event) -> (DatabaseView, StepView) {
        match event {
            Event::Write { key, value } => (
                self.begin_write(key, value),
                StepView::Call(CallView::WriteOptionsCreate),
            ),
            Event::Read { key } => (
                self.begin_read(key),
                StepView::Call(CallView::ReadOptionsCreate),
            ),
            Event::Close => (
                self.begin_close(),
                StepView::Call(CallView::Close { database: self.database() }),
            ),
            Event::Reply(reply) => self.resume(reply),
        }
    }

    /// Whether `events` can happen one after the other.
    pub open spec fn permits_all(self, events: Seq<Event>) -> bool
        decreases events.len(),
    {
        events.len() == 0 || (self.permits(events[0]) && self.advance(events[0]).0.permits_all(
            events.drop_first(),
        ))
    }

    /// The session after `events`.
    pub open spec fn run(self, events: Seq<Event>) -> DatabaseView
        decreases events.len(),
    {
        if events.len() == 0 {
            self
        } else {
            self.advance(events[0]).0.run(events.drop_first())
        }
    }

    /// What the session asks for after each of `events`.
    pub open spec fn steps(self, events: Seq<Event>) -> Seq<StepView>
        decreases events.len(),
    {
        if events.len() == 0 {
            Seq::empty()
        } else {
            seq![self.advance(events[0]).1] + self.advance(events[0]).0.steps(
                events.drop_first(),
            )
        }
    }
}

/// Every event leaves the session as it should be between two steps, and
/// never takes it back: a session that is open stays open, on the same
/// database, until it is closed, and a closed session stays closed. The
/// call that the session asks for names nothing at the null address.
pub proof fn advance_goes_forward(database: DatabaseView, event: Event)
    requires
        database.wf(),
        database.permits(event),
    ensures
        database.advance(event).0.wf(),
        stage(database.session) <= stage(database.advance(event).0.session),
        database.session is Open && database.advance(event).0.session is Open
            ==> database.advance(event).0.session == database.session,
        database.advance(event).1 matches StepView::Call(call) ==> call.wf(),
{
}

/// Every run leaves the session as it should be between two steps, and
/// never takes it back.
pub proof fn run_goes_forward(database: DatabaseView, events: Seq<Event>)
    requires
        database.wf(),
        database.permits_all(events),
    ensures
        database.run(events).wf(),
        stage(database.session) <= stage(database.run(events).session),
        database.session is Open && database.run(events).session is Open ==> database.run(
            events,
        ).session == database.session,
    decreases events.len(),
{
    if events.len() > 0 {
        advance_goes_forward(database, events[0]);
        run_goes_forward(database.advance(events[0]).0, events.drop_first());
    }
}

/// A run in two parts is the run of the first part, then that of the second.
pub proof fn run_in_two_parts(database: DatabaseView, first: Seq<Event>, second: Seq<Event>)
    ensures
        database.permits_all(first + second) == (database.permits_all(first) && database.run(
            first,
        ).permits_all(second)),
        database.run(first + second) == database.run(first).run(second),
        database.steps(first + second) == database.steps(first) + database.run(first).steps(
            second,
        ),
    decreases first.len(),
{
    if first.len() == 0 {
        assert(first + second =~= second);
        assert(database.steps(first) + database.steps(second) =~= database.steps(second));
    } else {
        let next = database.advance(first[0]).0;
        assert((first + second)[0] == first[0]);
        assert((first + second).drop_first() =~= first.drop_first() + second);
        run_in_two_parts(next, first.drop_first(), second);
        assert(database.steps(first + second) =~= database.steps(first) + database.run(
            first,
        ).steps(second));
    }
}

} // verus!
