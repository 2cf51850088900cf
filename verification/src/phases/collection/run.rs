//! The course of a run of the clearinghouse, and how it ends.

use vstd::prelude::*;

use super::model::{ClearinghouseView, CommandView, EventView, Text};

verus! {

/// What happens in the course of a run. `E` is why something could not be sent.
pub enum RunEventView<E> {
    /// Telemetry came in.
    Telemetry(Map<Text, Text>),
    /// The sources of telemetry dried up.
    DriedUp,
    /// A command came in.
    Command(CommandView),
    /// Neither telemetry nor commands can come in any more.
    Closed,
    /// What was to be sent was sent, each delivery with its outcome.
    Sent(Seq<Result<(), E>>),
}

/// The first failure in a round of sending.
pub open spec fn first_failure<E>(statuses: Seq<Result<(), E>>) -> Option<E>
    decreases statuses.len(),
{
    if statuses.len() == 0 {
        None
    } else {
        match statuses[0] {
            Ok(()) => first_failure(statuses.skip(1)),
            Err(e) => Some(e),
        }
    }
}

impl<E> RunEventView<E> {
    /// How this ends a run, if it does.
    pub open spec fn end(self) -> Option<Result<(), E>> {
        match self {
            RunEventView::DriedUp | RunEventView::Closed => Some(Ok(())),
            RunEventView::Sent(statuses) => match first_failure(statuses) {
                Some(e) => Some(Err(e)),
                None => None,
            },
            RunEventView::Telemetry(_) | RunEventView::Command(_) => None,
        }
    }
}

/// How a run stands: what the clearinghouse remembers and, once the run has
/// ended, how.
pub struct RunView<E> {
    pub state: ClearinghouseView,
    pub ended: Option<Result<(), E>>,
}

impl<E> RunView<E> {
    /// A run that begins.
    pub open spec fn begun(state: ClearinghouseView) -> RunView<E> {
        RunView { state, ended: None }
    }

    /// How the run stands after `event`. One that has ended takes nothing in.
    pub open spec fn after(self, event: RunEventView<E>) -> RunView<E> {
        if self.ended is Some {
            self
        } else {
            RunView {
                state: match event {
                    RunEventView::Telemetry(data) => self.state.after_telemetry(data),
                    RunEventView::Command(command) => self.state.after_command(command),
                    _ => self.state,
                },
                ended: event.end(),
            }
        }
    }

    /// How the run stands after `events`, one after the other.
    pub open spec fn after_all(self, events: Seq<RunEventView<E>>) -> RunView<E>
        decreases events.len(),
    {
        if events.len() == 0 {
            self
        } else {
            self.after_all(events.drop_last()).after(events.last())
        }
    }
}

/// Whether the event at `i` ends a run with `end`, and none before it ends it.
pub open spec fn ends_at<E>(events: Seq<RunEventView<E>>, i: int, end: Result<(), E>) -> bool {
    &&& 0 <= i < events.len()
    &&& events[i].end() == Some(end)
    &&& forall|j: int| 0 <= j < i ==> (#[trigger] events[j]).end() is None
}

/// What came in during a run: its telemetry and its commands.
pub open spec fn taken_in<E>(events: Seq<RunEventView<E>>) -> Seq<EventView> {
    events.filter_map(
        |event: RunEventView<E>|
            match event {
                RunEventView::Telemetry(data) => Some(EventView::Telemetry(data)),
                RunEventView::Command(command) => Some(EventView::Command(command)),
                _ => None,
            },
    )
}

/// A round of sending fails with the error of the first delivery that failed,
/// and only if one did.
pub proof fn law_first_failure<E>(statuses: Seq<Result<(), E>>, e: E)
    ensures
        first_failure(statuses) is None <==> forall|i: int|
            0 <= i < statuses.len() ==> (#[trigger] statuses[i]) is Ok,
        first_failure(statuses) == Some(e) <==> exists|i: int|
            {
                &&& 0 <= i < statuses.len()
                &&& #[trigger] statuses[i] == Err::<(), E>(e)
                &&& forall|j: int| 0 <= j < i ==> (#[trigger] statuses[j]) is Ok
            },
    decreases statuses.len(),
{
    if statuses.len() > 0 && statuses[0] is Ok {
        let rest = statuses.skip(1);
        law_first_failure(rest, e);
        assert forall|i: int| 0 < i < statuses.len() implies #[trigger] statuses[i] == rest[i
            - 1] by {}
    }
}

/// Once a run has ended nothing is taken in: what comes later changes neither
/// the clearinghouse nor how the run ended.
pub proof fn law_nothing_after_the_end<E>(run: RunView<E>, events: Seq<RunEventView<E>>)
    requires
        run.ended is Some,
    ensures
        run.after_all(events) == run,
    decreases events.len(),
{
    if events.len() > 0 {
        law_nothing_after_the_end(run, events.drop_last());
    }
}

/// A run goes on as long as nothing ends it, and ends with the first event that
/// does.
pub proof fn law_first_end_counts<E>(
    state: ClearinghouseView,
    events: Seq<RunEventView<E>>,
    end: Result<(), E>,
)
    ensures
        RunView::begun(state).after_all(events).ended is None <==> forall|i: int|
            0 <= i < events.len() ==> (#[trigger] events[i]).end() is None,
        RunView::begun(state).after_all(events).ended == Some(end) <==> exists|i: int|
            ends_at(events, i, end),
    decreases events.len(),
{
    if events.len() > 0 {
        let front = events.drop_last();
        law_first_end_counts(state, front, end);
        assert forall|i: int| 0 <= i < front.len() implies #[trigger] events[i] == front[i] by {}
        if exists|i: int| ends_at(front, i, end) {
            let i = choose|i: int| ends_at(front, i, end);
            assert(ends_at(events, i, end));
        }
        if RunView::begun(state).after_all(front).ended is None && events.last().end() == Some(
            end,
        ) {
            assert(ends_at(events, front.len() as int, end));
        }
        if exists|i: int| ends_at(events, i, end) {
            let i = choose|i: int| ends_at(events, i, end);
            if i < front.len() {
                assert(ends_at(front, i, end));
            }
        }
    }
}

/// Whether with the event at `i` the sources of telemetry dry up, or nothing can
/// come in any more, and none before it ends a run.
pub open spec fn runs_dry_at<E>(events: Seq<RunEventView<E>>, i: int) -> bool {
    &&& 0 <= i < events.len()
    &&& events[i] is DriedUp || events[i] is Closed
    &&& forall|j: int| 0 <= j < i ==> (#[trigger] events[j]).end() is None
}

/// Whether the event at `i` is a round of sending that fails with `e`, and none
/// before it ends a run.
pub open spec fn fails_at<E>(events: Seq<RunEventView<E>>, i: int, e: E) -> bool {
    &&& 0 <= i < events.len()
    &&& events[i] matches RunEventView::Sent(statuses) && first_failure(statuses) == Some(e)
    &&& forall|j: int| 0 <= j < i ==> (#[trigger] events[j]).end() is None
}

/// A run ends well if and only if the sources of telemetry dry up, or nothing can
/// come in any more, before anything else ends it. In particular no command ends
/// a run, and no telemetry.
pub proof fn law_run_ends_well<E>(state: ClearinghouseView, events: Seq<RunEventView<E>>)
    ensures
        RunView::begun(state).after_all(events).ended == Some(Ok::<(), E>(())) <==> exists|i: int|
            runs_dry_at(events, i),
{
    let end = Ok::<(), E>(());
    law_first_end_counts(state, events, end);
    assert forall|i: int| #[trigger] ends_at(events, i, end) <==> runs_dry_at(events, i) by {}
    if exists|i: int| runs_dry_at(events, i) {
        let i = choose|i: int| runs_dry_at(events, i);
        assert(ends_at(events, i, end));
    }
}

/// A run fails with `e` if and only if `e` is the first failure of a round of
/// sending, before anything else ends the run.
pub proof fn law_run_fails<E>(state: ClearinghouseView, events: Seq<RunEventView<E>>, e: E)
    ensures
        RunView::begun(state).after_all(events).ended == Some(Err::<(), E>(e)) <==> exists|i: int|
            fails_at(events, i, e),
{
    let end = Err::<(), E>(e);
    law_first_end_counts(state, events, end);
    assert forall|i: int| #[trigger] ends_at(events, i, end) <==> fails_at(events, i, e) by {}
    if exists|i: int| fails_at(events, i, e) {
        let i = choose|i: int| fails_at(events, i, e);
        assert(ends_at(events, i, end));
    }
}

/// Nothing that comes after the end of a run counts: the clearinghouse is left
/// as it was when the run ended.
pub proof fn law_run_stops_at_its_end<E>(
    state: ClearinghouseView,
    events: Seq<RunEventView<E>>,
    i: int,
    end: Result<(), E>,
)
    requires
        ends_at(events, i, end),
    ensures
        RunView::begun(state).after_all(events) == RunView::begun(state).after_all(
            events.take(i + 1),
        ),
    decreases events.len(),
{
    if i + 1 < events.len() {
        let front = events.drop_last();
        law_run_stops_at_its_end(state, front, i, end);
        assert(front.take(i + 1) =~= events.take(i + 1));
        law_first_end_counts(state, front, end);
    } else {
        assert(events.take(i + 1) =~= events);
    }
}

/// A round in which all was sent changes nothing, and the run goes on.
pub proof fn law_all_sent_goes_on<E>(run: RunView<E>, statuses: Seq<Result<(), E>>)
    requires
        run.ended is None,
        forall|i: int| 0 <= i < statuses.len() ==> (#[trigger] statuses[i]) is Ok,
    ensures
        run.after(RunEventView::Sent(statuses)) == run,
{
    if let Some(e) = first_failure(statuses) {
        law_first_failure(statuses, e);
    }
}

/// While a run goes on, the clearinghouse remembers what its telemetry and its
/// commands made it remember.
pub proof fn law_run_takes_everything_in<E>(
    state: ClearinghouseView,
    events: Seq<RunEventView<E>>,
)
    requires
        forall|i: int| 0 <= i < events.len() ==> (#[trigger] events[i]).end() is None,
    ensures
        RunView::begun(state).after_all(events).state == state.after_all(taken_in(events)),
    decreases events.len(),
{
    if events.len() > 0 {
        let front = events.drop_last();
        law_run_takes_everything_in(state, front);
        law_first_end_counts(state, front, Ok::<(), E>(()));
        let came = match events.last() {
            RunEventView::Telemetry(data) => Some(EventView::Telemetry(data)),
            RunEventView::Command(command) => Some(EventView::Command(command)),
            _ => None,
        };
        if let Some(event) = came {
            assert(taken_in(events) =~= taken_in(front).push(event));
            assert(taken_in(front).push(event).drop_last() =~= taken_in(front));
        }
    }
}

} // verus!
