//! The deadline-bounded search session on one engine handle.
//!
//! Once the search command is issued the engine computes until it reports
//! a best move. If the caller's deadline expires first, the session sends
//! an explicit stop and waits — under a secondary grace period — for the
//! engine to confirm that it is idle again. A handle is never released as
//! good while its process may still be computing: after a timeout it is
//! recycled only once idleness is confirmed, and destroyed otherwise.

use vstd::prelude::*;
use crate::pool::HandleOutcome;

verus! {

/// How a search session ended for the caller.
pub enum SearchOutcome {
    /// The engine reported this best-move line in time.
    Completed(String),
    /// The deadline expired before the engine finished.
    TimedOut,
    /// The process failed or desynchronized.
    Failed,
}

/// A finished session: the caller's outcome, and what must happen to the
/// handle before anything else may use it.
pub struct SearchEnd {
    pub outcome: SearchOutcome,
    pub disposition: HandleOutcome,
}

/// Where a search session stands.
pub enum SearchPhase {
    /// The search command was issued; the engine is computing.
    Computing,
    /// The deadline expired; a stop was sent and the session awaits the
    /// engine's idle confirmation.
    Stopping,
    /// The session is over.
    Done(SearchEnd),
}

/// What the session observes.
pub enum SearchEvent {
    /// The engine reported its best-move line.
    BestMove(String),
    /// The caller's deadline expired.
    DeadlineExpired,
    /// The engine confirmed that it is idle again.
    IdleConfirmed,
    /// The secondary grace period expired without an idle confirmation.
    GraceExpired,
    /// Reading from or writing to the process failed.
    IoError,
}

/// What the session asks its driver to do next.
#[derive(PartialEq, Eq, Structural, Clone, Copy, Debug)]
pub enum SearchAction {
    /// Keep waiting for the engine.
    Wait,
    /// Send the stop command and start the grace period.
    SendStop,
    /// The session is over; act on the disposition.
    Finish,
}

/// The session's transition table.
///
/// While computing: a best-move line completes the session with a good
/// handle; a deadline expiry sends the stop and moves to `Stopping`; any
/// other observation is a process failure and destroys the handle. While
/// stopping: output that still arrives is stale and is discarded; only an
/// idle confirmation lets the handle be recycled; a grace expiry or an
/// I/O failure destroys it. The caller's outcome after a deadline expiry
/// is always a timeout, never a stale move.
pub open spec fn spec_search_step(phase: SearchPhase, event: SearchEvent) -> (
    SearchPhase,
    SearchAction,
) {
    match phase {
        SearchPhase::Computing => match event {
            SearchEvent::BestMove(line) => (
                SearchPhase::Done(
                    SearchEnd {
                        outcome: SearchOutcome::Completed(line),
                        disposition: HandleOutcome::Good,
                    },
                ),
                SearchAction::Finish,
            ),
            SearchEvent::DeadlineExpired => (SearchPhase::Stopping, SearchAction::SendStop),
            _ => (
                SearchPhase::Done(
                    SearchEnd { outcome: SearchOutcome::Failed, disposition: HandleOutcome::Broken },
                ),
                SearchAction::Finish,
            ),
        },
        SearchPhase::Stopping => match event {
            SearchEvent::BestMove(_) => (SearchPhase::Stopping, SearchAction::Wait),
            SearchEvent::IdleConfirmed => (
                SearchPhase::Done(
                    SearchEnd {
                        outcome: SearchOutcome::TimedOut,
                        disposition: HandleOutcome::Good,
                    },
                ),
                SearchAction::Finish,
            ),
            SearchEvent::DeadlineExpired => (SearchPhase::Stopping, SearchAction::Wait),
            _ => (
                SearchPhase::Done(
                    SearchEnd {
                        outcome: SearchOutcome::TimedOut,
                        disposition: HandleOutcome::Broken,
                    },
                ),
                SearchAction::Finish,
            ),
        },
        SearchPhase::Done(_) => (phase, SearchAction::Finish),
    }
}

/// Advances a search session by one observed event.
pub fn search_step(phase: SearchPhase, event: SearchEvent) -> (r: (SearchPhase, SearchAction))
    ensures
        r == spec_search_step(phase, event),
{
    match phase {
        SearchPhase::Computing => match event {
            SearchEvent::BestMove(line) => (
                SearchPhase::Done(
                    SearchEnd {
                        outcome: SearchOutcome::Completed(line),
                        disposition: HandleOutcome::Good,
                    },
                ),
                SearchAction::Finish,
            ),
            SearchEvent::DeadlineExpired => (SearchPhase::Stopping, SearchAction::SendStop),
            _ => (
                SearchPhase::Done(
                    SearchEnd { outcome: SearchOutcome::Failed, disposition: HandleOutcome::Broken },
                ),
                SearchAction::Finish,
            ),
        },
        SearchPhase::Stopping => match event {
            SearchEvent::BestMove(_) => (SearchPhase::Stopping, SearchAction::Wait),
            SearchEvent::IdleConfirmed => (
                SearchPhase::Done(
                    SearchEnd {
                        outcome: SearchOutcome::TimedOut,
                        disposition: HandleOutcome::Good,
                    },
                ),
                SearchAction::Finish,
            ),
            SearchEvent::DeadlineExpired => (SearchPhase::Stopping, SearchAction::Wait),
            _ => (
                SearchPhase::Done(
                    SearchEnd {
                        outcome: SearchOutcome::TimedOut,
                        disposition: HandleOutcome::Broken,
                    },
                ),
                SearchAction::Finish,
            ),
        },
        SearchPhase::Done(end) => (SearchPhase::Done(end), SearchAction::Finish),
    }
}

/// The phase a session reaches from `phase` under a sequence of events.
pub open spec fn spec_run(phase: SearchPhase, events: Seq<SearchEvent>) -> SearchPhase
    decreases events.len(),
{
    if events.len() == 0 {
        phase
    } else {
        spec_run(spec_search_step(phase, events[0]).0, events.drop_first())
    }
}

/// A phase in which the deadline has already expired and no stale engine
/// output can become the caller's answer.
pub open spec fn timeout_contained(phase: SearchPhase) -> bool {
    match phase {
        SearchPhase::Stopping => true,
        SearchPhase::Done(end) => end.outcome is TimedOut,
        _ => false,
    }
}

/// Timeout containment: once the deadline has expired, however the engine
/// behaves afterwards — late best-move lines, idle confirmations, grace
/// expiry, I/O failures in any order — the session only ever reports a
/// timeout to the caller, never a stale move. The handle is released as
/// good only by an idle confirmation, and is destroyed otherwise.
pub proof fn lemma_timeout_containment(phase: SearchPhase, events: Seq<SearchEvent>)
    requires
        timeout_contained(phase),
    ensures
        timeout_contained(spec_run(phase, events)),
    decreases events.len(),
{
    if events.len() > 0 {
        lemma_timeout_containment(spec_search_step(phase, events[0]).0, events.drop_first());
    }
}

/// A handle leaves a timed-out session as good only after the engine has
/// confirmed idleness; every other observation destroys it.
pub proof fn lemma_timeout_release_needs_idle(event: SearchEvent)
    ensures
        (spec_search_step(SearchPhase::Stopping, event).0 matches SearchPhase::Done(end)
            && end.disposition is Good) ==> event is IdleConfirmed,
        spec_search_step(SearchPhase::Computing, SearchEvent::DeadlineExpired).0
            is Stopping,
        spec_search_step(SearchPhase::Computing, SearchEvent::DeadlineExpired).1
            == SearchAction::SendStop,
{
}

} // verus!
