//! Observing a job, poll after poll, until it reaches a terminal state.

use vstd::prelude::*;

use crate::error::Error;
use crate::models::{Image, ImageState};

verus! {

/// Seconds between two polls of a job.
pub const POLL_INTERVAL_SECS: u64 = 1;

/// Message of a failed analysis that carries no error text.
pub const UNKNOWN_ERROR: &'static str = "unknown error";

/// What the monitor does after observing a snapshot.
pub enum MonitorOutcome {
    /// Wait one interval and poll again.
    Poll,
    /// The analysis completed; this is the final snapshot.
    Completed(Image),
    /// The analysis failed.
    Failed(Error),
}

/// One observation of a job: the state to announce, if it changed, and what
/// follows.
pub struct Observation {
    /// The observed state, where it differs from the previous poll's or this
    /// is the first poll.
    pub notice: Option<ImageState>,
    /// What the monitor does next.
    pub outcome: MonitorOutcome,
}

/// The message of a failed analysis: the job's error text, else a generic one.
pub open spec fn failure_message(error: Option<String>) -> Seq<char> {
    match error {
        Some(e) => e@,
        None => UNKNOWN_ERROR@,
    }
}

/// Observes one job, poll after poll, until it reaches a terminal state. It
/// drives no transition; it only reports them.
pub struct JobMonitor {
    previous: Option<ImageState>,
}

impl View for JobMonitor {
    type V = Option<ImageState>;

    closed spec fn view(&self) -> Option<ImageState> {
        self.previous
    }
}

impl JobMonitor {
    /// A monitor that has not polled yet.
    pub fn new() -> (r: Self)
        ensures
            r@ is None,
    {
        JobMonitor { previous: None }
    }

    /// Take the snapshot of one poll. The state is announced when it differs
    /// from the previous poll's; `Completed` ends with the snapshot, `Failed`
    /// ends with the job's error text, any other state polls again.
    pub fn observe(&mut self, image: Image) -> (r: Observation)
        ensures
            final(self)@ == Some(image.state),
            r.notice == (if old(self)@ == Some(image.state) {
                None
            } else {
                Some(image.state)
            }),
            image.state is Completed ==> r.outcome == MonitorOutcome::Completed(image),
            image.state is Failed ==> (r.outcome matches MonitorOutcome::Failed(
                Error::AnalysisFailed(m),
            ) && m@ == failure_message(image.error)),
            !terminal(image.state) ==> r.outcome is Poll,
    {
        let state = image.state;
        let notice = match self.previous {
            Some(p) => if p == state {
                None
            } else {
                Some(state)
            },
            None => Some(state),
        };
        self.previous = Some(state);
        let outcome = match state {
            ImageState::Completed => MonitorOutcome::Completed(image),
            ImageState::Failed => match image.error {
                Some(e) => MonitorOutcome::Failed(Error::AnalysisFailed(e)),
                None => MonitorOutcome::Failed(Error::AnalysisFailed(UNKNOWN_ERROR.to_owned())),
            },
            _ => MonitorOutcome::Poll,
        };
        Observation { notice, outcome }
    }
}

/// The state ends the monitoring.
pub open spec fn terminal(s: ImageState) -> bool {
    s is Completed || s is Failed
}

/// The first terminal state of `states` is at index `t`.
pub open spec fn first_terminal(states: Seq<ImageState>, t: int) -> bool {
    &&& 0 <= t < states.len()
    &&& terminal(states[t])
    &&& forall|i: int| 0 <= i < t ==> !terminal(#[trigger] states[i])
}

/// A monitor that last saw `previous` and is answered with `states` in
/// turn: for each poll it makes, whether it announces the state. It stops
/// after the first terminal state.
pub open spec fn announcements(previous: Option<ImageState>, states: Seq<ImageState>) -> Seq<bool>
    decreases states.len(),
{
    if states.len() == 0 {
        Seq::empty()
    } else {
        let announced = previous != Some(states[0]);
        if terminal(states[0]) {
            seq![announced]
        } else {
            seq![announced] + announcements(Some(states[0]), states.drop_first())
        }
    }
}

/// A monitor polls a job until the first terminal state and no further,
/// and announces the state at exactly the polls where it differs from the
/// previous poll's, and at the first poll.
pub proof fn lemma_monitor_polls_until_terminal(states: Seq<ImageState>, t: int)
    requires
        first_terminal(states, t),
    ensures
        announcements(None, states).len() == t + 1,
        forall|i: int|
            0 <= i <= t ==> #[trigger] announcements(None, states)[i] == (i == 0 || states[i]
                != states[i - 1]),
{
    lemma_announcements_from(None, states, t);
}

/// The same from any previous state.
proof fn lemma_announcements_from(previous: Option<ImageState>, states: Seq<ImageState>, t: int)
    requires
        first_terminal(states, t),
    ensures
        announcements(previous, states).len() == t + 1,
        announcements(previous, states)[0] == (previous != Some(states[0])),
        forall|i: int|
            0 < i <= t ==> #[trigger] announcements(previous, states)[i] == (states[i] != states[i
                - 1]),
    decreases states.len(),
{
    let a = announcements(previous, states);
    if t == 0 {
        assert(a == seq![previous != Some(states[0])]);
    } else {
        let rest = states.drop_first();
        assert(!terminal(states[0]));
        assert(first_terminal(rest, t - 1)) by {
            assert forall|i: int| 0 <= i < t - 1 implies !terminal(#[trigger] rest[i]) by {
                assert(rest[i] == states[i + 1]);
            }
        }
        lemma_announcements_from(Some(states[0]), rest, t - 1);
        let b = announcements(Some(states[0]), rest);
        assert(a == seq![previous != Some(states[0])] + b);
        assert forall|i: int| 0 < i <= t implies #[trigger] a[i] == (states[i] != states[i - 1]) by {
            assert(a[i] == b[i - 1]);
            assert(rest[i - 1] == states[i]);
            if i > 1 {
                assert(rest[i - 2] == states[i - 1]);
            }
        }
    }
}

} // verus!
