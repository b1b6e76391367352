use vstd::prelude::*;
use crate::status::{Response, STATUS_OK, STATUS_UNAUTHORIZED};

verus! {

/// Seconds between polls while the workflow runs.
pub const SHORT_INTERVAL_SECS: u64 = 30;

/// Seconds between polls once the workflow has completed.
pub const LONG_INTERVAL_SECS: u64 = 600;

/// The pause between two polls.
#[derive(Clone, Copy, Debug, PartialEq, Eq, Structural)]
pub enum Interval {
    Short,
    Long,
}

impl Interval {
    pub open spec fn spec_seconds(self) -> u64 {
        match self {
            Interval::Short => SHORT_INTERVAL_SECS,
            Interval::Long => LONG_INTERVAL_SECS,
        }
    }

    /// The interval that a valid snapshot calls for.
    pub open spec fn for_snapshot(complete: bool) -> Interval {
        if complete {
            Interval::Long
        } else {
            Interval::Short
        }
    }

    pub fn seconds(self) -> (r: u64)
        ensures
            r == self.spec_seconds(),
    {
        match self {
            Interval::Short => SHORT_INTERVAL_SECS,
            Interval::Long => LONG_INTERVAL_SECS,
        }
    }
}

/// A state label is reported when it is non-empty and differs from the last
/// reported one. An empty label (a snapshot without items) is never reported,
/// so the remembered label never goes back to empty once set.
pub open spec fn needs_report(last: Seq<char>, state: Seq<char>) -> bool {
    state.len() > 0 && state != last
}

/// How one snapshot moves the session and what it asks for: a refused token
/// ends the loop; any other failure leaves the session as it was and waits
/// the same interval again; a valid snapshot sets the interval and asks for a
/// report exactly when its label needs one.
pub open spec fn after_snapshot(pre: PollSession, post: PollSession, snap: Response, r: Action) -> bool {
    let code = snap.status_info.status_code;
    if code == STATUS_UNAUTHORIZED {
        r is Finish && post == pre
    } else if code != STATUS_OK {
        r == Action::Sleep(pre.interval.spec_seconds()) && post == pre
    } else {
        &&& post.interval == Interval::for_snapshot(snap.complete())
        &&& post.last_state == pre.last_state
        &&& if needs_report(pre.last_state@, snap.state_label()) {
            &&& r matches Action::Report(s) && s@ == snap.state_label()
            &&& post.pending matches Some(p) && p@ == snap.state_label()
        } else {
            r == Action::Sleep(post.interval.spec_seconds()) && post.pending is None
        }
    }
}

/// What happened since the last action was handed out.
#[derive(Debug)]
pub enum Event {
    /// The pause is over.
    Woke,
    /// The status request returned this snapshot.
    Status(Response),
    /// The report that was asked for was delivered.
    Reported,
    /// The status request or the report failed in transport, or the snapshot
    /// could not be decoded; the text describes it.
    Failed(String),
}

/// What the caller is to do next.
#[derive(Debug)]
pub enum Action {
    /// Request a status snapshot.
    Fetch,
    /// Report this state label as the workflow's new state.
    Report(String),
    /// Pause this many seconds.
    Sleep(u64),
    /// Stop polling; not a failure.
    Finish,
    /// Stop polling with this error.
    Abort(String),
}

/// The loop's memory between cycles.
#[derive(Debug)]
pub struct PollSession {
    /// The most recently reported state label; empty until the first report.
    pub last_state: String,
    /// The pause that the last valid snapshot called for.
    pub interval: Interval,
    /// The state label of a report that was asked for and not yet delivered.
    pub pending: Option<String>,
}

impl PollSession {
    /// A pending report always carries a non-empty label.
    pub open spec fn wf(&self) -> bool {
        self.pending matches Some(p) ==> p@.len() > 0
    }

    /// The session before the first poll: nothing reported, short interval.
    pub fn new() -> (r: PollSession)
        ensures
            r.wf(),
            r.last_state@ == Seq::<char>::empty(),
            r.interval == Interval::Short,
            r.pending is None,
    {
        PollSession { last_state: String::new(), interval: Interval::Short, pending: None }
    }

    /// The label to report for a snapshot with this state label, if any.
    pub fn report_for(&self, state: &String) -> (r: Option<String>)
        ensures
            r is Some <==> needs_report(self.last_state@, state@),
            r matches Some(s) ==> s@ == state@,
    {
        if !state.as_str().is_empty() && *state != self.last_state {
            Some(state.clone())
        } else {
            None
        }
    }

    /// The decision of one step of the poll loop.
    pub fn step(&mut self, ev: Event) -> (r: Action)
        requires
            old(self).wf(),
        ensures
            final(self).wf(),
            // the remembered label only ever becomes the label of a delivered report
            final(self).last_state@ != old(self).last_state@ ==> ev is Reported && (old(
                self,
            ).pending matches Some(p) && final(self).last_state@ == p@),
            old(self).last_state@.len() > 0 ==> final(self).last_state@.len() > 0,
            ev is Woke ==> r is Fetch && *final(self) == *old(self),
            ev matches Event::Failed(e) ==> r == Action::Abort(e) && *final(self) == *old(self),
            ev is Reported ==> r == Action::Sleep(old(self).interval.spec_seconds())
                && final(self).interval == old(self).interval && final(self).pending is None
                && (old(self).pending matches Some(p) ==> final(self).last_state@ == p@)
                && (old(self).pending is None ==> final(self).last_state == old(self).last_state),
            ev matches Event::Status(snap) ==> after_snapshot(*old(self), *final(self), snap, r),
    {
        match ev {
            Event::Woke => Action::Fetch,
            Event::Failed(e) => Action::Abort(e),
            Event::Reported => {
                let pending = self.pending.take();
                if let Some(p) = pending {
                    self.last_state = p;
                }
                Action::Sleep(self.interval.seconds())
            },
            Event::Status(doc) => {
                if doc.is_unauthorized() {
                    Action::Finish
                } else if !doc.is_status_ok() {
                    Action::Sleep(self.interval.seconds())
                } else {
                    self.interval =
                        if doc.is_complete() {
                            Interval::Long
                        } else {
                            Interval::Short
                        };
                    let state = doc.current_state();
                    match self.report_for(&state) {
                        Some(s) => {
                            self.pending = Some(s.clone());
                            Action::Report(s)
                        },
                        None => {
                            self.pending = None;
                            Action::Sleep(self.interval.seconds())
                        },
                    }
                }
            },
        }
    }
}

/// The reports that successive valid snapshots with these state labels ask
/// for, from the remembered label `last` on, when each report is delivered.
pub open spec fn reports_of_run(last: Seq<char>, states: Seq<Seq<char>>) -> Seq<Seq<char>>
    decreases states.len(),
{
    if states.len() == 0 {
        Seq::empty()
    } else if needs_report(last, states[0]) {
        seq![states[0]] + reports_of_run(states[0], states.drop_first())
    } else {
        reports_of_run(last, states.drop_first())
    }
}

/// The remembered label after such a run.
pub open spec fn last_after_run(last: Seq<char>, states: Seq<Seq<char>>) -> Seq<char>
    decreases states.len(),
{
    if states.len() == 0 {
        last
    } else if needs_report(last, states[0]) {
        last_after_run(states[0], states.drop_first())
    } else {
        last_after_run(last, states.drop_first())
    }
}

/// One more snapshot adds one report, at the end, exactly when its label
/// differs from the remembered one (and is not empty), and the remembered
/// label then becomes it; otherwise nothing is reported and nothing changes.
pub proof fn lemma_run_step(last: Seq<char>, states: Seq<Seq<char>>, x: Seq<char>)
    ensures
        needs_report(last_after_run(last, states), x) ==> reports_of_run(last, states.push(x))
            == reports_of_run(last, states).push(x) && last_after_run(last, states.push(x)) == x,
        !needs_report(last_after_run(last, states), x) ==> reports_of_run(last, states.push(x))
            == reports_of_run(last, states) && last_after_run(last, states.push(x))
            == last_after_run(last, states),
    decreases states.len(),
{
    let sx = states.push(x);
    if states.len() == 0 {
        let none = Seq::<Seq<char>>::empty();
        assert(sx.drop_first() =~= none);
        assert(reports_of_run(x, none) == none);
        assert(last_after_run(x, none) == x);
        assert(seq![x] + none =~= seq![x]);
        assert(states =~= none);
    } else {
        let rest = states.drop_first();
        assert(sx[0] == states[0]);
        assert(sx.drop_first() =~= rest.push(x));
        if needs_report(last, states[0]) {
            lemma_run_step(states[0], rest, x);
            let tail = reports_of_run(states[0], rest);
            assert(reports_of_run(last, sx) == seq![states[0]] + reports_of_run(states[0], rest.push(x)));
            assert(seq![states[0]] + tail.push(x) =~= (seq![states[0]] + tail).push(x));
        } else {
            lemma_run_step(last, rest, x);
        }
    }
}

/// A label seen again right after itself is not reported again.
pub proof fn lemma_repeated_state_not_reported(last: Seq<char>, states: Seq<Seq<char>>)
    requires
        states.len() > 0,
    ensures
        reports_of_run(last, states.push(states.last())) == reports_of_run(last, states),
        last_after_run(last, states.push(states.last())) == last_after_run(last, states),
{
    lemma_run_step(last, states.drop_last(), states.last());
    assert(states.drop_last().push(states.last()) =~= states);
    lemma_run_step(last, states, states.last());
}

/// Distinct successive non-empty labels, the first differing from the
/// remembered one, are each reported once, in order, and the remembered label
/// ends as the last of them.
pub proof fn lemma_distinct_states_all_reported(last: Seq<char>, states: Seq<Seq<char>>)
    requires
        forall|i: int| 0 <= i < states.len() ==> (#[trigger] states[i]).len() > 0,
        forall|i: int| 0 < i < states.len() ==> #[trigger] states[i] != states[i - 1],
        states.len() > 0 ==> states[0] != last,
    ensures
        reports_of_run(last, states) == states,
        states.len() > 0 ==> last_after_run(last, states) == states.last(),
    decreases states.len(),
{
    if states.len() > 0 {
        let rest = states.drop_first();
        assert forall|i: int| 0 < i < rest.len() implies #[trigger] rest[i] != rest[i - 1] by {
            assert(rest[i] == states[i + 1]);
            assert(rest[i - 1] == states[i]);
        }
        if rest.len() > 0 {
            assert(rest[0] == states[1]);
        }
        lemma_distinct_states_all_reported(states[0], rest);
        assert(seq![states[0]] + rest =~= states);
        assert(states[0].len() > 0);
        assert(needs_report(last, states[0]));
        assert(last_after_run(last, states) == last_after_run(states[0], rest));
        if rest.len() > 0 {
            assert(rest.last() == states.last());
        } else {
            assert(last_after_run(states[0], rest) == states[0]);
        }
    }
}

/// A refused token ends the loop, whatever the session holds.
pub proof fn lemma_unauthorized_ends_loop(pre: PollSession, post: PollSession, snap: Response, r: Action)
    requires
        snap.status_info.status_code == STATUS_UNAUTHORIZED,
        after_snapshot(pre, post, snap, r),
    ensures
        r is Finish,
        post == pre,
{
}

/// A failed query other than a refused token asks for no report and leaves
/// the remembered label, the interval and the pending report as they were.
pub proof fn lemma_failed_query_changes_nothing(
    pre: PollSession,
    post: PollSession,
    snap: Response,
    r: Action,
)
    requires
        snap.status_info.status_code != STATUS_OK,
        snap.status_info.status_code != STATUS_UNAUTHORIZED,
        after_snapshot(pre, post, snap, r),
    ensures
        r !is Report,
        r == Action::Sleep(pre.interval.spec_seconds()),
        post.last_state == pre.last_state,
        post == pre,
{
}

} // verus!
