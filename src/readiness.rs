//! Waiting for the development server: the decisions of the poll loop.
//!
//! The caller owns the loop: it sleeps for `POLL_INTERVAL_MS`, probes
//! `READY_PORT`, and hands the outcome to `ReadinessPoll::on_probe`, which says
//! whether to go on. There is no timeout: a port that never opens keeps the
//! loop going for ever.
use vstd::prelude::*;

verus! {

/// The TCP port whose opening signals that the server is up.
pub const READY_PORT: u16 = 8000;

/// Milliseconds slept before each probe.
pub const POLL_INTERVAL_MS: u64 = 1;

/// What the loop does next.
#[derive(Clone, Copy, Debug, PartialEq, Eq, Structural)]
pub enum PollAction {
    /// Sleep one interval, probe the port again and report the outcome.
    SleepThenProbe,
    /// The port is open: leave the loop.
    Ready,
}

/// Abstract state of a poll: probes counted so far, and whether the port
/// has been seen open.
pub struct PollView {
    pub attempts: nat,
    pub ready: bool,
}

/// The state before the first probe.
pub open spec fn initial_poll() -> PollView {
    PollView { attempts: 0, ready: false }
}

/// The count after one more probe; it stops at the largest `u64`.
pub open spec fn count_probe(n: nat) -> nat {
    if n < u64::MAX {
        n + 1
    } else {
        n
    }
}

/// One probe outcome applied to a state. Once ready, a poll no longer changes.
pub open spec fn poll_step(s: PollView, open: bool) -> PollView {
    if s.ready {
        s
    } else {
        PollView { attempts: count_probe(s.attempts), ready: open }
    }
}

/// A sequence of probe outcomes applied in order.
pub open spec fn poll_run(s: PollView, probes: Seq<bool>) -> PollView
    decreases probes.len(),
{
    if probes.len() == 0 {
        s
    } else {
        poll_run(poll_step(s, probes[0]), probes.drop_first())
    }
}

/// The action that the loop takes in a given state.
pub open spec fn action_of(s: PollView) -> PollAction {
    if s.ready {
        PollAction::Ready
    } else {
        PollAction::SleepThenProbe
    }
}

/// The state of the readiness poll.
pub struct ReadinessPoll {
    attempts: u64,
    ready: bool,
}

impl View for ReadinessPoll {
    type V = PollView;

    closed spec fn view(&self) -> PollView {
        PollView { attempts: self.attempts as nat, ready: self.ready }
    }
}

impl ReadinessPoll {
    /// A poll that has not probed yet.
    pub fn new() -> (r: Self)
        ensures
            r@ == initial_poll(),
    {
        ReadinessPoll { attempts: 0, ready: false }
    }

    /// Records the outcome of one probe and says what to do next.
    pub fn on_probe(&mut self, open: bool) -> (r: PollAction)
        ensures
            final(self)@ == poll_step(old(self)@, open),
            r == action_of(final(self)@),
    {
        if self.ready {
            return PollAction::Ready;
        }
        self.attempts = self.attempts.saturating_add(1);
        self.ready = open;
        if open {
            PollAction::Ready
        } else {
            PollAction::SleepThenProbe
        }
    }

    /// The number of probes recorded so far (until the port was seen open).
    pub fn attempts(&self) -> (r: u64)
        ensures
            r == self@.attempts,
    {
        self.attempts
    }

    /// Whether the port has been seen open.
    pub fn is_ready(&self) -> (r: bool)
        ensures
            r == self@.ready,
    {
        self.ready
    }
}

/// A poll that is ready stays ready, with its count unchanged, whatever
/// further probes report.
pub proof fn lemma_ready_is_final(s: PollView, probes: Seq<bool>)
    requires
        s.ready,
    ensures
        poll_run(s, probes) == s,
    decreases probes.len(),
{
    if probes.len() > 0 {
        lemma_ready_is_final(poll_step(s, probes[0]), probes.drop_first());
    }
}

/// A port that is already open when polling starts ends the poll at the
/// first probe: one probe is counted and the loop is told to stop.
pub proof fn lemma_open_port_ready_at_first_probe(probes: Seq<bool>)
    requires
        probes.len() > 0,
        probes[0],
    ensures
        poll_run(initial_poll(), probes) == (PollView { attempts: 1, ready: true }),
        action_of(poll_run(initial_poll(), probes)) == PollAction::Ready,
{
    let s = poll_step(initial_poll(), probes[0]);
    lemma_ready_is_final(s, probes.drop_first());
}

/// A port that never opens never ends the poll: however many probes are
/// made, each counted, the loop is told to sleep and probe again.
pub proof fn lemma_closed_port_never_ready(probes: Seq<bool>)
    requires
        forall|i: int| 0 <= i < probes.len() ==> !probes[i],
    ensures
        !poll_run(initial_poll(), probes).ready,
        action_of(poll_run(initial_poll(), probes)) == PollAction::SleepThenProbe,
        probes.len() <= u64::MAX ==> poll_run(initial_poll(), probes).attempts == probes.len(),
{
    lemma_closed_run(initial_poll(), probes);
}

proof fn lemma_closed_run(s: PollView, probes: Seq<bool>)
    requires
        !s.ready,
        forall|i: int| 0 <= i < probes.len() ==> !probes[i],
    ensures
        !poll_run(s, probes).ready,
        s.attempts + probes.len() <= u64::MAX ==> poll_run(s, probes).attempts == s.attempts
            + probes.len(),
    decreases probes.len(),
{
    if probes.len() > 0 {
        let rest = probes.drop_first();
        assert forall|i: int| 0 <= i < rest.len() implies !rest[i] by {
            assert(rest[i] == probes[i + 1]);
        }
        lemma_closed_run(poll_step(s, probes[0]), rest);
    }
}

} // verus!
