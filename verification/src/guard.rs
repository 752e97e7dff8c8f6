//! The per-socket operation-guard state machine.
//!
//! Every socket object holds an [`OpState`] tag, the single authority for
//! "is a kernel operation outstanding on this socket, and which". Every
//! poll of every suspend-point runs [`guard`] first; teardown and close
//! completion use [`confirm_close`]. The ghost protocol model below states
//! the cancellation-safety laws the guard enforces over whole runs: at
//! most one submission is ever outstanding, switching kinds cancels the
//! prior operation before the new submission, and re-polling an operation
//! already in progress never submits a second time.

use vstd::prelude::*;
use vstd::assert_seqs_equal;

verus! {

/// The kinds of kernel operation a socket can have outstanding.
#[derive(Clone, Copy, Debug, PartialEq, Eq, Structural)]
pub enum OpKind {
    Accept,
    Read,
    Write,
    Close,
}

/// The per-socket operation-state tag: no operation outstanding, exactly
/// one outstanding operation of the given kind, or terminally closed
/// (the close operation's completion has been observed).
#[derive(Clone, Copy, Debug, PartialEq, Eq, Structural)]
pub enum OpState {
    Idle,
    Live(OpKind),
    Closed,
}

/// Whether starting `op` in state `s` must cancel a prior operation:
/// exactly when an operation of a *different* kind is outstanding.
pub open spec fn guard_cancels(s: OpState, op: OpKind) -> bool {
    match s {
        OpState::Live(k) => k != op,
        _ => false,
    }
}

/// Validates and performs the state transition at the start of one poll.
///
/// The state must not be `Closed`: operating on a closed socket is a
/// caller-contract violation, fatal by design, so callers check first.
/// A `true` result obliges the caller to hand the prior operation's
/// scratch memory to the driver as a cancellation token *before* the new
/// operation is submitted. Requesting the kind already outstanding is
/// idempotent: the state is unchanged and no cancellation is requested.
pub fn guard(state: &mut OpState, op: OpKind) -> (cancel_prior: bool)
    requires
        !(*old(state) is Closed),
    ensures
        *final(state) == OpState::Live(op),
        cancel_prior == guard_cancels(*old(state), op),
{
    let cancel_prior = match *state {
        OpState::Live(k) => k != op,
        _ => false,
    };
    *state = OpState::Live(op);
    cancel_prior
}

/// Marks the socket terminally closed. Called only once the close
/// operation's completion has been observed; no operation may start
/// afterwards.
pub fn confirm_close(state: &mut OpState)
    requires
        *old(state) == OpState::Live(OpKind::Close),
    ensures
        *final(state) is Closed,
{
    *state = OpState::Closed;
}

// ------------------------------------------------------------------
// Ghost protocol model: the ring interactions a run of guard calls,
// driver submissions and kernel completions produces, and the laws
// that hold of every such run.
// ------------------------------------------------------------------

/// One observable ring interaction, in the order the driver performs them.
pub enum RingEvent {
    /// The driver lodges one submission-queue entry with the kernel.
    Submit,
    /// The driver receives a cancellation token for the outstanding
    /// operation; the caller no longer cares about its result.
    Cancel,
    /// The kernel delivers the outstanding operation's completion.
    Complete,
}

/// A model configuration: the socket's state tag together with the
/// driver's own record of whether a submission is currently lodged.
pub struct ProtocolState {
    pub op: OpState,
    pub submitted: bool,
}

/// One step of a socket's life: a caller polls a suspend-point of the
/// given operation kind, or the kernel delivers a completion.
pub enum ProtocolStep {
    Request(OpKind),
    Completion,
}

/// The configuration of a freshly created socket.
pub open spec fn protocol_init() -> ProtocolState {
    ProtocolState { op: OpState::Idle, submitted: false }
}

/// Which steps the protocol admits: no request once closed (a fatal
/// contract violation), and a completion only for a lodged submission.
pub open spec fn step_valid(s: ProtocolState, step: ProtocolStep) -> bool {
    match step {
        ProtocolStep::Request(_) => !(s.op is Closed),
        ProtocolStep::Completion => s.submitted,
    }
}

/// The configuration after one step.
pub open spec fn step_next(s: ProtocolState, step: ProtocolStep) -> ProtocolState {
    match step {
        ProtocolStep::Request(op) => ProtocolState { op: OpState::Live(op), submitted: true },
        ProtocolStep::Completion => ProtocolState { op: s.op, submitted: false },
    }
}

/// The ring events one step produces. A request that switches kinds
/// cancels, then submits; a request with nothing lodged submits; a
/// re-poll of the operation already lodged produces no ring traffic at
/// all (the driver, not the guard, tracks "already submitted").
pub open spec fn step_events(s: ProtocolState, step: ProtocolStep) -> Seq<RingEvent> {
    match step {
        ProtocolStep::Request(op) => {
            if guard_cancels(s.op, op) {
                seq![RingEvent::Cancel, RingEvent::Submit]
            } else if !s.submitted {
                seq![RingEvent::Submit]
            } else {
                Seq::<RingEvent>::empty()
            }
        }
        ProtocolStep::Completion => seq![RingEvent::Complete],
    }
}

/// Whether a whole sequence of steps is admitted from `s`.
pub open spec fn run_valid(s: ProtocolState, steps: Seq<ProtocolStep>) -> bool
    decreases steps.len(),
{
    steps.len() == 0
        || (step_valid(s, steps.first())
            && run_valid(step_next(s, steps.first()), steps.drop_first()))
}

/// The configuration after a whole sequence of steps.
pub open spec fn run_final(s: ProtocolState, steps: Seq<ProtocolStep>) -> ProtocolState
    decreases steps.len(),
{
    if steps.len() == 0 {
        s
    } else {
        run_final(step_next(s, steps.first()), steps.drop_first())
    }
}

/// All ring events a whole sequence of steps produces, in order.
pub open spec fn run_events(s: ProtocolState, steps: Seq<ProtocolStep>) -> Seq<RingEvent>
    decreases steps.len(),
{
    if steps.len() == 0 {
        Seq::<RingEvent>::empty()
    } else {
        step_events(s, steps.first())
            + run_events(step_next(s, steps.first()), steps.drop_first())
    }
}

/// How many operations are outstanding after the events in `log`:
/// a submission opens one; a cancellation or completion closes it.
pub open spec fn in_flight(log: Seq<RingEvent>) -> nat
    decreases log.len(),
{
    if log.len() == 0 {
        0
    } else {
        match log.last() {
            RingEvent::Submit => in_flight(log.drop_last()) + 1,
            RingEvent::Cancel => 0,
            RingEvent::Complete => 0,
        }
    }
}

/// At most one operation is outstanding at every observation point of `log`.
pub open spec fn bounded(log: Seq<RingEvent>) -> bool {
    forall|i: int| 0 <= i <= log.len() ==> in_flight(#[trigger] log.take(i)) <= 1
}

/// How many submissions `log` holds in total.
pub open spec fn submit_count(log: Seq<RingEvent>) -> nat
    decreases log.len(),
{
    if log.len() == 0 {
        0
    } else {
        submit_count(log.drop_last()) + (if log.last() is Submit { 1nat } else { 0nat })
    }
}

/// How many steps of `steps` begin a new operation attempt: a request
/// that switches kinds or finds nothing lodged. Re-polls and completions
/// never count.
pub open spec fn attempt_count(s: ProtocolState, steps: Seq<ProtocolStep>) -> nat
    decreases steps.len(),
{
    if steps.len() == 0 {
        0
    } else {
        let first_is_attempt: nat = match steps.first() {
            ProtocolStep::Request(op) => {
                if guard_cancels(s.op, op) || !s.submitted { 1nat } else { 0nat }
            }
            ProtocolStep::Completion => 0nat,
        };
        first_is_attempt + attempt_count(step_next(s, steps.first()), steps.drop_first())
    }
}

/// The driver's record matches the log: one operation is outstanding
/// exactly while a submission is lodged.
pub open spec fn protocol_inv(s: ProtocolState, log: Seq<RingEvent>) -> bool {
    in_flight(log) == (if s.submitted { 1nat } else { 0nat })
}

proof fn lemma_take_of_concat(a: Seq<RingEvent>, b: Seq<RingEvent>, i: int)
    requires
        0 <= i <= a.len(),
    ensures
        (a + b).take(i) == a.take(i),
{
    assert_seqs_equal!((a + b).take(i) == a.take(i));
}

proof fn lemma_in_flight_push(log: Seq<RingEvent>, e: RingEvent)
    ensures
        e is Submit ==> in_flight(log.push(e)) == in_flight(log) + 1,
        !(e is Submit) ==> in_flight(log.push(e)) == 0,
{
    assert(log.push(e).last() == e);
    assert_seqs_equal!(log.push(e).drop_last() == log);
}

proof fn lemma_step_preserves(s: ProtocolState, log: Seq<RingEvent>, step: ProtocolStep)
    requires
        protocol_inv(s, log),
        bounded(log),
        step_valid(s, step),
    ensures
        protocol_inv(step_next(s, step), log + step_events(s, step)),
        bounded(log + step_events(s, step)),
{
    let ev = step_events(s, step);
    let ext = log + ev;
    assert forall|i: int| 0 <= i <= log.len() implies in_flight(#[trigger] ext.take(i)) <= 1 by {
        lemma_take_of_concat(log, ev, i);
    }
    if ev.len() == 0 {
        assert_seqs_equal!(ext == log);
    } else if ev.len() == 1 {
        let e = ev[0];
        assert_seqs_equal!(ext == log.push(e));
        lemma_in_flight_push(log, e);
        assert(ext.take(log.len() as int + 1) =~= ext);
    } else {
        // A switch: cancel, then submit.
        assert(ev =~= seq![RingEvent::Cancel, RingEvent::Submit]);
        let mid = log.push(RingEvent::Cancel);
        assert_seqs_equal!(ext == mid.push(RingEvent::Submit));
        lemma_in_flight_push(log, RingEvent::Cancel);
        lemma_in_flight_push(mid, RingEvent::Submit);
        assert(ext.take(log.len() as int + 1) =~= mid);
        assert(ext.take(log.len() as int + 2) =~= ext);
        assert forall|i: int| 0 <= i <= ext.len() implies in_flight(#[trigger] ext.take(i)) <= 1 by {
            if i <= log.len() {
            } else if i == log.len() + 1 {
                assert(in_flight(ext.take(i)) == in_flight(mid));
            } else {
                assert(in_flight(ext.take(i)) == in_flight(ext));
            }
        }
    }
}

proof fn lemma_run_preserves(s: ProtocolState, log: Seq<RingEvent>, steps: Seq<ProtocolStep>)
    requires
        protocol_inv(s, log),
        bounded(log),
        run_valid(s, steps),
    ensures
        protocol_inv(run_final(s, steps), log + run_events(s, steps)),
        bounded(log + run_events(s, steps)),
    decreases steps.len(),
{
    if steps.len() == 0 {
        assert_seqs_equal!(log + run_events(s, steps) == log);
    } else {
        let step = steps.first();
        lemma_step_preserves(s, log, step);
        lemma_run_preserves(step_next(s, step), log + step_events(s, step), steps.drop_first());
        assert_seqs_equal!(
            (log + step_events(s, step)) + run_events(step_next(s, step), steps.drop_first())
                == log + run_events(s, steps)
        );
    }
}

/// LAW: over every admitted run from a fresh socket, at most one kernel
/// operation is outstanding at every observation point.
pub proof fn lemma_at_most_one_outstanding(steps: Seq<ProtocolStep>, i: int)
    requires
        run_valid(protocol_init(), steps),
        0 <= i <= run_events(protocol_init(), steps).len(),
    ensures
        in_flight(run_events(protocol_init(), steps).take(i)) <= 1,
{
    let empty = Seq::<RingEvent>::empty();
    lemma_run_preserves(protocol_init(), empty, steps);
    assert_seqs_equal!(empty + run_events(protocol_init(), steps)
        == run_events(protocol_init(), steps));
}

/// LAW: switching operation kinds cancels the prior kind first. A request
/// for a kind other than the one outstanding produces exactly the event
/// sequence "cancel, then submit": the cancellation token is issued
/// before any new submission is observed.
pub proof fn lemma_switch_cancels_first(s: ProtocolState, op: OpKind)
    requires
        guard_cancels(s.op, op),
    ensures
        step_events(s, ProtocolStep::Request(op)) == seq![RingEvent::Cancel, RingEvent::Submit],
{
}

/// LAW: re-polling an operation already in progress never issues a second
/// submission: the step produces no ring events and leaves the
/// configuration unchanged.
pub proof fn lemma_repoll_no_resubmit(s: ProtocolState, op: OpKind)
    requires
        s.op == OpState::Live(op),
        s.submitted,
    ensures
        step_events(s, ProtocolStep::Request(op)) == Seq::<RingEvent>::empty(),
        step_next(s, ProtocolStep::Request(op)) == s,
{
}

proof fn lemma_submit_count_concat(a: Seq<RingEvent>, b: Seq<RingEvent>)
    ensures
        submit_count(a + b) == submit_count(a) + submit_count(b),
    decreases b.len(),
{
    if b.len() == 0 {
        assert_seqs_equal!(a + b == a);
    } else {
        lemma_submit_count_concat(a, b.drop_last());
        assert_seqs_equal!((a + b).drop_last() == a + b.drop_last());
        assert((a + b).last() == b.last());
    }
}

/// LAW: the number of submissions a run produces equals the number of
/// distinct operation attempts in it, never the number of polls:
/// submission count is bounded by attempts, not by poll count.
pub proof fn lemma_submissions_match_attempts(s: ProtocolState, steps: Seq<ProtocolStep>)
    requires
        run_valid(s, steps),
    ensures
        submit_count(run_events(s, steps)) == attempt_count(s, steps),
    decreases steps.len(),
{
    if steps.len() == 0 {
    } else {
        let step = steps.first();
        let ev = step_events(s, step);
        lemma_submissions_match_attempts(step_next(s, step), steps.drop_first());
        lemma_submit_count_concat(ev, run_events(step_next(s, step), steps.drop_first()));
        assert(submit_count(Seq::<RingEvent>::empty()) == 0);
        if ev.len() == 1 {
            assert(ev.drop_last() =~= Seq::<RingEvent>::empty());
            assert(submit_count(ev) == (if ev.last() is Submit { 1nat } else { 0nat }));
        } else if ev.len() == 2 {
            assert(ev.drop_last() =~= seq![RingEvent::Cancel]);
            assert(ev.drop_last().drop_last() =~= Seq::<RingEvent>::empty());
            assert(submit_count(ev.drop_last()) == 0);
            assert(submit_count(ev) == 1);
        }
    }
}

} // verus!
