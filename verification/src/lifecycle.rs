//! The life of a session: the order in which it is set up, run and torn
//! down, and what a failure means at each point.
//!
//! The controller that owns the interface and the transport does what the
//! current [`Phase`] names, reports whether that went well, and is told by
//! [`advance`] what comes next. A failure during setup ends the session
//! before anything was started. Once both loops have ended, the teardown
//! hooks run in the order in which they were configured, each of them
//! whether or not the one before it failed.

use vstd::prelude::*;

verus! {

/// What the controller is to do now.
#[derive(Debug, Clone, Copy, PartialEq, Eq, Structural)]
pub enum Phase {
    /// Open the virtual interface.
    AcquireInterface,
    /// Open the transport.
    AcquireTransport,
    /// Make a second handle on the transport: one sends, the other receives.
    DuplicateTransport,
    /// Split the interface into the half that reads and the half that writes.
    SplitInterface,
    /// Start the worker that runs the egress loop.
    StartEgress,
    /// Run the ingress loop until the session is stopped.
    Forward,
    /// Wait for the egress worker to end.
    JoinEgress,
    /// Run the teardown hook with this index.
    Teardown(usize),
    /// The session is over.
    Finished,
    /// Setup failed, and nothing was started.
    Aborted,
}

/// The phases of setup, before any packet moves.
pub open spec fn setup_phase(p: Phase) -> bool {
    p is AcquireInterface || p is AcquireTransport || p is DuplicateTransport || p is SplitInterface
        || p is StartEgress
}

/// The phases after which nothing is left to do.
pub open spec fn terminal_phase(p: Phase) -> bool {
    p is Finished || p is Aborted
}

/// Whether `p` is a phase of a session with `hooks` teardown hooks: a hook
/// that is due is one of them.
pub open spec fn well_formed(p: Phase, hooks: nat) -> bool {
    p matches Phase::Teardown(i) ==> i < hooks
}

/// The phase in which hook `i` of `hooks` is due: its own, or the end where
/// no hook has that index.
pub open spec fn teardown_from(i: nat, hooks: nat) -> Phase {
    if i < hooks {
        Phase::Teardown(i as usize)
    } else {
        Phase::Finished
    }
}

/// The phase that follows `p`, given how `p` went and how many teardown
/// hooks there are.
pub open spec fn next_phase(p: Phase, ok: bool, hooks: nat) -> Phase {
    match p {
        Phase::AcquireInterface => if ok {
            Phase::AcquireTransport
        } else {
            Phase::Aborted
        },
        Phase::AcquireTransport => if ok {
            Phase::DuplicateTransport
        } else {
            Phase::Aborted
        },
        Phase::DuplicateTransport => if ok {
            Phase::SplitInterface
        } else {
            Phase::Aborted
        },
        Phase::SplitInterface => if ok {
            Phase::StartEgress
        } else {
            Phase::Aborted
        },
        Phase::StartEgress => if ok {
            Phase::Forward
        } else {
            Phase::Aborted
        },
        Phase::Forward => Phase::JoinEgress,
        Phase::JoinEgress => teardown_from(0, hooks),
        Phase::Teardown(i) => teardown_from(i as nat + 1, hooks),
        Phase::Finished => Phase::Finished,
        Phase::Aborted => Phase::Aborted,
    }
}

/// The phase reached from `p` after one step for each of `outcomes`, in
/// their order.
pub open spec fn phase_after(p: Phase, outcomes: Seq<bool>, hooks: nat) -> Phase
    decreases outcomes.len(),
{
    if outcomes.len() == 0 {
        p
    } else {
        next_phase(phase_after(p, outcomes.drop_last(), hooks), outcomes.last(), hooks)
    }
}

/// How far into a session with `hooks` teardown hooks the phase `p` is.
pub open spec fn progress(p: Phase, hooks: nat) -> nat {
    match p {
        Phase::AcquireInterface => 0,
        Phase::AcquireTransport => 1,
        Phase::DuplicateTransport => 2,
        Phase::SplitInterface => 3,
        Phase::StartEgress => 4,
        Phase::Forward => 5,
        Phase::JoinEgress => 6,
        Phase::Teardown(i) => 7 + i as nat,
        Phase::Finished => 7 + hooks,
        Phase::Aborted => 7 + hooks,
    }
}

impl Phase {
    /// The phase in which every session starts.
    pub fn start() -> (p: Phase)
        ensures
            p == Phase::AcquireInterface,
    {
        Phase::AcquireInterface
    }

    /// Whether this is a phase of setup, in which a failure is fatal.
    pub fn is_setup(&self) -> (r: bool)
        ensures
            r == setup_phase(*self),
    {
        match self {
            Phase::AcquireInterface
            | Phase::AcquireTransport
            | Phase::DuplicateTransport
            | Phase::SplitInterface
            | Phase::StartEgress => true,
            _ => false,
        }
    }

    /// Whether nothing is left to do.
    pub fn is_terminal(&self) -> (r: bool)
        ensures
            r == terminal_phase(*self),
    {
        match self {
            Phase::Finished | Phase::Aborted => true,
            _ => false,
        }
    }
}

/// Tells what follows `phase`. `ok` says whether what `phase` names went
/// well, `hooks` is the number of teardown hooks.
///
/// A setup phase is followed by the next one, or by [`Phase::Aborted`] where
/// it failed. From the ingress loop on nothing is fatal: the phases follow
/// one another whatever `ok` says, through every hook in turn to
/// [`Phase::Finished`].
pub fn advance(phase: Phase, ok: bool, hooks: usize) -> (next: Phase)
    ensures
        next == next_phase(phase, ok, hooks as nat),
        well_formed(next, hooks as nat),
{
    match phase {
        Phase::AcquireInterface => if ok {
            Phase::AcquireTransport
        } else {
            Phase::Aborted
        },
        Phase::AcquireTransport => if ok {
            Phase::DuplicateTransport
        } else {
            Phase::Aborted
        },
        Phase::DuplicateTransport => if ok {
            Phase::SplitInterface
        } else {
            Phase::Aborted
        },
        Phase::SplitInterface => if ok {
            Phase::StartEgress
        } else {
            Phase::Aborted
        },
        Phase::StartEgress => if ok {
            Phase::Forward
        } else {
            Phase::Aborted
        },
        Phase::Forward => Phase::JoinEgress,
        Phase::JoinEgress => if hooks > 0 {
            Phase::Teardown(0)
        } else {
            Phase::Finished
        },
        Phase::Teardown(i) => if i < hooks && i + 1 < hooks {
            Phase::Teardown(i + 1)
        } else {
            Phase::Finished
        },
        Phase::Finished => Phase::Finished,
        Phase::Aborted => Phase::Aborted,
    }
}

/// A session only moves forward: every step from a phase that is not
/// terminal leads to one that is further on, and a terminal phase is never
/// left.
pub proof fn lemma_steps_move_forward(p: Phase, ok: bool, hooks: nat)
    requires
        hooks <= usize::MAX,
        well_formed(p, hooks),
    ensures
        well_formed(next_phase(p, ok, hooks), hooks),
        !terminal_phase(p) ==> progress(next_phase(p, ok, hooks), hooks) > progress(p, hooks),
        terminal_phase(p) ==> next_phase(p, ok, hooks) == p,
{
}

/// A failure during setup is fatal: the session is aborted, and no other
/// step aborts one.
pub proof fn lemma_only_setup_aborts(p: Phase, ok: bool, hooks: nat)
    ensures
        setup_phase(p) && !ok ==> next_phase(p, ok, hooks) is Aborted,
        next_phase(p, ok, hooks) is Aborted ==> p is Aborted || (setup_phase(p) && !ok),
{
}

/// Teardown comes strictly after both loops: a hook is only ever reached
/// from the join of the egress worker or from the hook before it, and that
/// join only from the end of the ingress loop.
pub proof fn lemma_teardown_follows_the_loops(p: Phase, ok: bool, hooks: nat)
    requires
        hooks <= usize::MAX,
    ensures
        next_phase(p, ok, hooks) matches Phase::Teardown(j) ==> (p is JoinEgress && j == 0) || (
        p matches Phase::Teardown(i) && j == i + 1),
        next_phase(p, ok, hooks) is JoinEgress ==> p is Forward,
        next_phase(p, ok, hooks) is Forward ==> p is StartEgress && ok,
{
}

/// Every hook gets its turn, in order: `k` steps after the egress worker was
/// joined, hook `k` is due, whatever became of the join and of the hooks
/// before it; and after the last hook the session is finished.
pub proof fn lemma_hooks_run_in_order(outcomes: Seq<bool>, hooks: nat)
    requires
        1 <= outcomes.len() <= hooks + 1,
        hooks <= usize::MAX,
    ensures
        phase_after(Phase::JoinEgress, outcomes, hooks) == teardown_from(
            (outcomes.len() - 1) as nat,
            hooks,
        ),
    decreases outcomes.len(),
{
    let before = outcomes.drop_last();
    if before.len() == 0 {
        assert(phase_after(Phase::JoinEgress, before, hooks) == Phase::JoinEgress);
    } else {
        lemma_hooks_run_in_order(before, hooks);
    }
}

/// A session whose setup goes well runs to its end: after the five setup
/// steps, the ingress loop, the join and one step for each hook it is
/// finished, whatever happened from the loops on.
pub proof fn lemma_session_finishes(outcomes: Seq<bool>, hooks: nat)
    requires
        outcomes.len() == 7 + hooks,
        hooks <= usize::MAX,
        forall|i: int| 0 <= i < 5 ==> outcomes[i],
    ensures
        phase_after(Phase::AcquireInterface, outcomes, hooks) == Phase::Finished,
{
    lemma_phase_after_concat(Phase::AcquireInterface, outcomes.take(6), outcomes.skip(6), hooks);
    assert(outcomes.take(6) + outcomes.skip(6) =~= outcomes);
    lemma_setup_reaches_join(outcomes.take(6), hooks);
    lemma_hooks_run_in_order(outcomes.skip(6), hooks);
}

/// Six steps with a setup that goes well lead to the join of the egress
/// worker.
proof fn lemma_setup_reaches_join(outcomes: Seq<bool>, hooks: nat)
    requires
        outcomes.len() == 6,
        forall|i: int| 0 <= i < 5 ==> outcomes[i],
    ensures
        phase_after(Phase::AcquireInterface, outcomes, hooks) == Phase::JoinEgress,
{
    let s5 = outcomes.drop_last();
    let s4 = s5.drop_last();
    let s3 = s4.drop_last();
    let s2 = s3.drop_last();
    let s1 = s2.drop_last();
    let s0 = s1.drop_last();
    assert(s0.len() == 0);
    assert(phase_after(Phase::AcquireInterface, s0, hooks) == Phase::AcquireInterface);
    assert(s1.last() == outcomes[0]);
    assert(phase_after(Phase::AcquireInterface, s1, hooks) == Phase::AcquireTransport);
    assert(s2.last() == outcomes[1]);
    assert(phase_after(Phase::AcquireInterface, s2, hooks) == Phase::DuplicateTransport);
    assert(s3.last() == outcomes[2]);
    assert(phase_after(Phase::AcquireInterface, s3, hooks) == Phase::SplitInterface);
    assert(s4.last() == outcomes[3]);
    assert(phase_after(Phase::AcquireInterface, s4, hooks) == Phase::StartEgress);
    assert(s5.last() == outcomes[4]);
    assert(phase_after(Phase::AcquireInterface, s5, hooks) == Phase::Forward);
}

/// Steps add up: going through `first` and then through `then` is going
/// through both in a row.
pub proof fn lemma_phase_after_concat(p: Phase, first: Seq<bool>, then: Seq<bool>, hooks: nat)
    ensures
        phase_after(p, first + then, hooks) == phase_after(
            phase_after(p, first, hooks),
            then,
            hooks,
        ),
    decreases then.len(),
{
    if then.len() == 0 {
        assert(first + then =~= first);
    } else {
        lemma_phase_after_concat(p, first, then.drop_last(), hooks);
        assert((first + then).drop_last() =~= first + then.drop_last());
        assert((first + then).last() == then.last());
    }
}

} // verus!
