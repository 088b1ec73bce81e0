//! A run-exactly-once initializer.
//!
//! [`OneTimeInitializer`] guards an initialization step so that, no matter
//! how many callers race to run it, exactly one does. Its state moves
//! only forward: `Uninitialized` to `Running`, then to the terminal
//! `Complete` or `Poisoned`. A caller begins with
//! [`OneTimeInitializer::try_begin`]: the first to observe `Uninitialized`
//! is told to run the step, concurrent callers are told to wait for a
//! terminal state, and every caller after an abnormal termination of the
//! step is told the initializer is poisoned. The initiating caller reports back
//! with [`OneTimeInitializer::complete`] or [`OneTimeInitializer::poison`];
//! a waiting caller re-runs `try_begin` (parking between attempts) until a
//! terminal answer comes, so an embedding runtime supplies only the waiting.

use vstd::prelude::*;

verus! {

/// The lifecycle state of an initializer.
#[derive(Clone, Copy, PartialEq, Eq, Structural, Debug)]
pub enum OnceState {
    /// Nobody has started the initialization step yet.
    Uninitialized,
    /// Some caller is running the initialization step now.
    Running,
    /// The initialization step finished normally; terminal.
    Complete,
    /// The initialization step terminated abnormally; terminal.
    Poisoned,
}

/// What a caller of [`OneTimeInitializer::try_begin`] is told to do.
#[derive(Clone, Copy, PartialEq, Eq, Structural, Debug)]
pub enum BeginOutcome {
    /// This caller won the race: it must run the initialization step and
    /// then report back with `complete` or `poison`.
    MustRun,
    /// Another caller is running the step: wait and ask again.
    Wait,
    /// The step has already finished normally: proceed without running it.
    AlreadyDone,
    /// The step terminated abnormally: initialization is undefined and this
    /// call — like every past and future one — fails.
    Failed,
}

/// A run-exactly-once initializer.
pub struct OneTimeInitializer {
    state: OnceState,
}

impl OneTimeInitializer {
    /// The initializer's lifecycle state.
    pub closed spec fn state(self) -> OnceState {
        self.state
    }

    /// Creates an initializer whose step has not started.
    pub fn create() -> (g: Self)
        ensures
            g.state() is Uninitialized,
    {
        OneTimeInitializer { state: OnceState::Uninitialized }
    }

    /// One caller's attempt to pass the initializer. The answer is a pure function
    /// of the state, and only the winning attempt — the one that observes
    /// `Uninitialized` — changes it.
    pub fn try_begin(&mut self) -> (r: BeginOutcome)
        ensures
            old(self).state() is Uninitialized ==> r == BeginOutcome::MustRun
                && final(self).state() is Running,
            !(old(self).state() is Uninitialized) ==> *final(self) == *old(self),
            old(self).state() is Running ==> r == BeginOutcome::Wait,
            old(self).state() is Complete ==> r == BeginOutcome::AlreadyDone,
            old(self).state() is Poisoned ==> r == BeginOutcome::Failed,
    {
        match self.state {
            OnceState::Uninitialized => {
                self.state = OnceState::Running;
                BeginOutcome::MustRun
            },
            OnceState::Running => BeginOutcome::Wait,
            OnceState::Complete => BeginOutcome::AlreadyDone,
            OnceState::Poisoned => BeginOutcome::Failed,
        }
    }

    /// The running caller reports that the initialization step finished
    /// normally; the initializer is terminally complete.
    pub fn complete(&mut self)
        requires
            old(self).state() is Running,
        ensures
            final(self).state() is Complete,
    {
        self.state = OnceState::Complete;
    }

    /// The running caller terminated abnormally: the initialization effect
    /// is undefined and the initializer is terminally poisoned.
    pub fn poison(&mut self)
        requires
            old(self).state() is Running,
        ensures
            final(self).state() is Poisoned,
    {
        self.state = OnceState::Poisoned;
    }

    /// Whether the step has finished normally.
    pub fn is_complete(&self) -> (r: bool)
        ensures
            r == (self.state() is Complete),
    {
        matches!(self.state, OnceState::Complete)
    }

    /// Whether the step terminated abnormally.
    pub fn is_poisoned(&self) -> (r: bool)
        ensures
            r == (self.state() is Poisoned),
    {
        matches!(self.state, OnceState::Poisoned)
    }
}

/// One event in an initializer's history, for stating laws about whole
/// histories.
#[derive(Clone, Copy, PartialEq, Eq, Structural, Debug)]
pub enum OnceOp {
    /// Some caller made an attempt ([`OneTimeInitializer::try_begin`]).
    Begin,
    /// The running caller finished normally
    /// ([`OneTimeInitializer::complete`]).
    Complete,
    /// The running caller terminated abnormally
    /// ([`OneTimeInitializer::poison`]).
    Poison,
}

/// Whether `op` can occur in state `s`: attempts are always possible,
/// reports only from the running caller.
pub open spec fn once_op_enabled(s: OnceState, op: OnceOp) -> bool {
    match op {
        OnceOp::Begin => true,
        OnceOp::Complete => s is Running,
        OnceOp::Poison => s is Running,
    }
}

/// The state after `op` occurs in state `s`.
pub open spec fn once_op_step(s: OnceState, op: OnceOp) -> OnceState {
    match op {
        OnceOp::Begin => if s is Uninitialized {
            OnceState::Running
        } else {
            s
        },
        OnceOp::Complete => OnceState::Complete,
        OnceOp::Poison => OnceState::Poisoned,
    }
}

/// The state after the whole history `ops`, starting from `s`.
pub open spec fn once_run(s: OnceState, ops: Seq<OnceOp>) -> OnceState
    decreases ops.len(),
{
    if ops.len() == 0 {
        s
    } else {
        once_op_step(once_run(s, ops.drop_last()), ops.last())
    }
}

/// Whether every event of the history is enabled when it occurs.
pub open spec fn once_trace_valid(s: OnceState, ops: Seq<OnceOp>) -> bool
    decreases ops.len(),
{
    ops.len() == 0 || (once_trace_valid(s, ops.drop_last()) && once_op_enabled(
        once_run(s, ops.drop_last()),
        ops.last(),
    ))
}

/// How many attempts of the history won the race, that is, observed
/// `Uninitialized` and so were told to run the initialization step.
pub open spec fn runs_started(s: OnceState, ops: Seq<OnceOp>) -> int
    decreases ops.len(),
{
    if ops.len() == 0 {
        0
    } else {
        runs_started(s, ops.drop_last()) + if ops.last() is Begin && once_run(
            s,
            ops.drop_last(),
        ) is Uninitialized {
            1int
        } else {
            0int
        }
    }
}

/// Run-once: over any history of attempts and reports on a fresh
/// initializer, at most one attempt is ever told to run the initialization
/// step — exactly one as soon as the state has left `Uninitialized`, and
/// none before.
pub proof fn lemma_runs_at_most_once(ops: Seq<OnceOp>)
    requires
        once_trace_valid(OnceState::Uninitialized, ops),
    ensures
        runs_started(OnceState::Uninitialized, ops) == if once_run(
            OnceState::Uninitialized,
            ops,
        ) is Uninitialized {
            0int
        } else {
            1int
        },
    decreases ops.len(),
{
    if ops.len() > 0 {
        lemma_runs_at_most_once(ops.drop_last());
    }
}

/// A terminal state absorbs: once it is `Complete` or `Poisoned`, no
/// valid history moves it again — in particular it never re-enters
/// `Running`, and after poisoning every attempt, past and future, fails.
pub proof fn lemma_terminal_is_absorbing(s: OnceState, ops: Seq<OnceOp>)
    requires
        once_trace_valid(s, ops),
        s is Complete || s is Poisoned,
    ensures
        once_run(s, ops) == s,
    decreases ops.len(),
{
    if ops.len() > 0 {
        lemma_terminal_is_absorbing(s, ops.drop_last());
    }
}

} // verus!
