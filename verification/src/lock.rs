//! A mutual-exclusion lock with poisoning.
//!
//! [`MutualExclusionLock`] models an exclusive-access guard around a value.
//! Acquiring moves the protected value into a [`LockGuard`]; releasing moves
//! it back. While a guard is out the lock is held, so at most one holder has
//! access to the value at any instant. A holder that terminates abnormally
//! releases through [`MutualExclusionLock::release_poisoned`], which marks
//! the lock; every later acquisition surfaces the mark as a recoverable
//! [`PoisonError`] instead of silently granting access.
//!
//! Blocking is left to the embedding runtime: a contended caller re-runs
//! [`MutualExclusionLock::try_acquire`] (parking between attempts) until the
//! lock is free, while [`MutualExclusionLock::acquire`] is the direct
//! transition for a caller that already knows the lock is free.

use vstd::prelude::*;

verus! {

/// Exclusive access to the value protected by a [`MutualExclusionLock`],
/// held from acquisition until it is given back by a release.
#[derive(Debug)]
pub struct LockGuard<T> {
    value: T,
}

impl<T> LockGuard<T> {
    /// The protected value as currently held by this guard.
    pub closed spec fn value(self) -> T {
        self.value
    }

    /// Reads the protected value.
    pub fn read(&self) -> (r: &T)
        ensures
            *r == self.value(),
    {
        &self.value
    }

    /// Replaces the protected value.
    pub fn write(&mut self, value: T)
        ensures
            final(self).value() == value,
    {
        self.value = value;
    }
}

/// Recoverable report that a previous holder of the lock terminated
/// abnormally: the guard is still granted, but the protected value may no
/// longer satisfy the invariants its users maintain.
#[derive(Debug)]
pub struct PoisonError<T> {
    guard: LockGuard<T>,
}

impl<T> PoisonError<T> {
    /// The guard granted despite the poisoning.
    pub closed spec fn spec_guard(self) -> LockGuard<T> {
        self.guard
    }

    /// Recovers the guard, accepting that the value may be inconsistent.
    pub fn into_guard(self) -> (g: LockGuard<T>)
        ensures
            g == self.spec_guard(),
    {
        self.guard
    }
}

/// A value guarded by mutual exclusion, together with the poison flag.
pub struct MutualExclusionLock<T> {
    inner: Option<T>,
    poisoned: bool,
}

impl<T> MutualExclusionLock<T> {
    /// Whether a guard is currently out.
    pub closed spec fn held(self) -> bool {
        self.inner is None
    }

    /// Whether a holder terminated abnormally while the lock was held.
    pub closed spec fn poisoned(self) -> bool {
        self.poisoned
    }

    /// The protected value, meaningful while the lock is not held.
    pub closed spec fn stored(self) -> T
        recommends
            !self.held(),
    {
        self.inner->Some_0
    }

    /// Creates an unheld, unpoisoned lock protecting `value`.
    pub fn create(value: T) -> (l: Self)
        ensures
            !l.held(),
            !l.poisoned(),
            l.stored() == value,
    {
        MutualExclusionLock { inner: Some(value), poisoned: false }
    }

    /// Whether a holder has terminated abnormally while holding this lock.
    pub fn is_poisoned(&self) -> (r: bool)
        ensures
            r == self.poisoned(),
    {
        self.poisoned
    }

    /// Acquires the free lock, taking exclusive access to the value. A clean
    /// lock grants the guard directly; a poisoned one surfaces the guard
    /// inside a [`PoisonError`], never silently. Calling this on a held lock
    /// would mean waiting on oneself, so the transition asks the lock to be
    /// free; a contended caller loops on [`Self::try_acquire`] instead.
    pub fn acquire(&mut self) -> (r: Result<LockGuard<T>, PoisonError<T>>)
        requires
            !old(self).held(),
        ensures
            final(self).held(),
            final(self).poisoned() == old(self).poisoned(),
            !old(self).poisoned() ==> (r matches Ok(g) && g.value() == old(self).stored()),
            old(self).poisoned() ==> (r matches Err(e) && e.spec_guard().value() == old(
                self,
            ).stored()),
    {
        let value = self.inner.take().unwrap();
        let guard = LockGuard { value };
        if self.poisoned {
            Err(PoisonError { guard })
        } else {
            Ok(guard)
        }
    }

    /// Attempts to acquire without blocking: `None` exactly when the lock is
    /// already held, otherwise the same grant as [`Self::acquire`].
    pub fn try_acquire(&mut self) -> (r: Option<Result<LockGuard<T>, PoisonError<T>>>)
        ensures
            old(self).held() ==> r is None && *final(self) == *old(self),
            !old(self).held() ==> {
                &&& final(self).held()
                &&& final(self).poisoned() == old(self).poisoned()
                &&& !old(self).poisoned() ==> (r matches Some(a) && a matches Ok(g) && g.value()
                    == old(self).stored())
                &&& old(self).poisoned() ==> (r matches Some(a) && a matches Err(e)
                    && e.spec_guard().value() == old(self).stored())
            },
    {
        if self.inner.is_some() {
            Some(self.acquire())
        } else {
            None
        }
    }

    /// A holder going out of scope normally: the guard's value returns to
    /// the lock and the lock becomes free again.
    pub fn release(&mut self, guard: LockGuard<T>)
        requires
            old(self).held(),
        ensures
            !final(self).held(),
            final(self).poisoned() == old(self).poisoned(),
            final(self).stored() == guard.value(),
    {
        self.inner = Some(guard.value);
    }

    /// A holder terminating abnormally while the guard is alive: the value
    /// returns to the lock, but the lock is now poisoned, permanently, so
    /// that later holders learn the value's invariants are suspect.
    pub fn release_poisoned(&mut self, guard: LockGuard<T>)
        requires
            old(self).held(),
        ensures
            !final(self).held(),
            final(self).poisoned(),
            final(self).stored() == guard.value(),
    {
        self.inner = Some(guard.value);
        self.poisoned = true;
    }
}

/// The lock as seen by a history of acquisitions and releases, for stating
/// laws about whole histories.
pub struct LockTrace {
    /// Whether a guard is out.
    pub held: bool,
    /// Whether some holder has terminated abnormally.
    pub poisoned: bool,
}

/// One event in a lock's history.
#[derive(Clone, Copy, PartialEq, Eq, Structural, Debug)]
pub enum LockOp {
    /// A guard was granted ([`MutualExclusionLock::acquire`]).
    Acquire,
    /// The holder released normally ([`MutualExclusionLock::release`]).
    ReleaseNormal,
    /// The holder terminated abnormally
    /// ([`MutualExclusionLock::release_poisoned`]).
    ReleasePoisoned,
}

/// Whether `op` can occur in state `s`: a grant needs a free lock, a release
/// a held one.
pub open spec fn lock_op_enabled(s: LockTrace, op: LockOp) -> bool {
    match op {
        LockOp::Acquire => !s.held,
        LockOp::ReleaseNormal => s.held,
        LockOp::ReleasePoisoned => s.held,
    }
}

/// The state after `op` occurs in state `s`.
pub open spec fn lock_op_step(s: LockTrace, op: LockOp) -> LockTrace {
    match op {
        LockOp::Acquire => LockTrace { held: true, poisoned: s.poisoned },
        LockOp::ReleaseNormal => LockTrace { held: false, poisoned: s.poisoned },
        LockOp::ReleasePoisoned => LockTrace { held: false, poisoned: true },
    }
}

/// The state after the whole history `ops`, starting from `s`.
pub open spec fn lock_run(s: LockTrace, ops: Seq<LockOp>) -> LockTrace
    decreases ops.len(),
{
    if ops.len() == 0 {
        s
    } else {
        lock_op_step(lock_run(s, ops.drop_last()), ops.last())
    }
}

/// Poisoning is permanent: once any event of a history is an abnormal
/// release — and also whenever the lock was poisoned to begin with — every
/// later point of the history is poisoned. Together with the contract of
/// [`MutualExclusionLock::acquire`], every acquisition from such a point on
/// surfaces a [`PoisonError`] rather than granting a clean guard.
pub proof fn lemma_poisoning_propagates(s: LockTrace, ops: Seq<LockOp>)
    requires
        s.poisoned || exists|i: int| 0 <= i < ops.len() && ops[i] is ReleasePoisoned,
    ensures
        lock_run(s, ops).poisoned,
    decreases ops.len(),
{
    if !s.poisoned {
        let i = choose|i: int| 0 <= i < ops.len() && ops[i] is ReleasePoisoned;
        if i < ops.len() - 1 {
            assert(ops.drop_last()[i] is ReleasePoisoned);
            lemma_poisoning_propagates(s, ops.drop_last());
        }
    } else {
        if ops.len() > 0 {
            lemma_poisoning_propagates(s, ops.drop_last());
        }
    }
}

/// The phase of one worker that increments a shared counter once under the
/// lock: acquire, load the counter, store the loaded value plus one,
/// release.
#[derive(Clone, Copy, PartialEq, Eq, Structural, Debug)]
pub enum WorkerPhase {
    /// Not yet acquired the lock.
    Idle,
    /// Holds the lock, has not read the counter yet.
    Holding,
    /// Holds the lock, has loaded the counter into a local.
    Loaded,
    /// Holds the lock, has stored the incremented value.
    Stored,
    /// Released the lock; this worker's increment is complete.
    Done,
}

/// Global state of any number of workers racing to increment one
/// lock-protected counter: who holds the lock, the counter, and each
/// worker's phase and loaded local value.
pub struct CounterRace {
    /// The worker currently holding the lock, if any.
    pub holder: Option<int>,
    /// The shared counter the lock protects.
    pub counter: int,
    /// Each worker's phase.
    pub phases: Seq<WorkerPhase>,
    /// Each worker's local copy of the counter, meaningful in `Loaded`.
    pub locals: Seq<int>,
}

/// One scheduler step: the named worker advances by one instruction.
pub enum WorkerStep {
    /// The worker acquires the free lock.
    Acquire(int),
    /// The holder loads the counter into its local.
    Load(int),
    /// The holder stores its local plus one back into the counter.
    Store(int),
    /// The holder releases the lock.
    Release(int),
}

/// `n` workers, all idle, counter zero, lock free.
pub open spec fn race_init(n: nat) -> CounterRace {
    CounterRace {
        holder: None,
        counter: 0,
        phases: Seq::new(n, |i: int| WorkerPhase::Idle),
        locals: Seq::new(n, |i: int| 0),
    }
}

/// Whether a worker in phase `p` is inside the critical section.
pub open spec fn in_critical(p: WorkerPhase) -> bool {
    p is Holding || p is Loaded || p is Stored
}

/// Whether the scheduler may take `st` in state `s`. Only `Acquire` is
/// guarded globally — by the lock being free; the other steps follow each
/// worker's own program order, so nothing but the lock keeps the loads and
/// stores of different workers from interleaving.
pub open spec fn race_step_enabled(s: CounterRace, st: WorkerStep) -> bool {
    match st {
        WorkerStep::Acquire(t) => 0 <= t < s.phases.len() && s.phases[t] is Idle
            && s.holder is None,
        WorkerStep::Load(t) => 0 <= t < s.phases.len() && s.phases[t] is Holding,
        WorkerStep::Store(t) => 0 <= t < s.phases.len() && s.phases[t] is Loaded,
        WorkerStep::Release(t) => 0 <= t < s.phases.len() && s.phases[t] is Stored,
    }
}

/// The state after step `st` in state `s`.
pub open spec fn race_step(s: CounterRace, st: WorkerStep) -> CounterRace {
    match st {
        WorkerStep::Acquire(t) => CounterRace {
            holder: Some(t),
            counter: s.counter,
            phases: s.phases.update(t, WorkerPhase::Holding),
            locals: s.locals,
        },
        WorkerStep::Load(t) => CounterRace {
            holder: s.holder,
            counter: s.counter,
            phases: s.phases.update(t, WorkerPhase::Loaded),
            locals: s.locals.update(t, s.counter),
        },
        WorkerStep::Store(t) => CounterRace {
            holder: s.holder,
            counter: s.locals[t] + 1,
            phases: s.phases.update(t, WorkerPhase::Stored),
            locals: s.locals,
        },
        WorkerStep::Release(t) => CounterRace {
            holder: None,
            counter: s.counter,
            phases: s.phases.update(t, WorkerPhase::Done),
            locals: s.locals,
        },
    }
}

/// The state after the whole schedule `steps`, starting from `s`.
pub open spec fn race_run(s: CounterRace, steps: Seq<WorkerStep>) -> CounterRace
    decreases steps.len(),
{
    if steps.len() == 0 {
        s
    } else {
        race_step(race_run(s, steps.drop_last()), steps.last())
    }
}

/// Whether every step of the schedule is enabled when it is taken.
pub open spec fn race_trace_valid(s: CounterRace, steps: Seq<WorkerStep>) -> bool
    decreases steps.len(),
{
    steps.len() == 0 || (race_trace_valid(s, steps.drop_last()) && race_step_enabled(
        race_run(s, steps.drop_last()),
        steps.last(),
    ))
}

/// A worker's contribution to the counter: 1 once its store has happened.
pub open spec fn increment_of(p: WorkerPhase) -> int {
    if p is Stored || p is Done {
        1
    } else {
        0
    }
}

/// How many workers have completed their store.
pub open spec fn increments_done(phases: Seq<WorkerPhase>) -> int
    decreases phases.len(),
{
    if phases.len() == 0 {
        0
    } else {
        increments_done(phases.drop_last()) + increment_of(phases.last())
    }
}

/// The inductive invariant: the lock's holder and only the holder is inside
/// the critical section, the counter equals the number of completed stores,
/// and a holder that has loaded the counter still sees the current value —
/// no other worker can have stored in between.
pub open spec fn race_inv(s: CounterRace) -> bool {
    &&& s.phases.len() == s.locals.len()
    &&& s.holder matches Some(t) ==> 0 <= t < s.phases.len() && in_critical(s.phases[t])
    &&& forall|t: int|
        0 <= t < s.phases.len() && in_critical(#[trigger] s.phases[t]) ==> s.holder == Some(t)
    &&& s.counter == increments_done(s.phases)
    &&& forall|t: int|
        0 <= t < s.phases.len() && #[trigger] s.phases[t] is Loaded ==> s.locals[t] == s.counter
}

proof fn lemma_increments_done_update(phases: Seq<WorkerPhase>, t: int, p: WorkerPhase)
    requires
        0 <= t < phases.len(),
    ensures
        increments_done(phases.update(t, p)) == increments_done(phases) - increment_of(phases[t])
            + increment_of(p),
    decreases phases.len(),
{
    if t == phases.len() - 1 {
        assert(phases.update(t, p).drop_last() =~= phases.drop_last());
    } else {
        assert(phases.update(t, p).drop_last() =~= phases.drop_last().update(t, p));
        lemma_increments_done_update(phases.drop_last(), t, p);
    }
}

proof fn lemma_increments_done_none(phases: Seq<WorkerPhase>)
    requires
        forall|t: int| 0 <= t < phases.len() ==> increment_of(#[trigger] phases[t]) == 0,
    ensures
        increments_done(phases) == 0,
    decreases phases.len(),
{
    if phases.len() > 0 {
        lemma_increments_done_none(phases.drop_last());
    }
}

proof fn lemma_increments_done_all(phases: Seq<WorkerPhase>)
    requires
        forall|t: int| 0 <= t < phases.len() ==> increment_of(#[trigger] phases[t]) == 1,
    ensures
        increments_done(phases) == phases.len(),
    decreases phases.len(),
{
    if phases.len() > 0 {
        lemma_increments_done_all(phases.drop_last());
    }
}

proof fn lemma_race_step_preserves_inv(s: CounterRace, st: WorkerStep)
    requires
        race_inv(s),
        race_step_enabled(s, st),
    ensures
        race_inv(race_step(s, st)),
        race_step(s, st).phases.len() == s.phases.len(),
{
    match st {
        WorkerStep::Acquire(t) => {
            lemma_increments_done_update(s.phases, t, WorkerPhase::Holding);
        },
        WorkerStep::Load(t) => {
            lemma_increments_done_update(s.phases, t, WorkerPhase::Loaded);
        },
        WorkerStep::Store(t) => {
            lemma_increments_done_update(s.phases, t, WorkerPhase::Stored);
        },
        WorkerStep::Release(t) => {
            lemma_increments_done_update(s.phases, t, WorkerPhase::Done);
        },
    }
}

/// The invariant holds along every valid schedule.
pub proof fn lemma_race_run_inv(s: CounterRace, steps: Seq<WorkerStep>)
    requires
        race_inv(s),
        race_trace_valid(s, steps),
    ensures
        race_inv(race_run(s, steps)),
        race_run(s, steps).phases.len() == s.phases.len(),
    decreases steps.len(),
{
    if steps.len() > 0 {
        lemma_race_run_inv(s, steps.drop_last());
        lemma_race_step_preserves_inv(race_run(s, steps.drop_last()), steps.last());
    }
}

/// The initial state satisfies the invariant.
pub proof fn lemma_race_init_inv(n: nat)
    ensures
        race_inv(race_init(n)),
        race_init(n).phases.len() == n,
{
    lemma_increments_done_none(race_init(n).phases);
}

/// Mutual exclusion: at no point of any valid schedule are two distinct
/// workers inside the critical section at once.
pub proof fn lemma_mutual_exclusion(n: nat, steps: Seq<WorkerStep>, t1: int, t2: int)
    requires
        race_trace_valid(race_init(n), steps),
        0 <= t1 < n,
        0 <= t2 < n,
        in_critical(race_run(race_init(n), steps).phases[t1]),
        in_critical(race_run(race_init(n), steps).phases[t2]),
    ensures
        t1 == t2,
{
    lemma_race_init_inv(n);
    lemma_race_run_inv(race_init(n), steps);
}

/// For any number of workers and any thread interleaving the scheduler
/// allows, once every worker has finished its acquire–load–store–release
/// round, the counter is exactly the number of workers: the lock's mutual
/// exclusion loses no increment.
pub proof fn lemma_lock_counter_exact(n: nat, steps: Seq<WorkerStep>)
    requires
        race_trace_valid(race_init(n), steps),
        forall|t: int| 0 <= t < n ==> #[trigger] race_run(race_init(n), steps).phases[t] is Done,
    ensures
        race_run(race_init(n), steps).counter == n,
{
    lemma_race_init_inv(n);
    lemma_race_run_inv(race_init(n), steps);
    lemma_increments_done_all(race_run(race_init(n), steps).phases);
}

} // verus!
