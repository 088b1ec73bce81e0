//! A reusable N-party rendezvous barrier.
//!
//! [`RendezvousBarrier`] is a synchronization point for a fixed number of
//! parties. Each party announces itself with [`RendezvousBarrier::arrive`]:
//! the arrival that completes the party count releases the whole round and
//! is designated the leader; every other arrival of the round receives a
//! ticket stamped with the round's generation and waits — re-running
//! [`RendezvousBarrier::passed`] (parking between attempts) — until the
//! generation moves past its stamp, whereupon it proceeds as a follower.
//!
//! Release and reuse are both carried by the generation counter: the Nth
//! arrival increments it and resets the arrival count, so the barrier is
//! immediately ready for the next round, and a ticket from an earlier round
//! can never be confused with one from the round now filling — a thread
//! lapped into the next round holds a ticket with a larger stamp and so
//! never counts toward, or is released by, the previous round.

use vstd::prelude::*;
use vstd::arithmetic::div_mod::lemma_fundamental_div_mod_converse;

verus! {

/// How one `arrive` call proceeds.
#[derive(Clone, Copy, PartialEq, Eq, Structural, Debug)]
pub enum Arrival {
    /// This arrival completed the round: all parties of the round have
    /// arrived, the round is released, and this caller does the per-round
    /// bookkeeping.
    Leader,
    /// The round is not complete yet: wait until the stamped generation has
    /// passed, then proceed as a follower.
    Pending(u64),
}

/// A rendezvous point for a fixed number of parties, reusable across
/// rounds.
pub struct RendezvousBarrier {
    parties: usize,
    arrived: usize,
    generation: u64,
    arrivals: Ghost<nat>,
}

impl RendezvousBarrier {
    /// The fixed number of parties that must arrive to release a round.
    pub closed spec fn parties(self) -> int {
        self.parties as int
    }

    /// How many parties of the current round have arrived so far.
    pub closed spec fn arrived(self) -> int {
        self.arrived as int
    }

    /// The current round number.
    pub closed spec fn generation(self) -> int {
        self.generation as int
    }

    /// How many arrivals this barrier has seen in total, over all rounds.
    pub closed spec fn arrivals(self) -> nat {
        self.arrivals@
    }

    /// Well-formedness: at least one party; a round is released — never
    /// left pending — the moment it is full; and the counters are exactly
    /// what the total number of arrivals determines, so the laws over
    /// [`barrier_after`] apply to every reachable state.
    pub open spec fn wf(self) -> bool {
        &&& self.parties() >= 1
        &&& 0 <= self.arrived() < self.parties()
        &&& (self.generation(), self.arrived()) == barrier_after(self.parties(), self.arrivals())
    }

    /// Reports the fixed party count.
    pub fn party_count(&self) -> (r: usize)
        ensures
            r == self.parties(),
    {
        self.parties
    }

    /// Reports the current round number.
    pub fn generation_count(&self) -> (r: u64)
        ensures
            r == self.generation(),
    {
        self.generation
    }

    /// Creates a barrier for `parties` parties, in round zero with nobody
    /// arrived.
    pub fn create(parties: usize) -> (b: Self)
        requires
            parties >= 1,
        ensures
            b.wf(),
            b.parties() == parties,
            b.arrived() == 0,
            b.generation() == 0,
            b.arrivals() == 0,
    {
        RendezvousBarrier { parties, arrived: 0, generation: 0, arrivals: Ghost(0) }
    }

    /// One party arrives. The arrival that fills the round releases it:
    /// the generation advances and the arrival count resets, so the barrier
    /// is ready for reuse without reconstruction. Any earlier arrival is
    /// stamped with the current generation and waits for it to pass. The
    /// generation bound is a machine limit on the number of rounds.
    pub fn arrive(&mut self) -> (r: Arrival)
        requires
            old(self).wf(),
            old(self).generation() < u64::MAX,
        ensures
            final(self).wf(),
            final(self).parties() == old(self).parties(),
            old(self).arrived() + 1 == old(self).parties() ==> r == Arrival::Leader
                && final(self).arrived() == 0
                && final(self).generation() == old(self).generation() + 1,
            old(self).arrived() + 1 < old(self).parties() ==> (r matches Arrival::Pending(g)
                && g == old(self).generation())
                && final(self).arrived() == old(self).arrived() + 1
                && final(self).generation() == old(self).generation(),
            final(self).arrivals() == old(self).arrivals() + 1,
    {
        proof {
            self.arrivals@ = self.arrivals@ + 1;
        }
        if self.arrived + 1 == self.parties {
            self.arrived = 0;
            self.generation = self.generation + 1;
            Arrival::Leader
        } else {
            self.arrived = self.arrived + 1;
            Arrival::Pending(self.generation)
        }
    }

    /// Whether the round a pending arrival was stamped with has been
    /// released: its generation lies in the past.
    pub fn passed(&self, stamp: u64) -> (r: bool)
        ensures
            r == (self.generation() > stamp),
    {
        self.generation > stamp
    }
}

/// The barrier's counters after `m` arrivals at an `n`-party barrier,
/// starting fresh: the pair of generation and arrival count.
pub open spec fn barrier_after(n: int, m: nat) -> (int, int)
    decreases m,
{
    if m == 0 {
        (0, 0)
    } else {
        let prev = barrier_after(n, (m - 1) as nat);
        if prev.1 + 1 == n {
            (prev.0 + 1, 0)
        } else {
            (prev.0, prev.1 + 1)
        }
    }
}

/// After `m` arrivals the generation and arrival count are exactly the
/// quotient and remainder of `m` by the party count: every full group of
/// `n` arrivals has completed one round, and the remainder is still
/// pending.
pub proof fn lemma_barrier_counts(n: int, m: nat)
    requires
        n >= 1,
    ensures
        barrier_after(n, m).0 * n + barrier_after(n, m).1 == m,
        0 <= barrier_after(n, m).1 < n,
        barrier_after(n, m).0 == m as int / n,
        barrier_after(n, m).1 == m as int % n,
    decreases m,
{
    if m > 0 {
        lemma_barrier_counts(n, (m - 1) as nat);
        let prev = barrier_after(n, (m - 1) as nat);
        assert((prev.0 + 1) * n == prev.0 * n + n) by (nonlinear_arith);
    }
    lemma_fundamental_div_mod_converse(m as int, n, barrier_after(n, m).0, barrier_after(n, m).1);
}

/// Rendezvous and reuse: an arrival stamped with generation `g` is released
/// — the generation has moved past its stamp — exactly when at least
/// `(g + 1) * n` arrivals have occurred, that is, when every one of the `n`
/// parties of round `g` has arrived; and this holds of every round alike,
/// so the same barrier serves round after round. No arrival of round `g`
/// is released early, and an arrival lapped into a later round — holding a
/// stamp greater than `g` — neither counts toward round `g` nor is released
/// by it.
pub proof fn lemma_rendezvous_release(n: int, m: nat, g: int)
    requires
        n >= 1,
        g >= 0,
    ensures
        barrier_after(n, m).0 > g <==> m >= (g + 1) * n,
{
    lemma_barrier_counts(n, m);
    let gen = barrier_after(n, m).0;
    let arr = barrier_after(n, m).1;
    if gen > g {
        assert(gen * n >= (g + 1) * n) by (nonlinear_arith)
            requires
                gen >= g + 1,
                n >= 1,
        ;
    }
    if m >= (g + 1) * n {
        assert(gen >= g + 1) by (nonlinear_arith)
            requires
                gen * n + arr == m,
                m >= (g + 1) * n,
                0 <= arr < n,
                n >= 1,
        ;
    }
}

/// Whether the `m`-th arrival (counting from 1) is the one that releases
/// its round and so returns [`Arrival::Leader`].
pub open spec fn is_leader_arrival(n: int, m: nat) -> bool
    recommends
        m >= 1,
{
    barrier_after(n, (m - 1) as nat).1 + 1 == n
}

/// One leader per round: the arrival that leads is exactly the last of its
/// round, the one whose ordinal is a full multiple of the party count, so
/// each released round has designated exactly one leader and the other
/// `n - 1` arrivals of the round are followers.
pub proof fn lemma_one_leader_per_round(n: int, m: nat)
    requires
        n >= 1,
        m >= 1,
    ensures
        is_leader_arrival(n, m) <==> m as int % n == 0,
{
    lemma_barrier_counts(n, (m - 1) as nat);
    let gen = barrier_after(n, (m - 1) as nat).0;
    let arr = barrier_after(n, (m - 1) as nat).1;
    if arr + 1 == n {
        assert((gen + 1) * n == gen * n + n) by (nonlinear_arith);
        lemma_fundamental_div_mod_converse(m as int, n, gen + 1, 0);
    } else {
        lemma_fundamental_div_mod_converse(m as int, n, gen, arr + 1);
    }
}

} // verus!
