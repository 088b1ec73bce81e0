//! Shared ownership with strong and weak reference counting.
//!
//! [`SharedOwnership`] models one reference-counted allocation: the wrapped
//! value, a strong count and a weak count. The value is reclaimed exactly
//! when the strong count falls from 1 to 0; the allocation itself may be
//! freed only once the weak count is 0 as well. Handles are modelled by the
//! counts: each live strong handle accounts for one unit of the strong count,
//! each weak handle for one unit of the weak count, and an operation on a
//! handle is a transition on this shared state.
//!
//! The allocation carries a ghost history of the strong-handle operations
//! performed on it, and its well-formedness ties the strong count to that
//! history; every sequence of calls therefore produces a valid history in
//! the sense of [`ops_valid`], and the exactly-once reclamation law
//! [`lemma_reclaimed_exactly_once`] applies to each reachable state.

use vstd::prelude::*;

verus! {

/// Error returned by [`SharedOwnership::upgrade`] when the value has already
/// been reclaimed.
#[derive(Clone, Copy, PartialEq, Eq, Structural, Debug)]
pub enum UpgradeError {
    /// The strong count had already reached zero, so the value is gone.
    Expired,
}

/// One reference-counted allocation: the wrapped value together with its
/// strong and weak counts.
pub struct SharedOwnership<T> {
    strong: u64,
    weak: u64,
    value: Option<T>,
    history: Ghost<Seq<RefOp>>,
}

impl<T> SharedOwnership<T> {
    /// Number of live strong handles.
    pub closed spec fn strong(self) -> int {
        self.strong as int
    }

    /// Number of live weak handles.
    pub closed spec fn weak(self) -> int {
        self.weak as int
    }

    /// The strong-handle operations performed on this allocation so far,
    /// oldest first.
    pub closed spec fn history(self) -> Seq<RefOp> {
        self.history@
    }

    /// Whether the wrapped value has not been reclaimed yet.
    pub closed spec fn value_alive(self) -> bool {
        self.value is Some
    }

    /// The wrapped value, meaningful while it is alive.
    pub closed spec fn stored(self) -> T
        recommends
            self.value_alive(),
    {
        self.value->Some_0
    }

    /// Well-formedness: the value is alive exactly while strong handles
    /// remain, counts never underflow, and the strong count is exactly what
    /// the recorded history of handle operations yields.
    pub open spec fn wf(self) -> bool {
        &&& self.value_alive() <==> self.strong() > 0
        &&& self.strong() >= 0
        &&& self.weak() >= 0
        &&& ops_valid(self.history())
        &&& self.strong() == strong_after(self.history())
    }

    /// Reports the number of live strong handles.
    pub fn strong_count(&self) -> (r: u64)
        ensures
            r == self.strong(),
    {
        self.strong
    }

    /// Reports the number of live weak handles.
    pub fn weak_count(&self) -> (r: u64)
        ensures
            r == self.weak(),
    {
        self.weak
    }

    /// Creates a fresh allocation holding `value`, owned by one strong
    /// handle and no weak handles.
    pub fn create(value: T) -> (s: Self)
        ensures
            s.wf(),
            s.strong() == 1,
            s.weak() == 0,
            s.value_alive(),
            s.stored() == value,
            s.history() == Seq::<RefOp>::empty(),
    {
        SharedOwnership { strong: 1, weak: 0, value: Some(value), history: Ghost(Seq::empty()) }
    }

    /// Clones a strong handle: one more owner of the same value.
    pub fn clone_handle(&mut self)
        requires
            old(self).wf(),
            old(self).strong() >= 1,
            old(self).strong() < u64::MAX,
        ensures
            final(self).wf(),
            final(self).strong() == old(self).strong() + 1,
            final(self).weak() == old(self).weak(),
            final(self).value_alive(),
            final(self).stored() == old(self).stored(),
            final(self).history() == old(self).history().push(RefOp::Clone),
    {
        self.strong = self.strong + 1;
        proof {
            self.history@ = self.history@.push(RefOp::Clone);
            assert(self.history@.drop_last() =~= old(self).history@);
        }
    }

    /// Drops a strong handle. The value is handed back for reclamation
    /// exactly when the last strong handle is dropped; otherwise the value
    /// stays alive, unchanged, for the remaining owners.
    pub fn drop_handle(&mut self) -> (reclaimed: Option<T>)
        requires
            old(self).wf(),
            old(self).strong() >= 1,
        ensures
            final(self).wf(),
            final(self).strong() == old(self).strong() - 1,
            final(self).weak() == old(self).weak(),
            old(self).strong() == 1 ==> reclaimed == Some(old(self).stored())
                && !final(self).value_alive(),
            old(self).strong() > 1 ==> reclaimed is None && final(self).value_alive()
                && final(self).stored() == old(self).stored(),
            final(self).history() == old(self).history().push(RefOp::Drop),
    {
        self.strong = self.strong - 1;
        proof {
            self.history@ = self.history@.push(RefOp::Drop);
            assert(self.history@.drop_last() =~= old(self).history@);
        }
        if self.strong == 0 {
            self.value.take()
        } else {
            None
        }
    }

    /// Read-only access to the shared value; the container itself confers no
    /// mutability.
    pub fn get(&self) -> (r: &T)
        requires
            self.wf(),
            self.strong() >= 1,
        ensures
            *r == self.stored(),
    {
        self.value.as_ref().unwrap()
    }

    /// Creates a weak handle: a back-reference that does not keep the value
    /// alive.
    pub fn downgrade(&mut self)
        requires
            old(self).wf(),
            old(self).strong() >= 1,
            old(self).weak() < u64::MAX,
        ensures
            final(self).wf(),
            final(self).strong() == old(self).strong(),
            final(self).weak() == old(self).weak() + 1,
            final(self).value_alive(),
            final(self).stored() == old(self).stored(),
            final(self).history() == old(self).history(),
    {
        self.weak = self.weak + 1;
    }

    /// Attempts to recover a strong handle from a weak one: succeeds, adding
    /// an owner, exactly while the value is still alive, and fails with
    /// [`UpgradeError::Expired`] once the strong count has reached zero.
    pub fn upgrade(&mut self) -> (r: Result<(), UpgradeError>)
        requires
            old(self).wf(),
            old(self).weak() >= 1,
            old(self).strong() < u64::MAX,
        ensures
            final(self).wf(),
            final(self).weak() == old(self).weak(),
            old(self).strong() == 0 ==> r == Err::<(), UpgradeError>(UpgradeError::Expired)
                && *final(self) == *old(self),
            old(self).strong() >= 1 ==> r == Ok::<(), UpgradeError>(())
                && final(self).strong() == old(self).strong() + 1
                && final(self).value_alive()
                && final(self).stored() == old(self).stored()
                && final(self).history() == old(self).history().push(RefOp::Clone),
    {
        if self.strong == 0 {
            Err(UpgradeError::Expired)
        } else {
            // A successful upgrade is one more owner: a clone through a
            // handle that the positive strong count proves live.
            self.strong = self.strong + 1;
            proof {
                self.history@ = self.history@.push(RefOp::Clone);
                assert(self.history@.drop_last() =~= old(self).history@);
            }
            Ok(())
        }
    }

    /// Drops a weak handle. Returns whether this drop allows the backing
    /// allocation to be freed: both counts have now reached zero.
    pub fn drop_weak(&mut self) -> (freed: bool)
        requires
            old(self).wf(),
            old(self).weak() >= 1,
        ensures
            final(self).wf(),
            final(self).strong() == old(self).strong(),
            final(self).weak() == old(self).weak() - 1,
            final(self).value_alive() == old(self).value_alive(),
            old(self).value_alive() ==> final(self).stored() == old(self).stored(),
            final(self).history() == old(self).history(),
            freed == (final(self).strong() == 0 && final(self).weak() == 0),
    {
        self.weak = self.weak - 1;
        self.strong == 0 && self.weak == 0
    }
}

/// One operation on a strong handle of a [`SharedOwnership`] allocation, for
/// stating laws about whole histories of handle activity.
#[derive(Clone, Copy, PartialEq, Eq, Structural, Debug)]
pub enum RefOp {
    /// A strong handle was cloned ([`SharedOwnership::clone_handle`]).
    Clone,
    /// A strong handle was dropped ([`SharedOwnership::drop_handle`]).
    Drop,
}

/// The strong count after the history `ops`, starting from a fresh
/// allocation with one strong handle.
pub open spec fn strong_after(ops: Seq<RefOp>) -> int
    decreases ops.len(),
{
    if ops.len() == 0 {
        1
    } else {
        strong_after(ops.drop_last()) + match ops.last() {
            RefOp::Clone => 1int,
            RefOp::Drop => -1int,
        }
    }
}

/// Whether the history `ops` is one that live handles can produce: every
/// operation acts through some handle that is still live, so the strong
/// count is at least 1 just before each operation.
pub open spec fn ops_valid(ops: Seq<RefOp>) -> bool
    decreases ops.len(),
{
    ops.len() == 0 || (ops_valid(ops.drop_last()) && strong_after(ops.drop_last()) >= 1)
}

/// How many operations of the history `ops` reclaimed the wrapped value,
/// that is, dropped the strong count to zero.
pub open spec fn reclaim_count(ops: Seq<RefOp>) -> int
    decreases ops.len(),
{
    if ops.len() == 0 {
        0
    } else {
        reclaim_count(ops.drop_last()) + if ops.last() is Drop && strong_after(ops) == 0 {
            1int
        } else {
            0int
        }
    }
}

/// In a valid history the strong count stays at least 1 before every
/// operation: once it reaches zero no handle is left to act through.
pub proof fn lemma_valid_prefix_live(ops: Seq<RefOp>, i: int)
    requires
        ops_valid(ops),
        0 <= i < ops.len(),
    ensures
        strong_after(ops.take(i)) >= 1,
        ops_valid(ops.take(i)),
    decreases ops.len(),
{
    if i == ops.len() - 1 {
        assert(ops.take(i) =~= ops.drop_last());
    } else {
        lemma_valid_prefix_live(ops.drop_last(), i);
        assert(ops.drop_last().take(i) =~= ops.take(i));
    }
}

/// Exactly-once reclamation: over any valid history of clone and drop
/// operations on one allocation, the wrapped value is reclaimed at most
/// once; it is reclaimed exactly once precisely when the history ends with
/// no strong handle left, and in that case the reclaiming operation is the
/// final drop — every earlier point of the history still has a live handle.
pub proof fn lemma_reclaimed_exactly_once(ops: Seq<RefOp>)
    requires
        ops_valid(ops),
    ensures
        reclaim_count(ops) == if strong_after(ops) == 0 {
            1int
        } else {
            0int
        },
        strong_after(ops) == 0 ==> ops.len() >= 1 && ops.last() is Drop,
    decreases ops.len(),
{
    if ops.len() > 0 {
        lemma_reclaimed_exactly_once(ops.drop_last());
    }
}

/// The exactly-once law read off a reachable allocation state: its history
/// is valid by well-formedness, so the wrapped value has been reclaimed
/// exactly once if it is no longer alive, and not at all while it is.
pub proof fn lemma_state_reclaimed_exactly_once<T>(s: SharedOwnership<T>)
    requires
        s.wf(),
    ensures
        reclaim_count(s.history()) == if s.value_alive() {
            0int
        } else {
            1int
        },
{
    lemma_reclaimed_exactly_once(s.history());
}

} // verus!
