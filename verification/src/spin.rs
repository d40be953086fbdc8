//! Busy-wait mutual exclusion with poisoning.
//!
//! On the machine the lock spins a compare-exchange on an atomic flag; this
//! kernel runs on a single hart, so the discipline is modelled as the
//! three-state machine it implements: unlocked, locked, and poisoned.  A
//! release that observes the flag outside the expected locked state marks the
//! lock poisoned — a trip-wire against violated exclusivity rather than
//! silent corruption — and poison is never cleared implicitly.

use vstd::prelude::*;

verus! {

/// Why an acquisition attempt was refused.
#[derive(Clone, Copy, PartialEq, Eq, Structural, Debug)]
pub enum LockError {
    /// The lock is currently held.
    Locked,
    /// The lock is poisoned.
    Poisoned,
}

impl LockError {
    /// The diagnostic message for this error.
    pub fn describe(&self) -> (r: String)
        ensures
            *self == LockError::Locked ==> r@ == "The SpinLock is on locked."@,
            *self == LockError::Poisoned ==> r@ == "The SpinLock is poisoned by a panicked thread."@,
    {
        match self {
            LockError::Locked => "The SpinLock is on locked.".to_owned(),
            LockError::Poisoned => "The SpinLock is poisoned by a panicked thread.".to_owned(),
        }
    }
}

/// A spin lock protecting a value of type `T`.
pub struct SpinLock<T> {
    locked: bool,
    poisoned: bool,
    value: Option<T>,
}

/// Exclusive handle on the protected value.  While a guard is live the lock
/// holds no value; releasing the guard through [`SpinLock::unlock`] hands the
/// value back and clears the flag.
pub struct SpinGuard<T> {
    pub value: T,
}

impl<T> SpinGuard<T> {
    /// Wraps a value as a guard.
    pub fn new(value: T) -> (g: SpinGuard<T>)
        ensures
            g.value == value,
    {
        SpinGuard { value }
    }
}

impl<T> SpinLock<T> {
    /// True while a guard is live.
    pub closed spec fn is_locked(&self) -> bool {
        self.locked
    }

    /// True once a release observed the lock in an unexpected state.
    pub closed spec fn spec_poisoned(&self) -> bool {
        self.poisoned
    }

    /// The protected value; absent while a guard is live.
    pub closed spec fn stored(&self) -> Option<T> {
        self.value
    }

    /// The value is out exactly while the lock is held.
    pub open spec fn wf(&self) -> bool {
        self.stored() is Some <==> !self.is_locked()
    }

    /// The state after one successful acquisition: the flag is taken and the
    /// value moves out into the guard.
    pub closed spec fn acquired(self) -> SpinLock<T> {
        SpinLock { locked: true, poisoned: self.poisoned, value: None }
    }

    /// The state after a guard holding `v` is released: a lock seen in the
    /// expected locked state is handed back its value and unlocked; any other
    /// observation poisons the lock.
    pub closed spec fn released(self, v: T) -> SpinLock<T> {
        if self.locked {
            SpinLock { locked: false, poisoned: self.poisoned, value: Some(v) }
        } else {
            SpinLock { locked: self.locked, poisoned: true, value: self.value }
        }
    }

    /// The state after the poison flag is explicitly cleared.
    pub closed spec fn poison_cleared(self) -> SpinLock<T> {
        SpinLock { locked: self.locked, poisoned: false, value: self.value }
    }

    /// What one non-spinning acquisition attempt answers in this state.
    pub open spec fn try_outcome(self) -> Result<(), LockError> {
        if self.spec_poisoned() {
            Err(LockError::Poisoned)
        } else if self.is_locked() {
            Err(LockError::Locked)
        } else {
            Ok(())
        }
    }

    /// A fresh lock: unlocked, unpoisoned, holding `value`.
    pub fn new(value: T) -> (l: SpinLock<T>)
        ensures
            !l.is_locked(),
            !l.spec_poisoned(),
            l.stored() == Some(value),
            l.wf(),
    {
        SpinLock { locked: false, poisoned: false, value: Some(value) }
    }

    /// Acquires the lock and yields the guard.
    ///
    /// On the machine this call panics on a poisoned lock and spins until the
    /// flag is free; with a single hart a call on a held lock would spin
    /// forever.  Neither call returns, so both states are excluded here.
    pub fn lock(&mut self) -> (g: SpinGuard<T>)
        requires
            !old(self).is_locked(),
            !old(self).spec_poisoned(),
            old(self).wf(),
        ensures
            *final(self) == old(self).acquired(),
            Some(g.value) == old(self).stored(),
            final(self).is_locked(),
            final(self).spec_poisoned() == old(self).spec_poisoned(),
            final(self).stored() is None,
            final(self).wf(),
    {
        self.locked = true;
        let v = self.value.take();
        match v {
            Some(value) => SpinGuard { value },
            None => unreached(),
        }
    }

    /// Tries to acquire once, without spinning: refused while poisoned or
    /// held, a guard otherwise.
    pub fn try_lock(&mut self) -> (r: Result<SpinGuard<T>, LockError>)
        requires
            old(self).wf(),
        ensures
            r is Ok <==> old(self).try_outcome() is Ok,
            r matches Err(e) ==> old(self).try_outcome() == Err::<(), LockError>(e),
            r matches Ok(g) ==> *final(self) == old(self).acquired() && Some(g.value) == old(
                self,
            ).stored(),
            r is Ok ==> final(self).is_locked() && final(self).stored() is None
                && final(self).spec_poisoned() == old(self).spec_poisoned(),
            r is Err ==> *final(self) == *old(self),
            final(self).wf(),
    {
        if self.poisoned {
            Err(LockError::Poisoned)
        } else if self.locked {
            Err(LockError::Locked)
        } else {
            Ok(self.lock())
        }
    }

    /// Releases a guard.  A lock seen in the expected locked state takes its
    /// value back and unlocks; any other observation poisons the lock.
    pub fn unlock(&mut self, g: SpinGuard<T>)
        requires
            old(self).wf(),
        ensures
            *final(self) == old(self).released(g.value),
            old(self).is_locked() ==> !final(self).is_locked() && final(self).spec_poisoned()
                == old(self).spec_poisoned() && final(self).stored() == Some(g.value),
            !old(self).is_locked() ==> final(self).spec_poisoned() && !final(self).is_locked()
                && final(self).stored() == old(self).stored(),
            final(self).wf(),
    {
        if self.locked {
            self.locked = false;
            self.value = Some(g.value);
        } else {
            self.poisoned = true;
        }
    }

    /// Runs `f` with exclusive access for exactly the closure's duration;
    /// the guard it hands back is released before this returns.
    pub fn scoped<F, U>(&mut self, f: F) -> (r: U) where F: FnOnce(SpinGuard<T>) -> (SpinGuard<T>, U)
        requires
            !old(self).is_locked(),
            !old(self).spec_poisoned(),
            old(self).wf(),
            forall|g: SpinGuard<T>|
                Some(g.value) == old(self).stored() ==> #[trigger] f.requires((g,)),
        ensures
            exists|g2: SpinGuard<T>|
                #[trigger] f.ensures(
                    ((SpinGuard { value: old(self).stored().unwrap() }),),
                    (g2, r),
                ) && *final(self) == old(self).acquired().released(g2.value),
            !final(self).is_locked(),
            final(self).spec_poisoned() == old(self).spec_poisoned(),
            final(self).stored() is Some,
            final(self).wf(),
    {
        let g = self.lock();
        let ghost g0 = g;
        let (g2, u) = f(g);
        proof {
            assert(g0 == (SpinGuard { value: old(self).stored().unwrap() }));
            assert(f.ensures(((SpinGuard { value: old(self).stored().unwrap() }),), (g2, u)));
        }
        self.unlock(g2);
        u
    }

    /// Like [`SpinLock::scoped`], but refuses instead of waiting: when the
    /// lock is poisoned or held the closure is handed back unrun.
    pub fn try_scoped<F, U>(&mut self, f: F) -> (r: Result<U, F>) where
        F: FnOnce(SpinGuard<T>) -> (SpinGuard<T>, U),

        requires
            old(self).wf(),
            old(self).try_outcome() is Ok ==> forall|g: SpinGuard<T>|
                Some(g.value) == old(self).stored() ==> #[trigger] f.requires((g,)),
        ensures
            r is Ok <==> old(self).try_outcome() is Ok,
            r is Ok ==> exists|g2: SpinGuard<T>, u: U|
                #[trigger] f.ensures(
                    ((SpinGuard { value: old(self).stored().unwrap() }),),
                    (g2, u),
                ) && r == Ok::<U, F>(u) && *final(self) == old(self).acquired().released(g2.value),
            r is Err ==> *final(self) == *old(self),
            r is Ok ==> !final(self).is_locked() && final(self).stored() is Some
                && final(self).spec_poisoned() == old(self).spec_poisoned(),
            final(self).wf(),
    {
        if self.poisoned || self.locked {
            Err(f)
        } else {
            let g = self.lock();
            let ghost g0 = g;
            let (g2, u) = f(g);
            proof {
                assert(g0 == (SpinGuard { value: old(self).stored().unwrap() }));
                assert(f.ensures(((SpinGuard { value: old(self).stored().unwrap() }),), (g2, u)));
            }
            self.unlock(g2);
            Ok(u)
        }
    }

    /// Swaps the protected value for `value` and hands the old one back,
    /// without taking the lock.  On the machine this bypasses the flag and
    /// is sound only while no guard is live, which is what the model
    /// requires outright.
    pub fn replace(&mut self, value: T) -> (r: T)
        requires
            !old(self).is_locked(),
            old(self).wf(),
        ensures
            Some(r) == old(self).stored(),
            final(self).stored() == Some(value),
            final(self).is_locked() == old(self).is_locked(),
            final(self).spec_poisoned() == old(self).spec_poisoned(),
            final(self).wf(),
    {
        let prev = self.value.take();
        self.value = Some(value);
        match prev {
            Some(v) => v,
            None => unreached(),
        }
    }

    /// Whether the lock is poisoned.
    pub fn is_poisoned(&self) -> (r: bool)
        ensures
            r == self.spec_poisoned(),
    {
        self.poisoned
    }

    /// Explicitly clears the poison flag; poison is never cleared otherwise.
    pub fn clear_poison(&mut self)
        ensures
            *final(self) == old(self).poison_cleared(),
            !final(self).spec_poisoned(),
            final(self).is_locked() == old(self).is_locked(),
            final(self).stored() == old(self).stored(),
    {
        self.poisoned = false;
    }
}

/// Law: a lock/unlock cycle on an unpoisoned, unheld lock returns it to
/// exactly the state it started in — so any number of repeated cycles
/// succeeds.
pub proof fn lemma_acquire_release_cycle<T>(l: SpinLock<T>, v: T)
    requires
        !l.is_locked(),
        !l.spec_poisoned(),
        l.wf(),
        l.stored() == Some(v),
    ensures
        l.acquired().released(v) == l,
{
}

/// Law: while a guard is live, a second acquisition is refused, and it
/// succeeds again as soon as the guard is released.
pub proof fn lemma_held_blocks_acquisition<T>(l: SpinLock<T>, v: T)
    requires
        !l.spec_poisoned(),
    ensures
        l.acquired().try_outcome() == Err::<(), LockError>(LockError::Locked),
        l.acquired().released(v).try_outcome() is Ok,
{
}

/// Law: a poisoned lock refuses every acquisition until the poison is
/// explicitly cleared, after which acquisition succeeds again.
pub proof fn lemma_poison_blocks_acquisition<T>(l: SpinLock<T>)
    requires
        l.spec_poisoned(),
    ensures
        l.try_outcome() == Err::<(), LockError>(LockError::Poisoned),
        !l.is_locked() ==> l.poison_cleared().try_outcome() is Ok,
{
}

} // verus!
