use vstd::prelude::*;

use crate::portal::Violation;

verus! {

/// The ephemeral state owned by the task executing a `wait`: the user
/// closure, the storage for its result, and the armed scoped-cancellation
/// guard. It exists from the moment the wait is registered until the wait is
/// completed, and stands in for the waiter's stack frame that the portal's
/// slot refers to.
///
/// Resolution is split in two so the producer and the consumer side each keep
/// their own step: [`deliver`](Self::deliver) is the adapter the producer's
/// `call` runs synchronously (apply the closure, store the result, signal),
/// and [`complete`](Self::complete) is the resumed waiter reading the result
/// out and disarming the guard. Dropping the pending wait while the guard is
/// still armed is the fatal abandonment case;
/// [`disposal_violation`](Self::disposal_violation) is the verdict the
/// destructor must act on.
pub struct PendingWait<R, F> {
    func: F,
    result: Option<R>,
    guard_armed: bool,
}

impl<R, F> PendingWait<R, F> {
    /// The user closure this wait will apply to the delivered value.
    pub closed spec fn callback(&self) -> F {
        self.func
    }

    /// The result storage: `None` until a value has been delivered.
    pub closed spec fn stored(&self) -> Option<R> {
        self.result
    }

    /// Whether the wait has been resolved, i.e. the signal that resumes the
    /// waiting task has fired. The signal fires exactly when the result is
    /// written, so the two are one.
    pub open spec fn resolved(&self) -> bool {
        self.stored() is Some
    }

    /// Whether the scoped cancellation guard is still armed. It is armed from
    /// registration until `complete` disarms it; destroying the pending wait
    /// while it is armed is fatal.
    pub closed spec fn armed(&self) -> bool {
        self.guard_armed
    }

    /// Begins a pending wait around `func`: nothing delivered yet, guard
    /// armed.
    pub(crate) fn begin(func: F) -> (pw: Self)
        ensures
            pw.callback() == func,
            !pw.resolved(),
            pw.armed(),
    {
        PendingWait { func, result: None, guard_armed: true }
    }

    /// Whether the wait has been resolved by a delivery.
    pub fn is_resolved(&self) -> (r: bool)
        ensures
            r == self.resolved(),
    {
        self.result.is_some()
    }

    /// Whether the cancellation guard is still armed.
    pub fn is_armed(&self) -> (r: bool)
        ensures
            r == self.armed(),
    {
        self.guard_armed
    }

    /// The adapter a producer's `call` runs synchronously on its own stack
    /// when it finds this waiter registered: applies the user closure to the
    /// delivered value, stores the result, and thereby fires the signal that
    /// resumes the waiting task. A waiter is delivered to at most once.
    pub fn deliver<T>(&mut self, val: T) where F: Fn(T) -> R
        requires
            !old(self).resolved(),
            old(self).callback().requires((val,)),
        ensures
            final(self).resolved(),
            final(self).stored() matches Some(out) && old(self).callback().ensures((val,), out),
            final(self).callback() == old(self).callback(),
            final(self).armed() == old(self).armed(),
    {
        let out = (self.func)(val);
        self.result = Some(out);
    }

    /// Normal completion of the wait, run by the resumed task: disarms the
    /// cancellation guard and takes the delivered result out of storage.
    pub fn complete(&mut self) -> (r: R)
        requires
            old(self).resolved(),
        ensures
            old(self).stored() == Some(r),
            !final(self).resolved(),
            !final(self).armed(),
            final(self).callback() == old(self).callback(),
    {
        self.guard_armed = false;
        let taken = self.result.take();
        match taken {
            Some(r) => r,
            None => vstd::pervasive::unreached(),
        }
    }

    /// The verdict on destroying this pending wait as it stands: dropping it
    /// while the guard is still armed abandons a registered waiter (the slot
    /// would keep referring to a dead frame) and is the fatal abandonment
    /// violation; after a normal completion there is nothing to object to.
    pub fn disposal_violation(&self) -> (r: Option<Violation>)
        ensures
            r == if self.armed() {
                Some(Violation::AbandonedWaitViolation)
            } else {
                None::<Violation>
            },
    {
        if self.guard_armed {
            Some(Violation::AbandonedWaitViolation)
        } else {
            None
        }
    }
}

} // verus!
