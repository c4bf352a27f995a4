use core::marker::PhantomData;
use vstd::prelude::*;

use crate::context::{check_thread_mode, current_context, ExecContext};
use crate::pending::PendingWait;

verus! {

/// A fatal usage violation of the portal. These are programmer errors, not
/// recoverable runtime failures: the portal reports them as values, and the
/// surrounding runtime is expected to halt the offending context with the
/// matching [`message`](Self::message) rather than continue.
#[derive(Clone, Copy, Debug, PartialEq, Eq, Structural)]
pub enum Violation {
    /// `call` or `wait` was invoked from an interrupt-like context.
    ContextViolation,
    /// A second `wait` was registered while one was already pending.
    DoubleWaiterViolation,
    /// A pending `wait` was destroyed before a `call` resolved it.
    AbandonedWaitViolation,
}

impl Violation {
    /// The diagnostic the runtime should halt with for this violation.
    pub fn message(&self) -> (r: &'static str)
        ensures
            self is ContextViolation ==> r@ == "portals are not usable from interrupts"@,
            self is DoubleWaiterViolation ==> r@ == "multiple tasks waiting on same portal"@,
            self is AbandonedWaitViolation ==> r@ == "portal wait abandoned before resolution"@,
    {
        match self {
            Violation::ContextViolation => {
                proof {
                    reveal_strlit("portals are not usable from interrupts");
                }
                "portals are not usable from interrupts"
            },
            Violation::DoubleWaiterViolation => {
                proof {
                    reveal_strlit("multiple tasks waiting on same portal");
                }
                "multiple tasks waiting on same portal"
            },
            Violation::AbandonedWaitViolation => {
                proof {
                    reveal_strlit("portal wait abandoned before resolution");
                }
                "portal wait abandoned before resolution"
            },
        }
    }
}

/// The registration slot of a portal: either no task is waiting, or exactly
/// one waiter is registered. These are the two states of the portal's state
/// machine; there is no queue and no third state.
#[derive(Clone, Copy, Debug, PartialEq, Eq, Structural)]
pub enum SlotState {
    /// No task is waiting; a `call` here is a silent no-op.
    Empty,
    /// Exactly one waiter is registered and suspended.
    Registered,
}

/// The slot after a `call` from context `ctx`: a thread-mode call always
/// leaves the slot empty (it consumes the registered waiter if there is one,
/// and is a no-op otherwise), while a call from an interrupt-like context is
/// refused before it touches the slot.
pub open spec fn slot_after_call(s: SlotState, ctx: ExecContext) -> SlotState {
    if ctx is ThreadMode {
        SlotState::Empty
    } else {
        s
    }
}

/// Whether a `call` from context `ctx` delivers its value to a waiter:
/// exactly when it runs in thread mode and a waiter is registered.
pub open spec fn call_delivers(s: SlotState, ctx: ExecContext) -> bool {
    ctx is ThreadMode && s is Registered
}

/// The violation a `call` from context `ctx` raises, if any: only the
/// context violation, and only from an interrupt-like context. Calling an
/// idle portal is legal and silent.
pub open spec fn call_violation(ctx: ExecContext) -> Option<Violation> {
    if ctx is InterruptLike {
        Some(Violation::ContextViolation)
    } else {
        None
    }
}

/// Whether a `wait` from context `ctx` may register its waiter: only in
/// thread mode, and only while nobody else is waiting.
pub open spec fn wait_granted(s: SlotState, ctx: ExecContext) -> bool {
    ctx is ThreadMode && s is Empty
}

/// The slot after an attempted `wait`: registered when the wait was granted,
/// unchanged otherwise (a refused wait is a fatal violation, not a
/// transition).
pub open spec fn slot_after_wait(s: SlotState, ctx: ExecContext) -> SlotState {
    if wait_granted(s, ctx) {
        SlotState::Registered
    } else {
        s
    }
}

/// The violation an attempted `wait` raises, if any: the context violation
/// from an interrupt-like context, the double-waiter violation when a waiter
/// is already registered, and none when the wait is granted.
pub open spec fn wait_violation(s: SlotState, ctx: ExecContext) -> Option<Violation> {
    if ctx is InterruptLike {
        Some(Violation::ContextViolation)
    } else if s is Registered {
        Some(Violation::DoubleWaiterViolation)
    } else {
        None
    }
}

/// The rendezvous point: a single slot through which one execution context
/// hands a value to the one task that registered a waiter, generic over the
/// delivered value type `T`.
///
/// While armed, the slot stands for the registered waiter's [`PendingWait`];
/// the runtime that drives both sides routes a delivered value to its
/// waiter, and the slot records the state-machine state the contracts speak
/// of.
pub struct Portal<T> {
    state: SlotState,
    value_type: PhantomData<T>,
}

impl<T> Portal<T> {
    /// The current state of the registration slot.
    pub closed spec fn slot(&self) -> SlotState {
        self.state
    }

    /// No task is waiting on this portal.
    pub open spec fn is_idle(&self) -> bool {
        self.slot() is Empty
    }

    /// Exactly one task is waiting on this portal.
    pub open spec fn is_armed(&self) -> bool {
        self.slot() is Registered
    }

    /// The current state of the registration slot, as a value.
    pub fn slot_state(&self) -> (s: SlotState)
        ensures
            s == self.slot(),
    {
        self.state
    }

    /// A fresh portal with an empty slot.
    pub fn new() -> (p: Self)
        ensures
            p.is_idle(),
    {
        Portal { state: SlotState::Empty, value_type: PhantomData }
    }

    /// The producer side, with the execution context supplied by the caller:
    /// refused untouched from an interrupt-like context; in thread mode it
    /// consumes the registered waiter, if any, and returns the value to be
    /// delivered to it, or drops the value silently when nobody is waiting.
    pub fn call_from(&mut self, ctx: ExecContext, val: T) -> (r: Result<Option<T>, Violation>)
        ensures
            final(self).slot() == slot_after_call(old(self).slot(), ctx),
            r == if ctx is InterruptLike {
                Err::<Option<T>, Violation>(Violation::ContextViolation)
            } else if call_delivers(old(self).slot(), ctx) {
                Ok::<Option<T>, Violation>(Some(val))
            } else {
                Ok::<Option<T>, Violation>(None)
            },
            r matches Err(v) ==> Some(v) == call_violation(ctx),
    {
        match check_thread_mode(ctx) {
            Err(v) => Err(v),
            Ok(()) => match self.state {
                SlotState::Registered => {
                    self.state = SlotState::Empty;
                    Ok(Some(val))
                },
                SlotState::Empty => Ok(None),
            },
        }
    }

    /// `call(value)`: queries the current execution context and behaves as
    /// [`call_from`](Self::call_from) for whatever it finds. The context is
    /// live machine state, so the contract is conditional on the outcome: a
    /// context violation leaves the slot untouched; otherwise the slot is
    /// empty afterwards, an idle portal stayed idle and dropped the value,
    /// and an armed portal yields the value to deliver to its waiter.
    pub fn call(&mut self, val: T) -> (r: Result<Option<T>, Violation>)
        ensures
            r matches Err(v) ==> v == Violation::ContextViolation && final(self).slot()
                == old(self).slot(),
            r is Ok ==> final(self).is_idle(),
            old(self).is_idle() ==> final(self).is_idle() && (r is Ok ==> r == Ok::<
                Option<T>,
                Violation,
            >(None)),
            r is Ok && old(self).is_armed() ==> r == Ok::<Option<T>, Violation>(Some(val)),
    {
        let ctx = current_context();
        self.call_from(ctx, val)
    }

    /// The consumer side, with the execution context supplied by the caller:
    /// registers `func` as the one waiter when the slot is free and the
    /// context is thread mode, and otherwise reports the fatal violation,
    /// leaving the slot as it was.
    pub fn wait_from<R, F: Fn(T) -> R>(&mut self, ctx: ExecContext, func: F) -> (r: Result<
        PendingWait<R, F>,
        Violation,
    >)
        ensures
            final(self).slot() == slot_after_wait(old(self).slot(), ctx),
            wait_granted(old(self).slot(), ctx) ==> (r matches Ok(pw) && pw.callback() == func
                && !pw.resolved() && pw.armed()),
            !wait_granted(old(self).slot(), ctx) ==> (r matches Err(v) && Some(v)
                == wait_violation(old(self).slot(), ctx)),
    {
        match check_thread_mode(ctx) {
            Err(v) => Err(v),
            Ok(()) => match self.state {
                SlotState::Registered => Err(Violation::DoubleWaiterViolation),
                SlotState::Empty => {
                    self.state = SlotState::Registered;
                    Ok(PendingWait::begin(func))
                },
            },
        }
    }

    /// `wait(func)`: queries the current execution context and registers
    /// `func` as the one waiter as [`wait_from`](Self::wait_from) does. On
    /// success the portal was idle and is now armed, and the returned pending
    /// wait holds `func` unresolved with its cancellation guard armed; every
    /// refusal reports its violation and leaves the slot as it was.
    pub fn wait<R, F: Fn(T) -> R>(&mut self, func: F) -> (r: Result<PendingWait<R, F>, Violation>)
        ensures
            r matches Ok(pw) ==> (old(self).is_idle() && final(self).is_armed() && pw.callback()
                == func && !pw.resolved() && pw.armed()),
            r is Err ==> final(self).slot() == old(self).slot(),
            r matches Err(v) ==> (v is ContextViolation || v is DoubleWaiterViolation),
            r matches Err(v) && v is DoubleWaiterViolation ==> old(self).is_armed(),
    {
        let ctx = current_context();
        self.wait_from(ctx, func)
    }
}

/// One complete thread-mode rendezvous on an idle portal, the interleaving
/// the runtime drives when a producer calls while a task is waiting:
/// registers `func`, delivers `val`, and completes the wait. The wait
/// resolves to exactly one result of `func(val)`, and the portal is idle
/// again afterwards.
pub fn rendezvous<T, R, F: Fn(T) -> R>(p: &mut Portal<T>, func: F, val: T) -> (r: R)
    requires
        old(p).is_idle(),
        func.requires((val,)),
    ensures
        func.ensures((val,), r),
        final(p).is_idle(),
{
    let mut pending = match p.wait_from(ExecContext::ThreadMode, func) {
        Ok(pw) => pw,
        Err(_) => vstd::pervasive::unreached(),
    };
    let delivered = match p.call_from(ExecContext::ThreadMode, val) {
        Ok(Some(v)) => v,
        _ => vstd::pervasive::unreached(),
    };
    pending.deliver(delivered);
    pending.complete()
}

/// A call on an idle portal is a no-op: it delivers nothing, raises no
/// violation in thread mode, and leaves the slot empty.
pub proof fn lemma_call_on_idle_is_noop(ctx: ExecContext)
    ensures
        !call_delivers(SlotState::Empty, ctx),
        slot_after_call(SlotState::Empty, ctx) is Empty,
        ctx is ThreadMode ==> call_violation(ctx) is None,
{
}

/// A registered waiter is resolved by at most one call: the thread-mode call
/// that consumes it delivers, returns the slot to empty, and a second
/// thread-mode call then delivers nothing.
pub proof fn lemma_call_resolves_at_most_once()
    ensures
        call_delivers(SlotState::Registered, ExecContext::ThreadMode),
        slot_after_call(SlotState::Registered, ExecContext::ThreadMode) is Empty,
        !call_delivers(
            slot_after_call(SlotState::Registered, ExecContext::ThreadMode),
            ExecContext::ThreadMode,
        ),
{
}

/// While a waiter is registered no second wait is granted: in thread mode it
/// raises the double-waiter violation, and the slot keeps its one waiter.
pub proof fn lemma_second_wait_rejected(ctx: ExecContext)
    ensures
        !wait_granted(SlotState::Registered, ctx),
        slot_after_wait(SlotState::Registered, ctx) is Registered,
        ctx is ThreadMode ==> wait_violation(SlotState::Registered, ctx) == Some(
            Violation::DoubleWaiterViolation,
        ),
{
}

/// From an interrupt-like context neither operation touches the slot: both
/// raise the context violation, and nothing is delivered or registered.
pub proof fn lemma_interrupt_context_rejected(s: SlotState)
    ensures
        slot_after_call(s, ExecContext::InterruptLike) == s,
        !call_delivers(s, ExecContext::InterruptLike),
        call_violation(ExecContext::InterruptLike) == Some(Violation::ContextViolation),
        slot_after_wait(s, ExecContext::InterruptLike) == s,
        !wait_granted(s, ExecContext::InterruptLike),
        wait_violation(s, ExecContext::InterruptLike) == Some(Violation::ContextViolation),
{
}

} // verus!
