use vstd::prelude::*;

use crate::portal::Violation;

verus! {

/// The two classes of execution context the portal distinguishes: the
/// cooperative thread mode in which tasks run and suspend, and the
/// interrupt-like contexts that preempt it.
///
/// The portal's mutual exclusion rests entirely on both of its operations
/// running in thread mode, where tasks are never preempted by other tasks, so
/// everything it does is classified against this pair.
#[derive(Clone, Copy, Debug, PartialEq, Eq, Structural)]
pub enum ExecContext {
    /// The cooperative task-execution context; the only context in which the
    /// portal may be used.
    ThreadMode,
    /// A core exception or device interrupt handler running above task
    /// priority; using the portal there is a fatal violation.
    InterruptLike,
}

/// Relies on `cortex_m::peripheral::SCB::vect_active`, which reads the ICSR
/// register and reports the active vector: thread mode when no exception is
/// being serviced, otherwise a core exception or a device interrupt. The
/// register is live machine state, so nothing is promised of the outcome;
/// callers must cover both answers.
#[verifier::external_body]
pub fn current_context() -> ExecContext {
    match cortex_m::peripheral::SCB::vect_active() {
        cortex_m::peripheral::scb::VectActive::ThreadMode => ExecContext::ThreadMode,
        cortex_m::peripheral::scb::VectActive::Exception(_) => ExecContext::InterruptLike,
        cortex_m::peripheral::scb::VectActive::Interrupt { irqn: _ } => ExecContext::InterruptLike,
    }
}

/// The execution-context guard at the entry of both portal operations:
/// accepts thread mode and reports the fatal context violation for any
/// interrupt-like context.
pub fn check_thread_mode(ctx: ExecContext) -> (r: Result<(), Violation>)
    ensures
        r == if ctx is ThreadMode {
            Ok::<(), Violation>(())
        } else {
            Err::<(), Violation>(Violation::ContextViolation)
        },
{
    match ctx {
        ExecContext::ThreadMode => Ok(()),
        ExecContext::InterruptLike => Err(Violation::ContextViolation),
    }
}

} // verus!
