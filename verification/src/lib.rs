//! A single-slot rendezvous primitive: one task registers a closure and
//! suspends until a second execution context delivers a value and has that
//! closure applied to it exactly once.
//!
//! The portal itself is a two-state machine (idle, or armed with exactly one
//! registered waiter); both of its operations are restricted to the
//! cooperative thread-mode execution context, and every misuse the design
//! treats as fatal is reported as a [`Violation`] value for the surrounding
//! runtime to act on.

mod context;
mod pending;
mod portal;

pub use context::{check_thread_mode, current_context, ExecContext};
pub use pending::PendingWait;
pub use portal::{
    call_delivers, call_violation, lemma_call_on_idle_is_noop, lemma_call_resolves_at_most_once,
    lemma_interrupt_context_rejected, lemma_second_wait_rejected, rendezvous, slot_after_call,
    slot_after_wait, wait_granted, wait_violation, Portal, SlotState, Violation,
};
