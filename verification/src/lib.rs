//! A buffering trigger: a batching accumulator that collects pushed
//! elements into a caller-supplied container and flushes ("triggers") the
//! container to a caller-supplied consumer when a size threshold is
//! reached, when a one-shot timer armed by the first push of a cycle
//! fires, on a manual call, or at teardown.
//!
//! The crate verifies the trigger engine itself: every operation is proved
//! to move the engine's abstract state ([`model::EngineModel`]) exactly as
//! the transition functions in [`model`] say, and the batching laws (no
//! element lost or duplicated, one flush per cycle, stale timers ignored)
//! are proved over those transitions in [`laws`].
//!
//! The engine is a sequential state machine here: the host owns it, keeps
//! it behind whatever lock its concurrency story needs, schedules the
//! one-shot timer that [`BufferTrigger::push`] asks for, and feeds timer
//! notifications back through the engines' `listen_clock_trigger`.

use vstd::prelude::*;

pub mod general;
pub mod laws;
pub mod model;
pub mod simple_buffer_trigger;

use model::EngineModel;
use model::push_step;
use model::spec_arm;
use model::trigger_step;
use std::time::Duration;

verus! {

/// The operations every trigger engine offers, with their common
/// contract: each one moves the engine's model exactly as the matching
/// transition function of [`model`] says.
pub trait BufferTrigger<E>: Sized {
    /// The engine's invariant, established by its builder and preserved
    /// by every operation.
    spec fn wf(&self) -> bool;

    /// The engine's abstract state.
    spec fn model(&self) -> EngineModel<E>;

    /// The configured timer interval, if any.
    spec fn timer_interval(&self) -> Option<Duration>;

    /// A timer interval is configured exactly when the model says one is.
    proof fn interval_coheres(&self)
        ensures
            (self.timer_interval() is Some) == self.model().has_interval,
    ;

    /// The number of elements accumulated since the last flush.
    fn len(&self) -> (n: usize)
        requires
            self.wf(),
        ensures
            n == self.model().elems.len(),
    ;

    /// Whether the buffer currently holds no elements.
    fn is_empty(&self) -> (empty: bool)
        requires
            self.wf(),
        ensures
            empty == self.model().is_drained(),
    ;

    /// Fold one element into the buffer; flush at once if that brings the
    /// cycle to the size threshold. Returns the interval to schedule a
    /// one-shot timer for when this push armed the cycle's timer, i.e.
    /// exactly on the first push of a cycle under a configured interval.
    fn push(&mut self, value: E) -> (arm: Option<Duration>)
        requires
            old(self).wf(),
            old(self).model().elems.len() < usize::MAX,
        ensures
            final(self).wf(),
            final(self).model() == push_step(old(self).model(), value),
            final(self).timer_interval() == old(self).timer_interval(),
            arm == (if spec_arm(old(self).model()) {
                old(self).timer_interval()
            } else {
                None::<Duration>
            }),
    ;

    /// Flush: hand the accumulated container to the consumer and reset
    /// the buffer and the timer flag; a no-op on an empty buffer.
    fn trigger(&mut self)
        requires
            old(self).wf(),
        ensures
            final(self).wf(),
            final(self).model() == trigger_step(old(self).model()),
            final(self).timer_interval() == old(self).timer_interval(),
    ;
}

} // verus!
