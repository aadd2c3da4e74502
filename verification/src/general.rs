//! The general trigger engine: the same state machine as
//! [`crate::simple_buffer_trigger`], but with length accounting and
//! container access generalized behind a caller-implemented [`Payload`],
//! so one engine can back payload shapes with their own accounting.

pub mod builder;
pub mod vec_payload;

use vstd::prelude::*;

use crate::BufferTrigger;
use crate::model::EngineModel;
use crate::model::clock_step;
use crate::model::push_flushes;
use crate::model::push_step;
use crate::model::trigger_step;
use std::time::Duration;

verus! {

/// Storage for one engine: an element count and a container of the
/// caller's choosing, drained as a `Container` batch.
///
/// `elems` models the elements folded in since the last drain, in order,
/// and `length` the count kept beside them; the engine keeps the two in
/// step by pairing every `incr_len` with one `accumulate`.
pub trait Payload<E>: Sized {
    /// What a drain hands over.
    type Container;

    /// The element count the payload keeps.
    spec fn length(&self) -> nat;

    /// The elements folded into the payload since the last drain, in
    /// order.
    spec fn elems(&self) -> Seq<E>;

    /// The elements a drained batch holds, in order.
    spec fn batch_elems(batch: Self::Container) -> Seq<E>;

    /// Read the element count.
    fn get_len(&self) -> (n: usize)
        ensures
            n == self.length(),
    ;

    /// Count one more element.
    fn incr_len(&mut self)
        requires
            old(self).length() < usize::MAX,
        ensures
            final(self).length() == old(self).length() + 1,
            final(self).elems() == old(self).elems(),
    ;

    /// Reset the element count.
    fn clear_len(&mut self)
        ensures
            final(self).length() == 0,
            final(self).elems() == old(self).elems(),
    ;

    /// Fold one element into the container.
    fn accumulate(&mut self, value: E)
        ensures
            final(self).elems() == old(self).elems().push(value),
            final(self).length() == old(self).length(),
    ;

    /// Hand the filled container over and leave an empty one in place.
    fn get_and_clear_container(&mut self) -> (batch: Self::Container)
        ensures
            Self::batch_elems(batch) == old(self).elems(),
            final(self).elems() == Seq::<E>::empty(),
            final(self).length() == old(self).length(),
    ;
}

/// A buffering trigger whose storage is any [`Payload`] implementation;
/// drained batches go to the `consumer` fixed at construction.
#[verifier::reject_recursive_types(E)]
#[verifier::reject_recursive_types(P)]
pub struct General<E, P, FCon> where P: Payload<E>, FCon: Fn(P::Container) {
    /// Diagnostic label only.
    pub name: String,
    /// The element count and container, behind the caller's accounting.
    pub payload: P,
    /// Whether a one-shot timer is armed for the current cycle.
    pub clock: bool,
    /// Receives each drained batch.
    pub consumer: FCon,
    /// Size threshold; `usize::MAX` means no size trigger.
    pub max_len: usize,
    /// Timer interval; `None` means no time trigger.
    pub interval: Option<Duration>,
    /// The batches drained so far, oldest first.
    pub flushed: Ghost<Seq<Seq<E>>>,
}

impl<E, P, FCon> BufferTrigger<E> for General<E, P, FCon> where
    P: Payload<E>,
    FCon: Fn(P::Container),
 {
    open spec fn wf(&self) -> bool {
        &&& self.payload.length() == self.payload.elems().len()
        &&& (self.clock ==> self.interval is Some)
        &&& (self.clock ==> self.payload.elems().len() > 0)
        &&& (forall|c: P::Container| #[trigger] call_requires(self.consumer, (c,)))
    }

    open spec fn model(&self) -> EngineModel<E> {
        EngineModel {
            elems: self.payload.elems(),
            clock: self.clock,
            flushed: self.flushed@,
            max_len: self.max_len as nat,
            has_interval: self.interval is Some,
        }
    }

    open spec fn timer_interval(&self) -> Option<Duration> {
        self.interval
    }

    proof fn interval_coheres(&self) {
    }

    fn len(&self) -> (n: usize) {
        self.payload.get_len()
    }

    fn is_empty(&self) -> (empty: bool) {
        self.payload.get_len() == 0
    }

    fn push(&mut self, value: E) -> (arm: Option<Duration>)
        ensures
            final(self).consumer == old(self).consumer,
            push_flushes(old(self).model(), value)
                ==> general_flush_witness(old(self), old(self).model().elems.push(value)),
    {
        self.payload.incr_len();
        self.payload.accumulate(value);
        let arm: Option<Duration> = if !self.clock && self.interval.is_some() {
            self.clock = true;
            self.interval
        } else {
            None
        };
        if self.payload.get_len() >= self.max_len {
            self.trigger();
        }
        proof {
            assert(self.model() =~= push_step(old(self).model(), value));
        }
        arm
    }

    fn trigger(&mut self)
        ensures
            final(self).consumer == old(self).consumer,
            old(self).model().elems.len() > 0 ==> general_flush_witness(
                old(self),
                old(self).model().elems,
            ),
    {
        if self.payload.get_len() != 0 {
            self.clock = false;
            self.payload.clear_len();
            let batch = self.payload.get_and_clear_container();
            proof {
                self.flushed@ = self.flushed@.push(P::batch_elems(batch));
            }
            (self.consumer)(batch);
        }
        proof {
            assert(self.model() =~= trigger_step(old(self).model()));
        }
    }
}

impl<E, P, FCon> General<E, P, FCon> where P: Payload<E>, FCon: Fn(P::Container) {
    /// The engine's diagnostic label.
    pub fn name(&self) -> (r: &String)
        ensures
            r == self.name,
    {
        &self.name
    }

    /// Handle one notification from the cycle's one-shot timer: flush if
    /// the timer is still armed; drop the notification as stale if a size
    /// or manual trigger already flushed the cycle it was armed for.
    pub fn listen_clock_trigger(&mut self)
        requires
            old(self).wf(),
        ensures
            final(self).wf(),
            final(self).model() == clock_step(old(self).model()),
            final(self).timer_interval() == old(self).timer_interval(),
            final(self).consumer == old(self).consumer,
            old(self).model().clock ==> general_flush_witness(old(self), old(self).model().elems),
    {
        if self.clock {
            self.trigger();
        }
        proof {
            assert(self.model() =~= clock_step(old(self).model()));
        }
    }
}

/// What a flush of this engine hands to the consumer: some batch holding
/// exactly the elements `batch`, in order, accepted by the engine's
/// consumer.
pub open spec fn general_flush_witness<E, P: Payload<E>, FCon: Fn(P::Container)>(
    engine: &General<E, P, FCon>,
    batch: Seq<E>,
) -> bool {
    exists|c: P::Container|
        #![trigger call_ensures(engine.consumer, (c,), ())]
        P::batch_elems(c) == batch && call_ensures(engine.consumer, (c,), ())
}

} // verus!
