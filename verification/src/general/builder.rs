//! Builder for [`General`]: fixes the payload, the consumer and the two
//! trigger conditions before the engine exists.

use vstd::prelude::*;

use crate::general::General;
use crate::general::Payload;
use crate::BufferTrigger;
use std::time::Duration;

verus! {

/// Collects the configuration of a [`General`] engine.
///
/// The payload and the consumer must be supplied before
/// [`Builder::build`]; the size threshold and the timer interval are
/// optional: by default neither trigger condition ever fires on its own.
pub struct Builder<P, FCon> {
    /// Diagnostic label for the engine.
    pub name: String,
    /// The initial payload.
    pub payload: Option<P>,
    /// Receives each drained batch.
    pub consumer: Option<FCon>,
    /// Size threshold; `usize::MAX` means no size trigger.
    pub max_len: usize,
    /// Timer interval; `None` means no time trigger.
    pub interval: Option<Duration>,
}

impl<P, FCon> Builder<P, FCon> {
    /// Start an empty configuration.
    pub fn builder() -> (r: Self)
        ensures
            r.payload is None,
            r.consumer is None,
            r.max_len == usize::MAX,
            r.interval is None,
    {
        Builder {
            name: general_anonymous_name(),
            payload: None,
            consumer: None,
            max_len: usize::MAX,
            interval: None,
        }
    }

    /// Set the diagnostic label.
    pub fn name(self, name: String) -> (r: Self)
        ensures
            r == (Builder { name, ..self }),
    {
        Builder { name, ..self }
    }

    /// Set the initial payload.
    pub fn payload(self, payload: P) -> (r: Self)
        ensures
            r == (Builder { payload: Some(payload), ..self }),
    {
        Builder { payload: Some(payload), ..self }
    }

    /// Set the consumer.
    pub fn consumer(self, consumer: FCon) -> (r: Self)
        ensures
            r == (Builder { consumer: Some(consumer), ..self }),
    {
        Builder { consumer: Some(consumer), ..self }
    }

    /// Set the size threshold.
    pub fn max_len(self, max_len: usize) -> (r: Self)
        ensures
            r == (Builder { max_len, ..self }),
    {
        Builder { max_len, ..self }
    }

    /// Set the timer interval.
    pub fn interval(self, interval: Duration) -> (r: Self)
        ensures
            r == (Builder { interval: Some(interval), ..self }),
    {
        Builder { interval: Some(interval), ..self }
    }

    /// Build the engine around the supplied payload, with no armed timer
    /// and an empty flush history.
    ///
    /// The payload's count must agree with what it holds, and the consumer
    /// must accept every batch: the engine hands it batches it cannot
    /// constrain.
    pub fn build<E>(self) -> (engine: General<E, P, FCon>) where
        P: Payload<E>,
        FCon: Fn(P::Container),

        requires
            self.payload is Some,
            self.consumer is Some,
            self.payload.unwrap().length() == self.payload.unwrap().elems().len(),
            forall|c: P::Container| #[trigger] call_requires(self.consumer.unwrap(), (c,)),
        ensures
            engine.wf(),
            engine.model() == (crate::model::EngineModel {
                elems: self.payload.unwrap().elems(),
                clock: false,
                flushed: Seq::empty(),
                max_len: self.max_len as nat,
                has_interval: self.interval is Some,
            }),
            engine.timer_interval() == self.interval,
            engine.consumer == self.consumer.unwrap(),
            engine.payload == self.payload.unwrap(),
            engine.max_len == self.max_len,
    {
        General {
            name: self.name,
            payload: self.payload.unwrap(),
            clock: false,
            consumer: self.consumer.unwrap(),
            max_len: self.max_len,
            interval: self.interval,
            flushed: Ghost(Seq::empty()),
        }
    }
}

/// The default diagnostic label.
fn general_anonymous_name() -> String {
    "anonymous".to_string()
}

} // verus!
