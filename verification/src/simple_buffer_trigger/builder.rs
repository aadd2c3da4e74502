//! Builder for [`SimpleBufferTrigger`]: fixes the collaborators and the
//! two trigger conditions before the engine exists.

use vstd::prelude::*;

use crate::model::initial_model;
use crate::simple_buffer_trigger::SimpleBufferTrigger;
use crate::BufferTrigger;
use std::time::Duration;

verus! {

/// Collects the configuration of a [`SimpleBufferTrigger`].
///
/// The default-container function is fixed at [`Builder::builder`]; the
/// accumulator and the consumer must be supplied before [`Builder::build`],
/// and the size threshold and the timer interval are optional: by default
/// neither trigger condition ever fires on its own.
pub struct Builder<FAcc, FCon, FDef> {
    /// Diagnostic label for the engine.
    pub name: String,
    /// Produces an empty container.
    pub default_container: FDef,
    /// Folds one element into the container.
    pub accumulator: Option<FAcc>,
    /// Receives each drained container.
    pub consumer: Option<FCon>,
    /// Size threshold; `usize::MAX` means no size trigger.
    pub max_len: usize,
    /// Timer interval; `None` means no time trigger.
    pub interval: Option<Duration>,
}

impl<FAcc, FCon, FDef> Builder<FAcc, FCon, FDef> {
    /// Start a configuration around the given default-container function.
    pub fn builder(default_container: FDef) -> (r: Self)
        ensures
            r.default_container == default_container,
            r.accumulator is None,
            r.consumer is None,
            r.max_len == usize::MAX,
            r.interval is None,
    {
        Builder {
            name: anonymous_name(),
            default_container,
            accumulator: None,
            consumer: None,
            max_len: usize::MAX,
            interval: None,
        }
    }

    /// Set the diagnostic label.
    pub fn name(self, name: String) -> (r: Self)
        ensures
            r == (Builder { name, ..self }),
    {
        Builder { name, ..self }
    }

    /// Set the accumulator.
    pub fn accumulator(self, accumulator: FAcc) -> (r: Self)
        ensures
            r == (Builder { accumulator: Some(accumulator), ..self }),
    {
        Builder { accumulator: Some(accumulator), ..self }
    }

    /// Set the consumer.
    pub fn consumer(self, consumer: FCon) -> (r: Self)
        ensures
            r == (Builder { consumer: Some(consumer), ..self }),
    {
        Builder { consumer: Some(consumer), ..self }
    }

    /// Set the size threshold.
    pub fn max_len(self, max_len: usize) -> (r: Self)
        ensures
            r == (Builder { max_len, ..self }),
    {
        Builder { max_len, ..self }
    }

    /// Set the timer interval.
    pub fn interval(self, interval: Duration) -> (r: Self)
        ensures
            r == (Builder { interval: Some(interval), ..self }),
    {
        Builder { interval: Some(interval), ..self }
    }

    /// Build the engine: produce the initial container and start with an
    /// empty buffer, no armed timer and an empty flush history.
    ///
    /// The collaborators must have been supplied and must accept every
    /// value of their argument types: the engine calls them on containers
    /// and elements it cannot constrain.
    pub fn build<E, C>(self) -> (engine: SimpleBufferTrigger<E, C, FAcc, FCon, FDef>) where
        FAcc: Fn(C, E) -> C,
        FCon: Fn(C),
        FDef: Fn() -> C,

        requires
            self.accumulator is Some,
            self.consumer is Some,
            forall|c: C, e: E| #[trigger] call_requires(self.accumulator.unwrap(), (c, e)),
            forall|c: C| #[trigger] call_requires(self.consumer.unwrap(), (c,)),
            call_requires(self.default_container, ()),
        ensures
            engine.wf(),
            engine.model() == initial_model::<E>(self.max_len as nat, self.interval is Some),
            engine.timer_interval() == self.interval,
            engine.accumulator == self.accumulator.unwrap(),
            engine.consumer == self.consumer.unwrap(),
            engine.default_container == self.default_container,
            engine.max_len == self.max_len,
    {
        let container = (self.default_container)();
        SimpleBufferTrigger {
            name: self.name,
            default_container: self.default_container,
            container: Some(container),
            len: 0,
            clock: false,
            accumulator: self.accumulator.unwrap(),
            consumer: self.consumer.unwrap(),
            max_len: self.max_len,
            interval: self.interval,
            elems: Ghost(Seq::empty()),
            flushed: Ghost(Seq::empty()),
        }
    }
}

/// The default diagnostic label.
fn anonymous_name() -> String {
    "anonymous".to_string()
}

} // verus!
