//! The abstract state of a buffering trigger engine and the transitions
//! that its operations perform on it.
//!
//! Every engine in this crate carries such a model as its ghost view: the
//! elements accumulated since the last flush (in push order), whether a
//! one-shot timer is armed for the current cycle, the history of flushed
//! batches, and the configuration that decides when a flush happens.

use vstd::prelude::*;

verus! {

/// The abstract state of one trigger engine.
#[verifier::ext_equal]
pub ghost struct EngineModel<E> {
    /// Elements accumulated since the last flush, in push order.
    pub elems: Seq<E>,
    /// Whether a one-shot timer is armed for the current accumulation cycle.
    pub clock: bool,
    /// The batches handed to the consumer so far, oldest first.
    pub flushed: Seq<Seq<E>>,
    /// The size threshold: a push that brings the cycle to this many
    /// elements flushes at once.
    pub max_len: nat,
    /// Whether a timer interval is configured at all.
    pub has_interval: bool,
}

impl<E> EngineModel<E> {
    /// The buffer holds nothing: the state right after construction or a flush.
    pub open spec fn is_drained(self) -> bool {
        self.elems.len() == 0
    }

    /// Configuration never changes over an engine's lifetime.
    pub open spec fn same_config(self, other: EngineModel<E>) -> bool {
        self.max_len == other.max_len && self.has_interval == other.has_interval
    }
}

/// Whether a push in state `m` arms the timer: only the first push of a
/// cycle does, and only when an interval is configured.
pub open spec fn spec_arm<E>(m: EngineModel<E>) -> bool {
    !m.clock && m.has_interval
}

/// The locked phase of a push: fold the element in and arm the timer if
/// this is the first element of a cycle under a configured interval.
pub open spec fn accumulate_step<E>(m: EngineModel<E>, value: E) -> EngineModel<E> {
    EngineModel {
        elems: m.elems.push(value),
        clock: m.clock || m.has_interval,
        ..m
    }
}

/// A flush: drain the buffer into the flushed history and disarm the
/// timer; a no-op on an empty buffer, so the consumer never sees an empty
/// batch and a racing second flush of the same cycle does nothing.
pub open spec fn trigger_step<E>(m: EngineModel<E>) -> EngineModel<E> {
    if m.elems.len() == 0 {
        m
    } else {
        EngineModel {
            elems: Seq::empty(),
            clock: false,
            flushed: m.flushed.push(m.elems),
            ..m
        }
    }
}

/// A whole push: accumulate, then flush if the buffer has reached the
/// size threshold.
pub open spec fn push_step<E>(m: EngineModel<E>, value: E) -> EngineModel<E> {
    let after = accumulate_step(m, value);
    if after.elems.len() >= m.max_len {
        trigger_step(after)
    } else {
        after
    }
}

/// Whether a push of `value` in state `m` reaches the size threshold and
/// flushes at once.
pub open spec fn push_flushes<E>(m: EngineModel<E>, value: E) -> bool {
    m.elems.push(value).len() >= m.max_len
}

/// The clock listener's reaction to one timer notification: flush if the
/// timer is still armed, drop the notification as stale otherwise.
pub open spec fn clock_step<E>(m: EngineModel<E>) -> EngineModel<E> {
    if m.clock {
        trigger_step(m)
    } else {
        m
    }
}

/// The state of a freshly built engine.
pub open spec fn initial_model<E>(max_len: nat, has_interval: bool) -> EngineModel<E> {
    EngineModel {
        elems: Seq::empty(),
        clock: false,
        flushed: Seq::empty(),
        max_len: max_len,
        has_interval: has_interval,
    }
}

} // verus!
