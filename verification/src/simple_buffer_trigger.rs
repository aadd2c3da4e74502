//! The simple trigger engine: a caller-supplied container of any type,
//! folded into by a caller-supplied accumulator and drained to a
//! caller-supplied consumer.
//!
//! The container is opaque to the engine; what the engine guarantees about
//! it is [`container_built`]: the drained container is always the
//! accumulator's fold, in push order, of exactly the elements of the cycle
//! over a fresh default container.

pub mod builder;

use vstd::prelude::*;

use crate::BufferTrigger;
use crate::model::EngineModel;
use crate::model::clock_step;
use crate::model::push_flushes;
use crate::model::push_step;
use crate::model::trigger_step;
use std::time::Duration;

verus! {

/// The container `c` is what the accumulator `acc` yields when it folds
/// the elements of `s`, in order, into a container freshly produced by
/// `def`.
pub open spec fn container_built<E, C, FAcc: Fn(C, E) -> C, FDef: Fn() -> C>(
    acc: FAcc,
    def: FDef,
    c: C,
    s: Seq<E>,
) -> bool
    decreases s.len(),
{
    if s.len() == 0 {
        call_ensures(def, (), c)
    } else {
        exists|prev: C|
            #![trigger call_ensures(acc, (prev, s.last()), c)]
            container_built(acc, def, prev, s.drop_last()) && call_ensures(
                acc,
                (prev, s.last()),
                c,
            )
    }
}

/// A buffering trigger over a caller-supplied container type `C`,
/// accumulating elements of type `E`.
///
/// Collaborators are fixed at construction by [`builder::Builder`]:
/// `accumulator` folds one element into the container, `consumer` receives
/// each drained container, and `default_container` produces the empty
/// container that replaces a drained one. The engine owns the container;
/// a drained container is moved into the consumer and never touched again.
#[verifier::reject_recursive_types(E)]
#[verifier::reject_recursive_types(C)]
pub struct SimpleBufferTrigger<E, C, FAcc, FCon, FDef> where
    FAcc: Fn(C, E) -> C,
    FCon: Fn(C),
    FDef: Fn() -> C,
 {
    /// Diagnostic label only.
    pub name: String,
    /// Produces an empty container.
    pub default_container: FDef,
    /// The live container; `Some` whenever the engine is at rest.
    pub container: Option<C>,
    /// Count of elements accumulated since the last flush.
    pub len: usize,
    /// Whether a one-shot timer is armed for the current cycle.
    pub clock: bool,
    /// Folds one element into the container.
    pub accumulator: FAcc,
    /// Receives each drained container.
    pub consumer: FCon,
    /// Size threshold; `usize::MAX` means no size trigger.
    pub max_len: usize,
    /// Timer interval; `None` means no time trigger.
    pub interval: Option<Duration>,
    /// The elements of the current cycle, in push order.
    pub elems: Ghost<Seq<E>>,
    /// The batches drained so far, oldest first.
    pub flushed: Ghost<Seq<Seq<E>>>,
}

impl<E, C, FAcc, FCon, FDef> BufferTrigger<E> for SimpleBufferTrigger<E, C, FAcc, FCon, FDef> where
    FAcc: Fn(C, E) -> C,
    FCon: Fn(C),
    FDef: Fn() -> C,
 {
    open spec fn wf(&self) -> bool {
        &&& self.container is Some
        &&& self.len == self.elems@.len()
        &&& (self.clock ==> self.interval is Some)
        &&& (self.clock ==> self.elems@.len() > 0)
        &&& (forall|c: C, e: E| #[trigger] call_requires(self.accumulator, (c, e)))
        &&& (forall|c: C| #[trigger] call_requires(self.consumer, (c,)))
        &&& call_requires(self.default_container, ())
        &&& container_built(
            self.accumulator,
            self.default_container,
            self.container.unwrap(),
            self.elems@,
        )
    }

    open spec fn model(&self) -> EngineModel<E> {
        EngineModel {
            elems: self.elems@,
            clock: self.clock,
            flushed: self.flushed@,
            max_len: self.max_len as nat,
            has_interval: self.interval is Some,
        }
    }

    open spec fn timer_interval(&self) -> Option<Duration> {
        self.interval
    }

    proof fn interval_coheres(&self) {
    }

    fn len(&self) -> (n: usize) {
        self.len
    }

    fn is_empty(&self) -> (empty: bool) {
        self.len == 0
    }

    fn push(&mut self, value: E) -> (arm: Option<Duration>)
        ensures
            final(self).same_collaborators(old(self)),
            push_flushes(old(self).model(), value) ==> flush_witness(
                old(self),
                old(self).model().elems.push(value),
            ),
    {
        let c = self.container.take().unwrap();
        let folded = (self.accumulator)(c, value);
        proof {
            lemma_container_built_push(
                self.accumulator,
                self.default_container,
                c,
                folded,
                self.elems@,
                value,
            );
        }
        self.container = Some(folded);
        self.len = self.len + 1;
        proof {
            self.elems@ = self.elems@.push(value);
        }
        let arm: Option<Duration> = if !self.clock && self.interval.is_some() {
            self.clock = true;
            self.interval
        } else {
            None
        };
        if self.len >= self.max_len {
            self.trigger();
        }
        proof {
            assert(self.model() =~= push_step(old(self).model(), value));
        }
        arm
    }

    fn trigger(&mut self)
        ensures
            final(self).same_collaborators(old(self)),
            old(self).model().elems.len() > 0 ==> flush_witness(
                old(self),
                old(self).model().elems,
            ),
    {
        if self.len != 0 {
            self.len = 0;
            self.clock = false;
            let batch = self.container.take().unwrap();
            let fresh = (self.default_container)();
            self.container = Some(fresh);
            proof {
                self.flushed@ = self.flushed@.push(self.elems@);
                self.elems@ = Seq::empty();
            }
            (self.consumer)(batch);
        }
        proof {
            assert(self.model() =~= trigger_step(old(self).model()));
        }
    }
}

impl<E, C, FAcc, FCon, FDef> SimpleBufferTrigger<E, C, FAcc, FCon, FDef> where
    FAcc: Fn(C, E) -> C,
    FCon: Fn(C),
    FDef: Fn() -> C,
 {
    /// The engine's diagnostic label.
    pub fn name(&self) -> (r: &String)
        ensures
            r == self.name,
    {
        &self.name
    }

    /// The collaborator functions are fixed for the engine's lifetime.
    pub open spec fn same_collaborators(&self, other: &Self) -> bool {
        &&& self.accumulator == other.accumulator
        &&& self.consumer == other.consumer
        &&& self.default_container == other.default_container
    }

    /// Handle one notification from the cycle's one-shot timer: flush if
    /// the timer is still armed; drop the notification as stale if a size
    /// or manual trigger already flushed the cycle it was armed for.
    ///
    /// The host's clock listener loop calls this once per notification it
    /// receives from the timer it scheduled on behalf of [`Self::push`].
    pub fn listen_clock_trigger(&mut self)
        requires
            old(self).wf(),
        ensures
            final(self).wf(),
            final(self).model() == clock_step(old(self).model()),
            final(self).timer_interval() == old(self).timer_interval(),
            final(self).same_collaborators(old(self)),
            old(self).model().clock ==> flush_witness(old(self), old(self).model().elems),
    {
        if self.clock {
            self.trigger();
        }
        proof {
            assert(self.model() =~= clock_step(old(self).model()));
        }
    }
}

/// What a flush hands to the consumer: some container built by the
/// engine's accumulator from exactly the elements `batch`, in order, and
/// accepted by the engine's consumer.
pub open spec fn flush_witness<E, C, FAcc: Fn(C, E) -> C, FCon: Fn(C), FDef: Fn() -> C>(
    engine: &SimpleBufferTrigger<E, C, FAcc, FCon, FDef>,
    batch: Seq<E>,
) -> bool {
    exists|c: C|
        container_built(engine.accumulator, engine.default_container, c, batch) && call_ensures(
            engine.consumer,
            (c,),
            (),
        )
}

/// Conservation, concretely, for list-like containers: when the
/// accumulator provably appends its element and the default container is
/// provably empty, a container built from the cycle's elements holds
/// exactly those elements, in push order — nothing lost, nothing
/// duplicated, nothing reordered.
pub proof fn lemma_container_built_exact<E, FAcc: Fn(Vec<E>, E) -> Vec<E>, FDef: Fn() -> Vec<E>>(
    acc: FAcc,
    def: FDef,
    c: Vec<E>,
    s: Seq<E>,
)
    requires
        forall|v: Vec<E>, e: E, r: Vec<E>| call_ensures(acc, (v, e), r) ==> r@ == v@.push(e),
        forall|r: Vec<E>| call_ensures(def, (), r) ==> r@ == Seq::<E>::empty(),
        container_built(acc, def, c, s),
    ensures
        c@ == s,
    decreases s.len(),
{
    if s.len() == 0 {
        assert(c@ =~= s);
    } else {
        let prev = choose|prev: Vec<E>|
            #![trigger call_ensures(acc, (prev, s.last()), c)]
            container_built(acc, def, prev, s.drop_last()) && call_ensures(
                acc,
                (prev, s.last()),
                c,
            );
        lemma_container_built_exact(acc, def, prev, s.drop_last());
        assert(c@ =~= s);
    }
}

/// Folding one more element into a container built from `s` yields a
/// container built from `s.push(value)`.
proof fn lemma_container_built_push<E, C, FAcc: Fn(C, E) -> C, FDef: Fn() -> C>(
    acc: FAcc,
    def: FDef,
    c: C,
    folded: C,
    s: Seq<E>,
    value: E,
)
    requires
        container_built(acc, def, c, s),
        call_ensures(acc, (c, value), folded),
    ensures
        container_built(acc, def, folded, s.push(value)),
{
    let grown = s.push(value);
    assert(grown.drop_last() =~= s);
    assert(grown.last() == value);
    assert(exists|prev: C|
        container_built(acc, def, prev, grown.drop_last()) && call_ensures(
            acc,
            (prev, grown.last()),
            folded,
        )) by {
        assert(container_built(acc, def, c, grown.drop_last()) && call_ensures(
            acc,
            (c, grown.last()),
            folded,
        ));
    }
}

} // verus!
