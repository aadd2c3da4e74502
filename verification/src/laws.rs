//! The batching laws, proved once over the transition functions of
//! [`crate::model`]; every engine's operations are proved to follow those
//! transitions exactly, so the laws hold of every engine.

use vstd::prelude::*;

use crate::model::EngineModel;
use crate::model::clock_step;
use crate::model::push_step;
use crate::model::spec_arm;
use crate::model::trigger_step;

verus! {

/// The state after pushing every element of `values`, in order, into `m`.
pub open spec fn run_pushes<E>(m: EngineModel<E>, values: Seq<E>) -> EngineModel<E>
    decreases values.len(),
{
    if values.len() == 0 {
        m
    } else {
        push_step(run_pushes(m, values.drop_last()), values.last())
    }
}

/// Conservation: pushing any sequence of elements shorter than the size
/// threshold into a drained engine buffers exactly those elements, in push
/// order, flushing nothing on the way; the following flush then hands the
/// consumer exactly that sequence, once.
pub proof fn lemma_conservation<E>(m: EngineModel<E>, values: Seq<E>)
    requires
        m.is_drained(),
        values.len() < m.max_len,
    ensures
        run_pushes(m, values).elems == values,
        run_pushes(m, values).flushed == m.flushed,
        run_pushes(m, values).same_config(m),
        values.len() > 0 ==> trigger_step(run_pushes(m, values)).flushed == m.flushed.push(
            values,
        ),
        trigger_step(run_pushes(m, values)).is_drained(),
    decreases values.len(),
{
    if values.len() == 0 {
        assert(run_pushes(m, values).elems =~= values);
    } else {
        lemma_conservation(m, values.drop_last());
        assert(run_pushes(m, values).elems =~= values);
    }
}

/// Exactly one flush per cycle: a flush empties the buffer, so a second
/// flush of the same cycle is a no-op; the history gains exactly one batch,
/// and only when there was something to hand over.
pub proof fn lemma_flush_exactly_once<E>(m: EngineModel<E>)
    ensures
        trigger_step(trigger_step(m)) == trigger_step(m),
        m.is_drained() ==> trigger_step(m) == m,
        !m.is_drained() ==> trigger_step(m).flushed == m.flushed.push(m.elems),
        trigger_step(m).is_drained(),
{
    assert(trigger_step(trigger_step(m)) =~= trigger_step(m));
}

/// Size threshold: from a drained engine whose threshold is `n`, pushing
/// exactly `n` elements flushes exactly once, handing the consumer exactly
/// those `n` elements; the buffer is empty again afterwards.
pub proof fn lemma_size_threshold<E>(m: EngineModel<E>, values: Seq<E>)
    requires
        m.is_drained(),
        m.max_len > 0,
        values.len() == m.max_len,
    ensures
        run_pushes(m, values).is_drained(),
        run_pushes(m, values).flushed == m.flushed.push(values),
        !run_pushes(m, values).clock,
    decreases values.len(),
{
    lemma_conservation(m, values.drop_last());
    let before = run_pushes(m, values.drop_last());
    assert(before.elems.push(values.last()) =~= values);
    assert(run_pushes(m, values) == push_step(before, values.last()));
}

/// How many pushes of `values` arm a timer along the run from `m`.
pub open spec fn arm_count<E>(m: EngineModel<E>, values: Seq<E>) -> nat
    decreases values.len(),
{
    if values.len() == 0 {
        0
    } else {
        arm_count(m, values.drop_last()) + (if spec_arm(
            run_pushes(m, values.drop_last()),
        ) {
            1nat
        } else {
            0nat
        })
    }
}

/// Idle timeout arming: within one accumulation cycle, exactly the first
/// push arms the timer when an interval is configured — later pushes never
/// re-arm or extend it — and no push arms one when no interval is
/// configured.
pub proof fn lemma_timer_armed_once<E>(m: EngineModel<E>, values: Seq<E>)
    requires
        m.is_drained(),
        !m.clock,
        values.len() < m.max_len,
    ensures
        run_pushes(m, values).clock == (m.has_interval && values.len() > 0),
        arm_count(m, values) == (if m.has_interval && values.len() > 0 {
            1nat
        } else {
            0nat
        }),
    decreases values.len(),
{
    if values.len() > 0 {
        lemma_timer_armed_once(m, values.drop_last());
        lemma_conservation(m, values.drop_last());
        if values.len() == 1 {
            assert(run_pushes(m, values.drop_last()) == m);
        }
    }
}

/// Stale timer: a timer notification that arrives after its cycle was
/// already flushed (the armed flag is clear) changes nothing and causes no
/// further flush.
pub proof fn lemma_stale_clock_noop<E>(m: EngineModel<E>)
    requires
        !m.clock,
    ensures
        clock_step(m) == m,
{
}

/// Live timer: a timer notification that finds its cycle still armed
/// flushes exactly the elements buffered since that cycle's first push.
pub proof fn lemma_clock_flush<E>(m: EngineModel<E>)
    requires
        m.clock,
        !m.is_drained(),
    ensures
        clock_step(m).flushed == m.flushed.push(m.elems),
        clock_step(m).is_drained(),
        !clock_step(m).clock,
{
}

/// Teardown: flushing a non-empty engine, as the owner does once before
/// destruction, hands the consumer exactly the remaining elements; on an
/// already empty engine it hands over nothing.
pub proof fn lemma_teardown_flush<E>(m: EngineModel<E>)
    ensures
        !m.is_drained() ==> trigger_step(m).flushed == m.flushed.push(m.elems),
        m.is_drained() ==> trigger_step(m) == m,
{
}

} // verus!
