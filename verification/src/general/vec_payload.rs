//! The crate's own [`Payload`]: a count beside a `Vec` that keeps the
//! pushed elements in order and is handed over whole at a drain.

use vstd::prelude::*;

use crate::general::Payload;

verus! {

/// A count and a `Vec` of the accumulated elements.
pub struct VecPayload<E> {
    /// The element count.
    pub len: usize,
    /// The accumulated elements, in push order.
    pub container: Vec<E>,
}

impl<E> VecPayload<E> {
    /// An empty payload: count zero, no elements.
    pub fn new() -> (r: Self)
        ensures
            r.length() == 0,
            r.elems() == Seq::<E>::empty(),
    {
        VecPayload { len: 0, container: Vec::new() }
    }
}

impl<E> Payload<E> for VecPayload<E> {
    type Container = Vec<E>;

    open spec fn length(&self) -> nat {
        self.len as nat
    }

    open spec fn elems(&self) -> Seq<E> {
        self.container@
    }

    open spec fn batch_elems(batch: Vec<E>) -> Seq<E> {
        batch@
    }

    fn get_len(&self) -> (n: usize) {
        self.len
    }

    fn incr_len(&mut self) {
        self.len = self.len + 1;
    }

    fn clear_len(&mut self) {
        self.len = 0;
    }

    fn accumulate(&mut self, value: E) {
        self.container.push(value);
    }

    fn get_and_clear_container(&mut self) -> (batch: Vec<E>) {
        let mut fresh: Vec<E> = Vec::new();
        core::mem::swap(&mut fresh, &mut self.container);
        fresh
    }
}

} // verus!
