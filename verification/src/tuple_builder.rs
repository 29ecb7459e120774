//! A builder that produces a Python tuple of fixed capacity, and the
//! conversion of a list into a tuple.
//!
//! A tuple cannot be written to once the interpreter has handed it out, so
//! the builder fills a list of the tuple's length and converts it when a
//! terminal operation asks for the tuple.

use crate::error::BuildError;
use crate::foreign::{
    into_ref, list_items, owned_items, set_item, to_tuple, tuple_items, tuple_slice,
};
use crate::slots::Slots;
use crate::storage::{allocate_slots, capacity_in_range};
use pyo3::types::{PyList, PyTuple};
use pyo3::{Py, PyObject, Python};
use vstd::prelude::*;

verus! {

/// A tuple holding the same objects as `list`, in the same order. The
/// objects themselves are shared, not copied; only the container is new.
pub fn list_as_tuple<'py>(py: Python<'py>, list: &'py PyList) -> (tuple: &'py PyTuple)
    ensures
        tuple_items(tuple) == list_items(list),
{
    to_tuple(list)
}

/// The slots of a tuple under construction, allocated at the tuple's final
/// length, together with the number of slots written so far.
pub struct PyTupleBuilder {
    len: usize,
    slots: Py<PyList>,
    counter: usize,
}

impl View for PyTupleBuilder {
    type V = Slots;

    closed spec fn view(&self) -> Slots {
        Slots {
            capacity: self.len as nat,
            items: owned_items(self.slots).take(self.counter as int),
        }
    }
}

impl PyTupleBuilder {
    /// There are exactly `len` slots and no more than `len` are written.
    /// Every builder made by `with_capacity` is well formed, and every
    /// operation keeps it so.
    pub closed spec fn wf(&self) -> bool {
        &&& self.len <= isize::MAX
        &&& owned_items(self.slots).len() == self.len
        &&& self.counter <= self.len
    }

    /// A well-formed builder never holds more values than it has slots.
    pub proof fn lemma_wf_view(&self)
        requires
            self.wf(),
        ensures
            self@.wf(),
    {
    }

    /// Allocates `capacity` slots, none of them written.
    ///
    /// Fails with `CapacityOutOfRange` if `capacity` does not fit the
    /// interpreter's signed size type, and with the interpreter's own error
    /// if it cannot allocate the slots.
    pub fn with_capacity(py: Python<'_>, capacity: usize) -> (r: Result<Self, BuildError>)
        ensures
            !capacity_in_range(capacity) ==> r matches Err(BuildError::CapacityOutOfRange),
            capacity_in_range(capacity) ==> match r {
                Ok(builder) => builder.wf() && builder@ == Slots::empty(capacity as nat),
                Err(e) => e is Foreign,
            },
    {
        match allocate_slots(py, capacity) {
            Ok(slots) => {
                let builder = Self { len: capacity, slots, counter: 0 };
                assert(builder@.items =~= Seq::empty());
                Ok(builder)
            },
            Err(e) => Err(e),
        }
    }

    /// Writes `item` into the first empty slot. The interpreter checks the
    /// slot index: when every slot is already written it refuses, nothing
    /// changes, and `CapacityExceeded` is returned.
    pub fn push(&mut self, py: Python<'_>, item: PyObject) -> (r: Result<(), BuildError>)
        requires
            old(self).wf(),
        ensures
            final(self).wf(),
            r == old(self)@.push_outcome(),
            final(self)@ == old(self)@.pushed(item),
    {
        let ghost before = owned_items(self.slots);
        match set_item(py, &mut self.slots, self.counter, item) {
            Ok(()) => {
                self.counter = self.counter + 1;
                assert(owned_items(self.slots).take(self.counter as int) =~= before.take(
                    self.counter - 1,
                ).push(item));
                Ok(())
            },
            Err(_) => Err(BuildError::CapacityExceeded),
        }
    }

    /// Hands over the tuple if every slot is written, and fails with
    /// `IncompleteSequence` otherwise.
    pub fn get<'py>(self, py: Python<'py>) -> (r: Result<&'py PyTuple, BuildError>)
        requires
            self.wf(),
        ensures
            match r {
                Ok(tuple) => self@.complete() == Ok::<Seq<PyObject>, BuildError>(
                    tuple_items(tuple),
                ),
                Err(e) => self@.complete() == Err::<Seq<PyObject>, BuildError>(e),
            },
    {
        if self.counter == self.len {
            let tuple = to_tuple(into_ref(py, self.slots));
            assert(tuple_items(tuple).take(self.counter as int) =~= tuple_items(tuple));
            Ok(tuple)
        } else if self.counter < self.len {
            Err(BuildError::IncompleteSequence)
        } else {
            unreached()
        }
    }

    /// Hands over a tuple of exactly the values pushed: the whole tuple if
    /// every slot is written, and otherwise the slice of it that holds the
    /// written prefix, so that no empty slot is ever seen.
    pub fn get_incomplete<'py>(self, py: Python<'py>) -> (r: &'py PyTuple)
        requires
            self.wf(),
        ensures
            tuple_items(r) == self@.truncated(),
    {
        if self.counter == self.len {
            let tuple = to_tuple(into_ref(py, self.slots));
            assert(tuple_items(tuple).take(self.counter as int) =~= tuple_items(tuple));
            tuple
        } else if self.counter < self.len {
            let tuple = to_tuple(into_ref(py, self.slots));
            tuple_slice(tuple, 0, self.counter)
        } else {
            unreached()
        }
    }
}

} // verus!
