//! A builder that fills a Python list of fixed capacity slot by slot.

use crate::error::BuildError;
use crate::foreign::{into_ref, list_items, list_slice, owned_items, set_item};
use crate::slots::Slots;
use crate::storage::{allocate_slots, capacity_in_range};
use pyo3::types::PyList;
use pyo3::{Py, PyObject, Python};
use vstd::prelude::*;

verus! {

/// A Python list allocated at its final length, together with the number of
/// slots written so far. Values go into successive slots; a terminal
/// operation hands the list over.
pub struct PyListBuilder {
    len: usize,
    list: Py<PyList>,
    counter: usize,
}

impl View for PyListBuilder {
    type V = Slots;

    closed spec fn view(&self) -> Slots {
        Slots {
            capacity: self.len as nat,
            items: owned_items(self.list).take(self.counter as int),
        }
    }
}

impl PyListBuilder {
    /// The list has exactly `len` slots and no more than `len` are written.
    /// Every builder made by `with_capacity` is well formed, and every
    /// operation keeps it so.
    pub closed spec fn wf(&self) -> bool {
        &&& self.len <= isize::MAX
        &&& owned_items(self.list).len() == self.len
        &&& self.counter <= self.len
    }

    /// A well-formed builder never holds more values than it has slots.
    pub proof fn lemma_wf_view(&self)
        requires
            self.wf(),
        ensures
            self@.wf(),
    {
    }

    /// Allocates a list of `capacity` slots, none of them written.
    ///
    /// Fails with `CapacityOutOfRange` if `capacity` does not fit the
    /// interpreter's signed size type, and with the interpreter's own error
    /// if it cannot allocate the list.
    pub fn with_capacity(py: Python<'_>, capacity: usize) -> (r: Result<Self, BuildError>)
        ensures
            !capacity_in_range(capacity) ==> r matches Err(BuildError::CapacityOutOfRange),
            capacity_in_range(capacity) ==> match r {
                Ok(builder) => builder.wf() && builder@ == Slots::empty(capacity as nat),
                Err(e) => e is Foreign,
            },
    {
        match allocate_slots(py, capacity) {
            Ok(list) => {
                let builder = Self { len: capacity, list, counter: 0 };
                assert(builder@.items =~= Seq::empty());
                Ok(builder)
            },
            Err(e) => Err(e),
        }
    }

    /// Writes `item` into the first empty slot. The interpreter checks the
    /// slot index: when every slot is already written it refuses, nothing
    /// changes, and `CapacityExceeded` is returned.
    pub fn push(&mut self, py: Python<'_>, item: PyObject) -> (r: Result<(), BuildError>)
        requires
            old(self).wf(),
        ensures
            final(self).wf(),
            r == old(self)@.push_outcome(),
            final(self)@ == old(self)@.pushed(item),
    {
        let ghost before = owned_items(self.list);
        match set_item(py, &mut self.list, self.counter, item) {
            Ok(()) => {
                self.counter = self.counter + 1;
                assert(owned_items(self.list).take(self.counter as int) =~= before.take(
                    self.counter - 1,
                ).push(item));
                Ok(())
            },
            Err(_) => Err(BuildError::CapacityExceeded),
        }
    }

    /// Writes `item` into the first empty slot, like `push`, but checks the
    /// fill count itself before it touches the list.
    pub fn push_alt(&mut self, py: Python<'_>, item: PyObject) -> (r: Result<(), BuildError>)
        requires
            old(self).wf(),
        ensures
            final(self).wf(),
            r == old(self)@.push_outcome(),
            final(self)@ == old(self)@.pushed(item),
    {
        if self.counter == self.len {
            Err(BuildError::CapacityExceeded)
        } else {
            let ghost before = owned_items(self.list);
            match set_item(py, &mut self.list, self.counter, item) {
                Ok(()) => {
                    self.counter = self.counter + 1;
                    assert(owned_items(self.list).take(self.counter as int) =~= before.take(
                        self.counter - 1,
                    ).push(item));
                    Ok(())
                },
                Err(_) => unreached(),
            }
        }
    }

    /// Hands over the list if every slot is written, and fails with
    /// `IncompleteSequence` otherwise.
    pub fn get<'py>(self, py: Python<'py>) -> (r: Result<&'py PyList, BuildError>)
        requires
            self.wf(),
        ensures
            match r {
                Ok(list) => self@.complete() == Ok::<Seq<PyObject>, BuildError>(list_items(list)),
                Err(e) => self@.complete() == Err::<Seq<PyObject>, BuildError>(e),
            },
    {
        if self.counter == self.len {
            let list = into_ref(py, self.list);
            assert(list_items(list).take(self.counter as int) =~= list_items(list));
            Ok(list)
        } else if self.counter < self.len {
            Err(BuildError::IncompleteSequence)
        } else {
            unreached()
        }
    }

    /// Hands over a list of exactly the values pushed: the list itself if
    /// every slot is written, and otherwise a new list holding only the
    /// written prefix, so that no empty slot is ever seen.
    pub fn get_incomplete<'py>(self, py: Python<'py>) -> (r: &'py PyList)
        requires
            self.wf(),
        ensures
            list_items(r) == self@.truncated(),
    {
        if self.counter == self.len {
            let list = into_ref(py, self.list);
            assert(list_items(list).take(self.counter as int) =~= list_items(list));
            list
        } else if self.counter < self.len {
            let list = into_ref(py, self.list);
            list_slice(list, 0, self.counter)
        } else {
            unreached()
        }
    }
}

} // verus!
