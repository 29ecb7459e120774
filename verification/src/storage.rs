//! Allocation of the slots that a builder fills.

use crate::error::BuildError;
use crate::foreign::{new_list, none, owned_items, repeat_list, repeated};
use pyo3::types::PyList;
use pyo3::{Py, PyErr, PyObject, Python};
use vstd::prelude::*;

verus! {

/// Whether a capacity fits the interpreter's signed size type.
pub open spec fn capacity_in_range(capacity: usize) -> bool {
    capacity <= isize::MAX
}

/// Repeating a sequence multiplies its length.
pub proof fn lemma_repeated_len(s: Seq<PyObject>, count: nat)
    ensures
        repeated(s, count).len() == count * s.len(),
        s.len() == 1 ==> repeated(s, count).len() == count,
    decreases count,
{
    if count > 0 {
        lemma_repeated_len(s, (count - 1) as nat);
        assert(count * s.len() == (count - 1) * s.len() + s.len()) by (nonlinear_arith);
    }
}

/// Checks that `capacity` fits the interpreter's signed size type. This is
/// decided on the number alone, before anything is allocated.
pub fn check_capacity(capacity: usize) -> (r: Result<(), BuildError>)
    ensures
        r == (if capacity_in_range(capacity) {
            Ok::<(), BuildError>(())
        } else {
            Err(BuildError::CapacityOutOfRange)
        }),
{
    if capacity > isize::MAX as usize {
        Err(BuildError::CapacityOutOfRange)
    } else {
        Ok(())
    }
}

/// What becomes of a request for slots: the list if the interpreter granted
/// it, and otherwise the interpreter's error, kept as it is.
pub(crate) fn granted(outcome: Result<Py<PyList>, PyErr>) -> (r: Result<Py<PyList>, BuildError>)
    ensures
        r == match outcome {
            Ok(list) => Ok::<Py<PyList>, BuildError>(list),
            Err(e) => Err(BuildError::Foreign(e)),
        },
{
    match outcome {
        Ok(list) => Ok(list),
        Err(e) => Err(BuildError::Foreign(e)),
    }
}

/// Allocates a list of `capacity` slots. Each slot holds the interpreter's
/// `None` as a placeholder until a value is written to it. A capacity out of
/// range is refused before the interpreter is asked for anything; if the
/// interpreter cannot allocate the list, its error is handed back.
pub(crate) fn allocate_slots(py: Python<'_>, capacity: usize) -> (r: Result<Py<PyList>, BuildError>)
    ensures
        !capacity_in_range(capacity) ==> r == Err::<Py<PyList>, BuildError>(
            BuildError::CapacityOutOfRange,
        ),
        capacity_in_range(capacity) ==> match r {
            Ok(list) => owned_items(list).len() == capacity,
            Err(e) => e is Foreign,
        },
{
    match check_capacity(capacity) {
        Err(e) => Err(e),
        Ok(()) => {
            let mut seed: Vec<PyObject> = Vec::new();
            seed.push(none(py));
            let unit = new_list(py, seed);
            let outcome = repeat_list(py, &unit, capacity);
            proof {
                lemma_repeated_len(owned_items(unit), capacity as nat);
            }
            granted(outcome)
        },
    }
}

} // verus!
