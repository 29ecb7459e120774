//! The boundary to the Python runtime.
//!
//! Everything the builders ask of the interpreter goes through the few
//! functions of this module. Their contracts are taken from the documentation
//! and source of `pyo3`; Verus trusts them and does not look at their bodies.
//!
//! A Python list is a mutable object that may be reached through several
//! handles. The contracts below describe a list by the sequence of objects it
//! holds and treat a `Py<PyList>` as the sole handle to its list, which is
//! true of every handle this crate creates: each comes from a fresh
//! allocation and is never cloned.

use pyo3::types::{PyAny, PyList, PyTuple};
use pyo3::{Py, PyErr, PyObject, Python};
use vstd::prelude::*;

verus! {

#[verifier::external_type_specification]
#[verifier::external_body]
pub struct ExPython<'py>(Python<'py>);

#[verifier::external_type_specification]
#[verifier::external_body]
#[verifier::reject_recursive_types(T)]
pub struct ExPy<T>(Py<T>);

#[verifier::external_type_specification]
#[verifier::external_body]
pub struct ExPyAny(PyAny);

#[verifier::external_type_specification]
#[verifier::external_body]
pub struct ExPyList(PyList);

#[verifier::external_type_specification]
#[verifier::external_body]
pub struct ExPyTuple(PyTuple);

#[verifier::external_type_specification]
#[verifier::external_body]
pub struct ExPyErr(PyErr);

/// The objects held by the list behind an owning handle, slot by slot.
pub uninterp spec fn owned_items(list: Py<PyList>) -> Seq<PyObject>;

/// The objects held by a list borrowed from the interpreter, slot by slot.
pub uninterp spec fn list_items(list: &PyList) -> Seq<PyObject>;

/// The objects held by a tuple borrowed from the interpreter, slot by slot.
pub uninterp spec fn tuple_items(tuple: &PyTuple) -> Seq<PyObject>;

/// `s` written out `count` times in a row, as Python's `s * count`.
pub open spec fn repeated(s: Seq<PyObject>, count: nat) -> Seq<PyObject>
    decreases count,
{
    if count == 0 {
        Seq::empty()
    } else {
        repeated(s, (count - 1) as nat) + s
    }
}

/// `Python::None`: a new reference to the interpreter's `None` object.
/// Nothing is claimed about the object returned.
#[verifier::external_body]
pub(crate) fn none(py: Python<'_>) -> PyObject {
    py.None()
}

/// `PyList::new`: a fresh list holding exactly the given objects, in order.
/// It allocates the list at the length of `items` and moves the i-th object
/// into slot i.
#[verifier::external_body]
pub(crate) fn new_list(py: Python<'_>, items: Vec<PyObject>) -> (list: Py<PyList>)
    ensures
        owned_items(list) == items@,
{
    PyList::new(py, items).into()
}

/// `PySequence::repeat` on a list: the Python expression `list * count`.
/// On success the result is a fresh list holding the items of `list` written
/// out `count` times; `list` itself is left as it was. The interpreter may
/// refuse (it raises `MemoryError` when it cannot allocate the result), and
/// then the error is handed back. `count` must fit the interpreter's signed
/// size type, as larger counts would be clamped to its maximum.
#[verifier::external_body]
pub(crate) fn repeat_list(py: Python<'_>, list: &Py<PyList>, count: usize) -> (r: Result<
    Py<PyList>,
    PyErr,
>)
    requires
        count <= isize::MAX,
    ensures
        r matches Ok(out) ==> owned_items(out) == repeated(owned_items(*list), count as nat),
{
    let product = list.as_ref(py).as_sequence().repeat(count)?;
    Ok(product.downcast::<PyList>()?.into())
}

/// `PyList::set_item`: stores `item` in slot `index`, releasing what the
/// slot held before. It succeeds exactly when `index` is within the list;
/// otherwise the interpreter raises `IndexError`, which is handed back, and
/// the list is unchanged.
#[verifier::external_body]
pub(crate) fn set_item(py: Python<'_>, list: &mut Py<PyList>, index: usize, item: PyObject) -> (r:
    Result<(), PyErr>)
    ensures
        r is Ok <==> index < owned_items(*old(list)).len(),
        r is Ok ==> owned_items(*final(list)) == owned_items(*old(list)).update(
            index as int,
            item,
        ),
        r is Err ==> owned_items(*final(list)) == owned_items(*old(list)),
{
    list.as_ref(py).set_item(index, item)
}

/// `Py::into_ref`: gives the handle up for a reference to the same list that
/// lives as long as the interpreter lock is held. The list is not touched.
#[verifier::external_body]
pub(crate) fn into_ref<'py>(py: Python<'py>, list: Py<PyList>) -> (r: &'py PyList)
    ensures
        list_items(r) == owned_items(list),
{
    list.into_ref(py)
}

/// `PyList::get_slice`: a fresh list holding `list[low:high]`. The contract
/// covers only ranges that lie within the list, where no clipping happens.
#[verifier::external_body]
pub(crate) fn list_slice<'py>(list: &'py PyList, low: usize, high: usize) -> (r: &'py PyList)
    requires
        low <= high <= list_items(list).len(),
    ensures
        list_items(r) == list_items(list).subrange(low as int, high as int),
{
    list.get_slice(low, high)
}

/// `PyList::to_tuple`: a fresh tuple holding the same objects as `list`, in
/// the same order; the Python expression `tuple(list)`.
#[verifier::external_body]
pub(crate) fn to_tuple<'py>(list: &'py PyList) -> (r: &'py PyTuple)
    ensures
        tuple_items(r) == list_items(list),
{
    list.to_tuple()
}

/// `PyTuple::get_slice`: a tuple holding `tuple[low:high]`. The contract
/// covers only ranges that lie within the tuple, where no clipping happens.
#[verifier::external_body]
pub(crate) fn tuple_slice<'py>(tuple: &'py PyTuple, low: usize, high: usize) -> (r: &'py PyTuple)
    requires
        low <= high <= tuple_items(tuple).len(),
    ensures
        tuple_items(r) == tuple_items(tuple).subrange(low as int, high as int),
{
    tuple.get_slice(low, high)
}

} // verus!
