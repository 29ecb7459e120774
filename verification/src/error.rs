//! The ways in which building a sequence can fail.

use pyo3::exceptions::PyValueError;
use pyo3::PyErr;
use vstd::prelude::*;

verus! {

/// Why a builder refused an operation.
#[derive(Debug)]
pub enum BuildError {
    /// The requested capacity does not fit the interpreter's signed size type.
    CapacityOutOfRange,
    /// A value was pushed into a builder whose slots are all filled.
    CapacityExceeded,
    /// The complete sequence was asked for while slots were still empty.
    IncompleteSequence,
    /// The interpreter could not allocate the sequence; its error is kept.
    Foreign(PyErr),
}

/// Which kind of Python sequence a builder produces.
#[derive(Clone, Copy, Debug, PartialEq, Eq, Structural)]
pub enum Flavor {
    List,
    Tuple,
}

/// The Python `ValueError` that carries a given message.
pub uninterp spec fn value_error_with(message: Seq<char>) -> PyErr;

/// `PyValueError::new_err`: a `ValueError` whose argument is `message`. The
/// error is a function of the message alone.
#[verifier::external_body]
fn value_error(message: &'static str) -> (e: PyErr)
    ensures
        e == value_error_with(message@),
{
    PyValueError::new_err(message)
}

impl BuildError {
    /// The message that reports this failure to Python, for a builder of
    /// the given flavor. An error of the interpreter brings its own.
    pub open spec fn message_text(&self, flavor: Flavor) -> Option<&'static str> {
        match (self, flavor) {
            (BuildError::CapacityOutOfRange, Flavor::List) => Some("list len out of range"),
            (BuildError::CapacityOutOfRange, Flavor::Tuple) => Some("tuple len out of range"),
            (BuildError::CapacityExceeded, Flavor::List) => Some("push() exceeded list capacity"),
            (BuildError::CapacityExceeded, Flavor::Tuple) => Some(
                "push() exceeded tuple capacity",
            ),
            (BuildError::IncompleteSequence, Flavor::List) => Some("list not yet complete"),
            (BuildError::IncompleteSequence, Flavor::Tuple) => Some("tuple not yet filled"),
            (BuildError::Foreign(_), _) => None,
        }
    }

    /// The message that reports this failure to Python.
    pub fn message(&self, flavor: Flavor) -> (r: Option<&'static str>)
        ensures
            r == self.message_text(flavor),
    {
        match self {
            BuildError::CapacityOutOfRange => match flavor {
                Flavor::List => Some("list len out of range"),
                Flavor::Tuple => Some("tuple len out of range"),
            },
            BuildError::CapacityExceeded => match flavor {
                Flavor::List => Some("push() exceeded list capacity"),
                Flavor::Tuple => Some("push() exceeded tuple capacity"),
            },
            BuildError::IncompleteSequence => match flavor {
                Flavor::List => Some("list not yet complete"),
                Flavor::Tuple => Some("tuple not yet filled"),
            },
            BuildError::Foreign(_) => None,
        }
    }

    /// The Python exception for this failure: the interpreter's own error
    /// where there is one, and otherwise a `ValueError` with the message.
    pub fn into_py_err(self, flavor: Flavor) -> (e: PyErr)
        ensures
            e == match self {
                BuildError::Foreign(inner) => inner,
                _ => value_error_with(self.message_text(flavor)->Some_0@),
            },
    {
        match self.message(flavor) {
            Some(text) => value_error(text),
            None => match self {
                BuildError::Foreign(inner) => inner,
                _ => unreached(),
            },
        }
    }
}

} // verus!
