use pyo3::exceptions::{PyMemoryError, PyValueError};
use pyo3::types::PyList;
use pyo3::{PyObject, Python, ToPyObject};
use rust_bench::error::Flavor;
use rust_bench::{BuildError, PyListBuilder};

fn values(list: &PyList) -> Vec<i64> {
    list.iter().map(|item| item.extract::<i64>().unwrap()).collect()
}

fn filled<'py>(py: Python<'py>, capacity: usize, pushed: &[i64]) -> PyListBuilder {
    let mut builder = PyListBuilder::with_capacity(py, capacity).unwrap();
    for value in pushed {
        builder.push(py, value.to_object(py)).unwrap();
    }
    builder
}

#[test]
fn list_filled_to_capacity_is_handed_over_whole() {
    Python::with_gil(|py| {
        let list = filled(py, 3, &[10, 20, 30]).get(py).unwrap();
        assert_eq!(list.len(), 3);
        assert_eq!(values(list), vec![10, 20, 30]);
    });
}

#[test]
fn list_truncation_yields_exactly_the_pushed_values() {
    Python::with_gil(|py| {
        for capacity in 0..6usize {
            for k in 0..=capacity {
                let pushed: Vec<i64> = (0..k as i64).map(|i| 100 + i).collect();
                let list = filled(py, capacity, &pushed).get_incomplete(py);
                assert_eq!(list.len(), k);
                assert_eq!(values(list), pushed);
            }
        }
    });
}

#[test]
fn list_full_builder_gives_the_same_sequence_either_way() {
    Python::with_gil(|py| {
        let strict = filled(py, 4, &[1, 2, 3, 4]).get(py).unwrap();
        let truncated = filled(py, 4, &[1, 2, 3, 4]).get_incomplete(py);
        assert_eq!(strict.len(), 4);
        assert_eq!(values(strict), vec![1, 2, 3, 4]);
        assert_eq!(values(truncated), vec![1, 2, 3, 4]);
    });
}

#[test]
fn list_strict_terminal_fails_while_slots_are_empty() {
    Python::with_gil(|py| {
        let refused = filled(py, 3, &[7, 8]).get(py);
        assert!(matches!(refused, Err(BuildError::IncompleteSequence)));
        let none_pushed = filled(py, 1, &[]).get(py);
        assert!(matches!(none_pushed, Err(BuildError::IncompleteSequence)));
    });
}

#[test]
fn list_truncating_terminal_succeeds_while_slots_are_empty() {
    Python::with_gil(|py| {
        let list = filled(py, 3, &[7, 8]).get_incomplete(py);
        assert_eq!(list.len(), 2);
        assert_eq!(values(list), vec![7, 8]);
    });
}

#[test]
fn list_of_capacity_zero_is_complete_at_once() {
    Python::with_gil(|py| {
        let list = filled(py, 0, &[]).get(py).unwrap();
        assert_eq!(list.len(), 0);
        let mut builder = PyListBuilder::with_capacity(py, 0).unwrap();
        assert!(matches!(
            builder.push(py, 1i64.to_object(py)),
            Err(BuildError::CapacityExceeded)
        ));
    });
}

#[test]
fn list_push_beyond_capacity_is_refused() {
    Python::with_gil(|py| {
        let mut builder = filled(py, 2, &[1, 2]);
        let refused = builder.push(py, 3i64.to_object(py));
        assert!(matches!(refused, Err(BuildError::CapacityExceeded)));
        let again = builder.push(py, 4i64.to_object(py));
        assert!(matches!(again, Err(BuildError::CapacityExceeded)));
        let list = builder.get(py).unwrap();
        assert_eq!(values(list), vec![1, 2]);
    });
}

#[test]
fn list_push_alt_behaves_as_push() {
    Python::with_gil(|py| {
        let mut builder = PyListBuilder::with_capacity(py, 2).unwrap();
        builder.push_alt(py, 5i64.to_object(py)).unwrap();
        builder.push_alt(py, 6i64.to_object(py)).unwrap();
        let refused = builder.push_alt(py, 7i64.to_object(py));
        assert!(matches!(refused, Err(BuildError::CapacityExceeded)));
        assert_eq!(values(builder.get(py).unwrap()), vec![5, 6]);
    });
}

#[test]
fn list_push_and_push_alt_can_be_mixed() {
    Python::with_gil(|py| {
        let mut builder = PyListBuilder::with_capacity(py, 4).unwrap();
        builder.push(py, 1i64.to_object(py)).unwrap();
        builder.push_alt(py, 2i64.to_object(py)).unwrap();
        builder.push(py, 3i64.to_object(py)).unwrap();
        assert_eq!(values(builder.get_incomplete(py)), vec![1, 2, 3]);
    });
}

#[test]
fn list_round_trip_matches_direct_construction() {
    Python::with_gil(|py| {
        let built = filled(py, 5, &[10, 20, 30]).get_incomplete(py);
        let direct = PyList::new(py, [10i64, 20, 30]);
        assert_eq!(built.len(), direct.len());
        assert!(built.eq(direct).unwrap());
        for i in 0..3 {
            let left = built.get_item(i).unwrap();
            let right = direct.get_item(i).unwrap();
            assert!(left.eq(right).unwrap());
        }
    });
}

#[test]
fn list_holds_the_very_objects_that_were_pushed() {
    Python::with_gil(|py| {
        let first: PyObject = PyList::empty(py).to_object(py);
        let second: PyObject = PyList::empty(py).to_object(py);
        let mut builder = PyListBuilder::with_capacity(py, 3).unwrap();
        builder.push(py, first.clone_ref(py)).unwrap();
        builder.push(py, second.clone_ref(py)).unwrap();
        let list = builder.get_incomplete(py);
        assert!(list.get_item(0).unwrap().is(&first));
        assert!(list.get_item(1).unwrap().is(&second));
        assert!(!list.get_item(0).unwrap().is(&second));
    });
}

#[test]
fn list_truncation_never_shows_an_unwritten_slot() {
    Python::with_gil(|py| {
        let list = filled(py, 8, &[1]).get_incomplete(py);
        assert_eq!(list.len(), 1);
        assert!(list.iter().all(|item| !item.is_none()));
    });
}

#[test]
fn list_capacity_beyond_the_signed_size_type_is_refused() {
    Python::with_gil(|py| {
        let largest = isize::MAX as usize;
        assert!(matches!(
            PyListBuilder::with_capacity(py, largest + 1),
            Err(BuildError::CapacityOutOfRange)
        ));
        assert!(matches!(
            PyListBuilder::with_capacity(py, usize::MAX),
            Err(BuildError::CapacityOutOfRange)
        ));
    });
}

#[test]
fn list_allocation_failure_hands_back_the_interpreter_error() {
    Python::with_gil(|py| {
        match PyListBuilder::with_capacity(py, isize::MAX as usize) {
            Err(BuildError::Foreign(e)) => assert!(e.is_instance_of::<PyMemoryError>(py)),
            Err(other) => panic!("unexpected error {:?}", other),
            Ok(_) => panic!("no interpreter can allocate that many slots"),
        }
    });
}

#[test]
fn list_errors_carry_their_messages() {
    assert_eq!(
        BuildError::CapacityOutOfRange.message(Flavor::List),
        Some("list len out of range")
    );
    assert_eq!(
        BuildError::CapacityExceeded.message(Flavor::List),
        Some("push() exceeded list capacity")
    );
    assert_eq!(
        BuildError::IncompleteSequence.message(Flavor::List),
        Some("list not yet complete")
    );
}

#[test]
fn list_errors_become_value_errors() {
    Python::with_gil(|py| {
        let refused = filled(py, 2, &[1]).get(py).unwrap_err();
        let e = refused.into_py_err(Flavor::List);
        assert!(e.is_instance_of::<PyValueError>(py));
        assert_eq!(e.value(py).to_string(), "list not yet complete");
        let mut builder = filled(py, 1, &[1]);
        let e = builder
            .push(py, 2i64.to_object(py))
            .unwrap_err()
            .into_py_err(Flavor::List);
        assert!(e.is_instance_of::<PyValueError>(py));
        assert_eq!(e.value(py).to_string(), "push() exceeded list capacity");
    });
}

#[test]
fn interpreter_errors_are_passed_on_unchanged() {
    Python::with_gil(|py| {
        let failed = PyListBuilder::with_capacity(py, isize::MAX as usize).err().unwrap();
        assert_eq!(failed.message(Flavor::List), None);
        let e = failed.into_py_err(Flavor::List);
        assert!(e.is_instance_of::<PyMemoryError>(py));
    });
}
