//! The mathematical model of a builder: a fixed number of slots, of which a
//! prefix has been filled.
//!
//! The executable builders state their contracts through the functions of
//! this module, and the laws at its end are proved about those same
//! functions, so they hold of every run of the builders.

use crate::error::BuildError;
use pyo3::PyObject;
use vstd::prelude::*;

verus! {

/// What a builder stands for: its capacity and the values pushed so far, in
/// push order.
pub struct Slots {
    pub capacity: nat,
    pub items: Seq<PyObject>,
}

impl Slots {
    /// The state of a builder right after creation.
    pub open spec fn empty(capacity: nat) -> Slots {
        Slots { capacity, items: Seq::empty() }
    }

    /// The number of filled slots never exceeds the capacity.
    pub open spec fn wf(self) -> bool {
        self.items.len() <= self.capacity
    }

    /// The number of slots written so far.
    pub open spec fn filled(self) -> nat {
        self.items.len()
    }

    /// Every slot has been written.
    pub open spec fn is_full(self) -> bool {
        self.items.len() == self.capacity
    }

    /// The state after an attempt to push `item`: the item goes into the
    /// first empty slot, and a full builder is left as it is.
    pub open spec fn pushed(self, item: PyObject) -> Slots {
        if self.is_full() {
            self
        } else {
            Slots { capacity: self.capacity, items: self.items.push(item) }
        }
    }

    /// What an attempt to push reports.
    pub open spec fn push_outcome(self) -> Result<(), BuildError> {
        if self.is_full() {
            Err(BuildError::CapacityExceeded)
        } else {
            Ok(())
        }
    }

    /// What the strict terminal operation yields: all the values of a full
    /// builder, and an error while slots are still empty.
    pub open spec fn complete(self) -> Result<Seq<PyObject>, BuildError> {
        if self.is_full() {
            Ok(self.items)
        } else {
            Err(BuildError::IncompleteSequence)
        }
    }

    /// What the truncating terminal operation yields: the filled prefix.
    pub open spec fn truncated(self) -> Seq<PyObject> {
        self.items
    }

    /// The state after pushing each of `items` in turn.
    pub open spec fn pushed_all(self, items: Seq<PyObject>) -> Slots
        decreases items.len(),
    {
        if items.len() == 0 {
            self
        } else {
            self.pushed_all(items.drop_last()).pushed(items.last())
        }
    }
}

/// Pushing never changes the capacity, and never breaks well-formedness.
pub proof fn lemma_pushed_keeps_shape(s: Slots, item: PyObject)
    requires
        s.wf(),
    ensures
        s.pushed(item).wf(),
        s.pushed(item).capacity == s.capacity,
        s.push_outcome() is Ok ==> s.pushed(item).filled() == s.filled() + 1,
        s.push_outcome() is Err ==> s.pushed(item) == s,
{
}

/// Pushing no more values than there are slots: every push succeeds, and
/// the builder then holds exactly the pushed values, in push order. So the
/// truncating terminal operation yields a sequence of as many items as were
/// pushed, the pushed values themselves.
pub proof fn lemma_pushes_within_capacity(capacity: nat, items: Seq<PyObject>)
    requires
        items.len() <= capacity,
    ensures
        Slots::empty(capacity).pushed_all(items) == (Slots { capacity, items }),
        Slots::empty(capacity).pushed_all(items).truncated() == items,
        Slots::empty(capacity).pushed_all(items).truncated().len() == items.len(),
        forall|k: int|
            0 <= k < items.len() ==> #[trigger] Slots::empty(capacity).pushed_all(
                items.take(k),
            ).push_outcome() is Ok,
    decreases items.len(),
{
    let start = Slots::empty(capacity);
    if items.len() > 0 {
        lemma_pushes_within_capacity(capacity, items.drop_last());
        assert(items.drop_last().push(items.last()) =~= items);
    } else {
        assert(items =~= Seq::empty());
    }
    assert forall|k: int| 0 <= k < items.len() implies #[trigger] start.pushed_all(
        items.take(k),
    ).push_outcome() is Ok by {
        if k == items.len() - 1 {
            assert(items.take(k) =~= items.drop_last());
        } else {
            assert(items.drop_last().take(k) =~= items.take(k));
        }
    }
}

/// Filling every slot: the strict terminal operation succeeds with all the
/// pushed values, as many as the capacity, and the truncating one yields
/// the same sequence.
pub proof fn lemma_full_builder_completes(capacity: nat, items: Seq<PyObject>)
    requires
        items.len() == capacity,
    ensures
        Slots::empty(capacity).pushed_all(items).complete() == Ok::<Seq<PyObject>, BuildError>(
            items,
        ),
        Slots::empty(capacity).pushed_all(items).complete()->Ok_0.len() == capacity,
        Slots::empty(capacity).pushed_all(items).truncated() == items,
{
    lemma_pushes_within_capacity(capacity, items);
}

/// Leaving slots empty: the strict terminal operation fails with
/// `IncompleteSequence`, while the truncating one yields the values pushed.
pub proof fn lemma_partial_builder_truncates(capacity: nat, items: Seq<PyObject>)
    requires
        items.len() < capacity,
    ensures
        Slots::empty(capacity).pushed_all(items).complete() == Err::<Seq<PyObject>, BuildError>(
            BuildError::IncompleteSequence,
        ),
        Slots::empty(capacity).pushed_all(items).truncated() == items,
        Slots::empty(capacity).pushed_all(items).truncated().len() == items.len(),
{
    lemma_pushes_within_capacity(capacity, items);
}

/// One push too many: once every slot is written, a further push fails with
/// `CapacityExceeded` and leaves the builder, its fill count included, as it
/// was.
pub proof fn lemma_push_beyond_capacity(capacity: nat, items: Seq<PyObject>, extra: PyObject)
    requires
        items.len() == capacity,
    ensures
        Slots::empty(capacity).pushed_all(items).push_outcome() == Err::<(), BuildError>(
            BuildError::CapacityExceeded,
        ),
        Slots::empty(capacity).pushed_all(items).pushed(extra) == Slots::empty(
            capacity,
        ).pushed_all(items),
        Slots::empty(capacity).pushed_all(items.push(extra)).filled() == capacity,
{
    lemma_pushes_within_capacity(capacity, items);
    assert(items.push(extra).drop_last() =~= items);
}

} // verus!
