//! The per-instance witness: values written to the advice columns, plus the
//! declared public bindings.

use vstd::prelude::*;

use crate::field::FieldElement;

verus! {

/// The advice column a cell handle points into: the `a`, `b` or `c` slot of
/// an assigned row.
#[derive(Clone, Copy, Debug, PartialEq, Eq, Structural)]
pub enum AdviceSlot {
    A,
    B,
    C,
}

/// A handle to one assigned cell: an advice slot at a row.
#[derive(Clone, Copy, Debug, PartialEq, Eq, Structural)]
pub struct CellHandle {
    pub slot: AdviceSlot,
    pub row: u64,
}

/// The witness values written to the three advice columns at one row.
#[derive(Clone, Copy, Debug, PartialEq, Eq, Structural)]
pub struct AssignedRow {
    pub row: u64,
    pub a: FieldElement,
    pub b: FieldElement,
    pub c: FieldElement,
}

/// A declared public binding: the cell's value must equal the public value.
#[derive(Clone, Copy, Debug, PartialEq, Eq, Structural)]
pub struct InstanceBinding {
    pub cell: CellHandle,
    pub public_value: FieldElement,
}

/// A duplicate write: the row already carries witness values.
#[derive(Clone, Copy, Debug, PartialEq, Eq, Structural)]
pub struct AssignmentConflict {
    pub row: u64,
}

/// The value an assigned row holds in the given advice slot.
pub open spec fn slot_value(r: AssignedRow, slot: AdviceSlot) -> FieldElement {
    match slot {
        AdviceSlot::A => r.a,
        AdviceSlot::B => r.b,
        AdviceSlot::C => r.c,
    }
}

/// The value of the cell a handle points at: the value in the handle's slot
/// of the first assigned row with the handle's row index, or `None` when no
/// such row exists.
pub open spec fn cell_value_in(rows: Seq<AssignedRow>, cell: CellHandle) -> Option<FieldElement>
    decreases rows.len(),
{
    if rows.len() == 0 {
        None
    } else if rows[0].row == cell.row {
        Some(slot_value(rows[0], cell.slot))
    } else {
        cell_value_in(rows.drop_first(), cell)
    }
}

/// A cell's value is the value at the first row matching its handle.
pub(crate) proof fn lemma_cell_value_first_match(rows: Seq<AssignedRow>, cell: CellHandle, i: int)
    requires
        0 <= i < rows.len(),
        rows[i].row == cell.row,
        forall|j: int| 0 <= j < i ==> (#[trigger] rows[j]).row != cell.row,
    ensures
        cell_value_in(rows, cell) == Some(slot_value(rows[i], cell.slot)),
    decreases i,
{
    if i == 0 {
    } else {
        assert(rows[0].row != cell.row);
        let rest = rows.drop_first();
        assert(rest[i - 1] == rows[i]);
        assert forall|j: int| 0 <= j < i - 1 implies (#[trigger] rest[j]).row != cell.row by {
            assert(rest[j] == rows[j + 1]);
        }
        lemma_cell_value_first_match(rest, cell, i - 1);
    }
}

/// A handle matching no assigned row has no cell value.
pub(crate) proof fn lemma_cell_value_no_match(rows: Seq<AssignedRow>, cell: CellHandle)
    requires
        forall|i: int| 0 <= i < rows.len() ==> (#[trigger] rows[i]).row != cell.row,
    ensures
        cell_value_in(rows, cell) is None,
    decreases rows.len(),
{
    if rows.len() == 0 {
    } else {
        let rest = rows.drop_first();
        assert forall|j: int| 0 <= j < rest.len() implies (#[trigger] rest[j]).row != cell.row by {
            assert(rest[j] == rows[j + 1]);
        }
        lemma_cell_value_no_match(rest, cell);
    }
}

/// One proof instance's witness, created per proof, consumed once by the
/// checker, then discarded; it carries no state across checks.
#[derive(Clone, Debug)]
pub struct CircuitAssignment {
    pub rows: Vec<AssignedRow>,
    pub bindings: Vec<InstanceBinding>,
}

impl CircuitAssignment {
    /// Whether some assigned row carries the given row index.
    pub open spec fn spec_has_row(self, row: u64) -> bool {
        exists|i: int| 0 <= i < self.rows@.len() && (#[trigger] self.rows@[i]).row == row
    }

    /// Well-formedness: no row index is assigned twice, and every binding
    /// points at an assigned cell. `assign` and `constrain_instance`
    /// preserve it, so a duplicate write can never enter an assignment
    /// built through them.
    pub open spec fn wf(self) -> bool {
        &&& forall|i: int, j: int|
            0 <= i < j < self.rows@.len() ==>
                (#[trigger] self.rows@[i]).row != (#[trigger] self.rows@[j]).row
        &&& forall|k: int|
            0 <= k < self.bindings@.len() ==>
                self.spec_has_row((#[trigger] self.bindings@[k]).cell.row)
    }

    /// An empty witness: nothing assigned, nothing bound.
    pub fn new() -> (asg: CircuitAssignment)
        ensures
            asg.rows@.len() == 0,
            asg.bindings@.len() == 0,
            asg.wf(),
    {
        CircuitAssignment { rows: Vec::new(), bindings: Vec::new() }
    }

    /// The first assigned row carrying the given row index, if any.
    pub fn find_row(&self, row: u64) -> (r: Option<usize>)
        ensures
            match r {
                Some(i) => {
                    &&& i < self.rows@.len()
                    &&& self.rows@[i as int].row == row
                    &&& forall|j: int| 0 <= j < i ==> (#[trigger] self.rows@[j]).row != row
                },
                None => !self.spec_has_row(row),
            },
    {
        let mut i: usize = 0;
        while i < self.rows.len()
            invariant
                i <= self.rows@.len(),
                forall|j: int| 0 <= j < i ==> (#[trigger] self.rows@[j]).row != row,
            decreases self.rows@.len() - i,
        {
            if self.rows[i].row == row {
                return Some(i);
            }
            i = i + 1;
        }
        None
    }

    /// Whether the given row index already carries witness values.
    pub fn has_row(&self, row: u64) -> (r: bool)
        ensures
            r == self.spec_has_row(row),
    {
        self.find_row(row).is_some()
    }

    /// Writes `a`, `b`, `c` into their advice columns at the given row and
    /// returns a handle to the `c` cell. Writing twice to one row fails with
    /// `AssignmentConflict`, leaving the witness untouched, so a caller can
    /// abort before any check runs.
    pub fn assign(&mut self, row: u64, a: FieldElement, b: FieldElement, c: FieldElement)
        -> (r: Result<CellHandle, AssignmentConflict>)
        ensures
            match r {
                Ok(handle) => {
                    &&& !old(self).spec_has_row(row)
                    &&& handle == (CellHandle { slot: AdviceSlot::C, row })
                    &&& final(self).rows@ == old(self).rows@.push(AssignedRow { row, a, b, c })
                    &&& final(self).bindings@ == old(self).bindings@
                    &&& final(self).spec_has_row(row)
                },
                Err(e) => {
                    &&& old(self).spec_has_row(row)
                    &&& e == (AssignmentConflict { row })
                    &&& *final(self) == *old(self)
                },
            },
            old(self).wf() ==> final(self).wf(),
    {
        if self.has_row(row) {
            return Err(AssignmentConflict { row });
        }
        self.rows.push(AssignedRow { row, a, b, c });
        proof {
            assert(self.rows@[old(self).rows@.len() as int].row == row);
            if old(self).wf() {
                assert forall|k: int| 0 <= k < self.bindings@.len() implies
                    self.spec_has_row((#[trigger] self.bindings@[k]).cell.row) by {
                    let r0 = self.bindings@[k].cell.row;
                    let i = choose|i: int|
                        0 <= i < old(self).rows@.len()
                            && (#[trigger] old(self).rows@[i]).row == r0;
                    assert(self.rows@[i].row == r0);
                }
            }
        }
        Ok(CellHandle { slot: AdviceSlot::C, row })
    }

    /// Records that the cell the handle points at must equal the declared
    /// public value. The equality check is independent of the lookup check:
    /// a witness can pass the lookup yet fail the instance binding.
    pub fn constrain_instance(&mut self, cell: CellHandle, public_value: FieldElement)
        requires
            old(self).spec_has_row(cell.row),
        ensures
            final(self).rows@ == old(self).rows@,
            final(self).bindings@ == old(self).bindings@.push(
                InstanceBinding { cell, public_value },
            ),
            old(self).wf() ==> final(self).wf(),
    {
        self.bindings.push(InstanceBinding { cell, public_value });
    }
}

} // verus!
