//! The satisfiability checker: validates one witness against the schema's
//! table and its declared public bindings, producing a complete verdict.

use vstd::prelude::*;

use crate::assignment::cell_value_in;
use crate::assignment::AdviceSlot;
use crate::assignment::lemma_cell_value_first_match;
use crate::assignment::lemma_cell_value_no_match;
use crate::assignment::slot_value;
use crate::assignment::AssignedRow;
use crate::assignment::CircuitAssignment;
use crate::assignment::InstanceBinding;
use crate::field::FieldElement;
use crate::schema::AddChipConfig;
use crate::schema::ConfigurationError;
use crate::table::LookupTable;

verus! {

/// Why a row or binding is in violation.
#[derive(Clone, Copy, Debug, PartialEq, Eq, Structural)]
pub enum ViolationKind {
    /// The row's witness triple is absent from the table: a value out of
    /// domain or an arithmetic error.
    LookupMiss { a: FieldElement, b: FieldElement, c: FieldElement },
    /// The bound cell's value disagrees with the declared public value.
    InstanceMismatch { cell_value: FieldElement, public_value: FieldElement },
}

/// One violation found by the checker, at the row it concerns.
#[derive(Clone, Copy, Debug, PartialEq, Eq, Structural)]
pub struct Violation {
    pub row: u64,
    pub kind: ViolationKind,
}

/// The checker's outcome: a pass, or every violation found, in order.
#[derive(Clone, Debug, PartialEq, Eq)]
pub enum Verdict {
    Pass,
    Fail { violations: Vec<Violation> },
}

/// The violation recorded for a row whose triple misses the table.
pub open spec fn lookup_violation(r: AssignedRow) -> Violation {
    Violation { row: r.row, kind: ViolationKind::LookupMiss { a: r.a, b: r.b, c: r.c } }
}

/// The lookup violations of the assigned rows, in assignment order: one per
/// row whose witness triple is absent from the table.
pub open spec fn lookup_violations(table: LookupTable, rows: Seq<AssignedRow>) -> Seq<Violation>
    decreases rows.len(),
{
    if rows.len() == 0 {
        Seq::empty()
    } else {
        lookup_violations(table, rows.drop_last())
            + if table.spec_contains(rows.last().a, rows.last().b, rows.last().c) {
                Seq::empty()
            } else {
                seq![lookup_violation(rows.last())]
            }
    }
}

/// The violation recorded for a binding whose cell value `v` disagrees with
/// its declared public value.
pub open spec fn instance_violation(v: FieldElement, b: InstanceBinding) -> Violation {
    Violation {
        row: b.cell.row,
        kind: ViolationKind::InstanceMismatch { cell_value: v, public_value: b.public_value },
    }
}

/// Whether a binding's cell holds a value different from the declared one.
pub open spec fn binding_mismatched(rows: Seq<AssignedRow>, b: InstanceBinding) -> bool {
    match cell_value_in(rows, b.cell) {
        Some(v) => v != b.public_value,
        None => false,
    }
}

/// The instance violations of the declared bindings, in declaration order:
/// one per binding whose cell value disagrees with its public value.
pub open spec fn instance_violations(
    rows: Seq<AssignedRow>,
    bindings: Seq<InstanceBinding>,
) -> Seq<Violation>
    decreases bindings.len(),
{
    if bindings.len() == 0 {
        Seq::empty()
    } else {
        instance_violations(rows, bindings.drop_last())
            + match cell_value_in(rows, bindings.last().cell) {
                Some(v) => if v == bindings.last().public_value {
                    Seq::empty()
                } else {
                    seq![instance_violation(v, bindings.last())]
                },
                None => Seq::empty(),
            }
    }
}

/// Everything the checker reports for one witness: the lookup violations of
/// all assigned rows, then the instance violations of all bindings.
pub open spec fn all_violations(table: LookupTable, asg: CircuitAssignment) -> Seq<Violation> {
    lookup_violations(table, asg.rows@) + instance_violations(asg.rows@, asg.bindings@)
}

/// Validates one assignment against its schema's table and its declared
/// public bindings. A malformed schema aborts before any check executes;
/// otherwise both checks run to completion over every row and every binding,
/// and the verdict carries every violation found, not just the first.
pub fn check(config: &AddChipConfig, asg: &CircuitAssignment) -> (r: Result<
    Verdict,
    ConfigurationError,
>)
    requires
        config.table.wf(),
    ensures
        r is Ok <==> config.schema_wf(),
        r is Err ==> r == (Result::<Verdict, ConfigurationError>::Err(
            if config.lookup is None {
                ConfigurationError::LookupNotRegistered
            } else {
                ConfigurationError::SchemaMalformed
            },
        )),
        match r {
            Ok(verdict) => match verdict {
                Verdict::Pass => all_violations(config.table, *asg).len() == 0,
                Verdict::Fail { violations } => {
                    &&& violations@ == all_violations(config.table, *asg)
                    &&& violations@.len() > 0
                },
            },
            Err(_) => true,
        },
{
    if let Err(e) = config.validate() {
        return Err(e);
    }
    let mut violations: Vec<Violation> = Vec::new();
    let mut i: usize = 0;
    while i < asg.rows.len()
        invariant
            config.table.wf(),
            i <= asg.rows@.len(),
            violations@ == lookup_violations(config.table, asg.rows@.take(i as int)),
        decreases asg.rows@.len() - i,
    {
        let r = asg.rows[i];
        if !config.table.contains(r.a, r.b, r.c) {
            violations.push(Violation {
                row: r.row,
                kind: ViolationKind::LookupMiss { a: r.a, b: r.b, c: r.c },
            });
        }
        proof {
            assert(asg.rows@.take(i + 1).drop_last() =~= asg.rows@.take(i as int));
            assert(asg.rows@.take(i + 1).last() == asg.rows@[i as int]);
        }
        i = i + 1;
    }
    proof {
        assert(asg.rows@.take(asg.rows@.len() as int) =~= asg.rows@);
    }
    let mut j: usize = 0;
    while j < asg.bindings.len()
        invariant
            j <= asg.bindings@.len(),
            violations@ == lookup_violations(config.table, asg.rows@)
                + instance_violations(asg.rows@, asg.bindings@.take(j as int)),
        decreases asg.bindings@.len() - j,
    {
        let b = asg.bindings[j];
        match asg.find_row(b.cell.row) {
            Some(idx) => {
                let row = asg.rows[idx];
                let v = match b.cell.slot {
                    AdviceSlot::A => row.a,
                    AdviceSlot::B => row.b,
                    AdviceSlot::C => row.c,
                };
                proof {
                    lemma_cell_value_first_match(asg.rows@, b.cell, idx as int);
                    assert(v == slot_value(asg.rows@[idx as int], b.cell.slot));
                }
                if v != b.public_value {
                    violations.push(Violation {
                        row: b.cell.row,
                        kind: ViolationKind::InstanceMismatch {
                            cell_value: v,
                            public_value: b.public_value,
                        },
                    });
                }
            },
            None => {
                proof {
                    lemma_cell_value_no_match(asg.rows@, b.cell);
                }
            },
        }
        proof {
            assert(asg.bindings@.take(j + 1).drop_last() =~= asg.bindings@.take(j as int));
            assert(asg.bindings@.take(j + 1).last() == asg.bindings@[j as int]);
        }
        j = j + 1;
    }
    proof {
        assert(asg.bindings@.take(asg.bindings@.len() as int) =~= asg.bindings@);
    }
    if violations.len() == 0 {
        Ok(Verdict::Pass)
    } else {
        Ok(Verdict::Fail { violations })
    }
}

/// Rows that all pass the lookup produce no lookup violations.
proof fn lemma_lookup_all_pass(table: LookupTable, rows: Seq<AssignedRow>)
    requires
        forall|i: int| 0 <= i < rows.len() ==>
            table.spec_contains((#[trigger] rows[i]).a, rows[i].b, rows[i].c),
    ensures
        lookup_violations(table, rows).len() == 0,
    decreases rows.len(),
{
    if rows.len() > 0 {
        let rest = rows.drop_last();
        assert forall|i: int| 0 <= i < rest.len() implies
            table.spec_contains((#[trigger] rest[i]).a, rest[i].b, rest[i].c) by {
            assert(rest[i] == rows[i]);
        }
        lemma_lookup_all_pass(table, rest);
        assert(rows.last() == rows[rows.len() - 1]);
    }
}

/// Bindings that all name their cell's actual value produce no instance
/// violations.
proof fn lemma_instance_all_match(rows: Seq<AssignedRow>, bindings: Seq<InstanceBinding>)
    requires
        forall|k: int| 0 <= k < bindings.len() ==>
            !binding_mismatched(rows, #[trigger] bindings[k]),
    ensures
        instance_violations(rows, bindings).len() == 0,
    decreases bindings.len(),
{
    if bindings.len() > 0 {
        let rest = bindings.drop_last();
        assert forall|k: int| 0 <= k < rest.len() implies
            !binding_mismatched(rows, #[trigger] rest[k]) by {
            assert(rest[k] == bindings[k]);
        }
        lemma_instance_all_match(rows, rest);
        assert(bindings.last() == bindings[bindings.len() - 1]);
    }
}

/// Every lookup violation carries the `LookupMiss` kind.
proof fn lemma_lookup_kinds(table: LookupTable, rows: Seq<AssignedRow>)
    ensures
        forall|k: int| 0 <= k < lookup_violations(table, rows).len() ==>
            (#[trigger] lookup_violations(table, rows)[k]).kind is LookupMiss,
    decreases rows.len(),
{
    if rows.len() > 0 {
        let rest = rows.drop_last();
        lemma_lookup_kinds(table, rest);
        let prefix = lookup_violations(table, rest);
        let whole = lookup_violations(table, rows);
        assert forall|k: int| 0 <= k < whole.len() implies
            (#[trigger] whole[k]).kind is LookupMiss by {
            if k < prefix.len() {
                assert(whole[k] == prefix[k]);
            }
        }
    }
}

/// Every instance violation carries the `InstanceMismatch` kind.
proof fn lemma_instance_kinds(rows: Seq<AssignedRow>, bindings: Seq<InstanceBinding>)
    ensures
        forall|k: int| 0 <= k < instance_violations(rows, bindings).len() ==>
            (#[trigger] instance_violations(rows, bindings)[k]).kind is InstanceMismatch,
    decreases bindings.len(),
{
    if bindings.len() > 0 {
        let rest = bindings.drop_last();
        lemma_instance_kinds(rows, rest);
        let prefix = instance_violations(rows, rest);
        let whole = instance_violations(rows, bindings);
        assert forall|k: int| 0 <= k < whole.len() implies
            (#[trigger] whole[k]).kind is InstanceMismatch by {
            if k < prefix.len() {
                assert(whole[k] == prefix[k]);
            }
        }
    }
}

/// A row whose triple misses the table forces at least one lookup violation.
proof fn lemma_lookup_miss_contributes(table: LookupTable, rows: Seq<AssignedRow>, i: int)
    requires
        0 <= i < rows.len(),
        !table.spec_contains(rows[i].a, rows[i].b, rows[i].c),
    ensures
        lookup_violations(table, rows).len() > 0,
    decreases rows.len(),
{
    if i == rows.len() - 1 {
        assert(rows.last() == rows[i]);
    } else {
        let rest = rows.drop_last();
        assert(rest[i] == rows[i]);
        lemma_lookup_miss_contributes(table, rest, i);
    }
}

/// A mismatched binding forces at least one instance violation.
proof fn lemma_instance_mismatch_contributes(
    rows: Seq<AssignedRow>,
    bindings: Seq<InstanceBinding>,
    k: int,
)
    requires
        0 <= k < bindings.len(),
        binding_mismatched(rows, bindings[k]),
    ensures
        instance_violations(rows, bindings).len() > 0,
    decreases bindings.len(),
{
    if k == bindings.len() - 1 {
        assert(bindings.last() == bindings[k]);
    } else {
        let rest = bindings.drop_last();
        assert(rest[k] == bindings[k]);
        lemma_instance_mismatch_contributes(rows, rest, k);
    }
}

/// Law: a witness whose every row is a valid in-domain addition and whose
/// every binding declares the bound cell's actual value produces no
/// violations, so the checker's verdict on it is a pass.
pub proof fn lemma_valid_witness_accepted(table: LookupTable, asg: CircuitAssignment)
    requires
        forall|i: int| 0 <= i < asg.rows@.len() ==>
            table.spec_contains((#[trigger] asg.rows@[i]).a, asg.rows@[i].b, asg.rows@[i].c),
        forall|k: int| 0 <= k < asg.bindings@.len() ==>
            cell_value_in(asg.rows@, (#[trigger] asg.bindings@[k]).cell)
                == Some(asg.bindings@[k].public_value),
    ensures
        all_violations(table, asg).len() == 0,
{
    lemma_lookup_all_pass(table, asg.rows@);
    lemma_instance_all_match(asg.rows@, asg.bindings@);
}

/// Law: a witness whose every row is a valid in-domain addition but whose
/// bindings include a declared public value different from the bound cell's
/// value fails, and every violation reported is an instance mismatch — the
/// lookup still succeeds.
pub proof fn lemma_wrong_public_rejected(table: LookupTable, asg: CircuitAssignment)
    requires
        forall|i: int| 0 <= i < asg.rows@.len() ==>
            table.spec_contains((#[trigger] asg.rows@[i]).a, asg.rows@[i].b, asg.rows@[i].c),
        exists|k: int| 0 <= k < asg.bindings@.len()
            && binding_mismatched(asg.rows@, #[trigger] asg.bindings@[k]),
    ensures
        all_violations(table, asg).len() > 0,
        forall|k: int| 0 <= k < all_violations(table, asg).len() ==>
            (#[trigger] all_violations(table, asg)[k]).kind is InstanceMismatch,
{
    lemma_lookup_all_pass(table, asg.rows@);
    let w = choose|k: int| 0 <= k < asg.bindings@.len()
        && binding_mismatched(asg.rows@, #[trigger] asg.bindings@[k]);
    lemma_instance_mismatch_contributes(asg.rows@, asg.bindings@, w);
    lemma_instance_kinds(asg.rows@, asg.bindings@);
    assert(all_violations(table, asg) =~= instance_violations(asg.rows@, asg.bindings@));
}

/// Whether a row's witness inputs lie outside the table's domain.
pub open spec fn row_out_of_domain(domain_max: u64, r: AssignedRow) -> bool {
    r.a.value > domain_max || r.b.value > domain_max
}

/// Law: a witness with a row whose inputs lie outside the table's domain
/// fails with a lookup miss among its violations, whatever the declared
/// public values — instance correctness cannot mask an out-of-domain input.
pub proof fn lemma_out_of_domain_rejected(table: LookupTable, asg: CircuitAssignment)
    requires
        exists|i: int| 0 <= i < asg.rows@.len()
            && row_out_of_domain(table.domain_max, #[trigger] asg.rows@[i]),
    ensures
        all_violations(table, asg).len() > 0,
        exists|k: int| 0 <= k < all_violations(table, asg).len()
            && (#[trigger] all_violations(table, asg)[k]).kind is LookupMiss,
{
    let i = choose|i: int| 0 <= i < asg.rows@.len()
        && row_out_of_domain(table.domain_max, #[trigger] asg.rows@[i]);
    lemma_lookup_miss_contributes(table, asg.rows@, i);
    lemma_lookup_kinds(table, asg.rows@);
    let lv = lookup_violations(table, asg.rows@);
    assert(all_violations(table, asg)[0] == lv[0]);
    assert(all_violations(table, asg)[0].kind is LookupMiss);
}

} // verus!
