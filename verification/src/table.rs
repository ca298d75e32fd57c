//! The fixed lookup table: every valid addition triple over a bounded domain.

use vstd::prelude::*;

use crate::field::FieldElement;

verus! {

/// One enumerated row of the addition table; the invariant of a built table
/// makes `c` the sum of `a` and `b`.
#[derive(Clone, Copy, Debug, PartialEq, Eq, Structural)]
pub struct TableRow {
    pub a: FieldElement,
    pub b: FieldElement,
    pub c: FieldElement,
}

/// The index at which the table stores the triple for domain inputs `(a, b)`:
/// rows are laid out by ascending `a`, then ascending `b`.
pub open spec fn row_index(domain_max: int, a: int, b: int) -> int {
    a * (domain_max + 1) + b
}

/// The ground-truth enumeration of every valid addition triple `(a, b, a + b)`
/// with `a, b` in `[0, domain_max]`.
///
/// Built once, before any assignment, and never mutated afterward; it may be
/// shared read-only across any number of checks. Membership is set-based:
/// the row order (ascending `a`, then ascending `b`) is deterministic but
/// carries no meaning.
#[derive(Clone, Debug)]
pub struct LookupTable {
    pub domain_max: u64,
    pub rows: Vec<TableRow>,
}

impl LookupTable {
    /// The row the table holds for domain inputs `(a, b)`.
    pub open spec fn spec_row(a: int, b: int) -> TableRow {
        TableRow {
            a: FieldElement { value: a as u64 },
            b: FieldElement { value: b as u64 },
            c: FieldElement { value: (a + b) as u64 },
        }
    }

    /// Whether the triple `(a, b, c)` is a valid in-domain addition: both
    /// inputs lie in `[0, domain_max]` and `c` is exactly their sum.
    pub open spec fn spec_contains(self, a: FieldElement, b: FieldElement, c: FieldElement) -> bool {
        a.value <= self.domain_max && b.value <= self.domain_max
            && c.value == a.value + b.value
    }

    /// Well-formedness: the table enumerates exactly the `(domain_max + 1)^2`
    /// valid triples, with the triple for `(a, b)` at `row_index(a, b)`, and
    /// holds nothing else.
    pub open spec fn wf(self) -> bool {
        &&& self.domain_max < 0x8000_0000_0000_0000u64
        &&& self.rows@.len() == (self.domain_max as int + 1) * (self.domain_max as int + 1)
        &&& forall|i: int| 0 <= i < self.rows@.len() ==> {
            let r = #[trigger] self.rows@[i];
            r.a.value <= self.domain_max && r.b.value <= self.domain_max
                && r.c.value == r.a.value + r.b.value
        }
        &&& forall|a: int, b: int|
            0 <= a <= self.domain_max && 0 <= b <= self.domain_max ==>
                0 <= #[trigger] row_index(self.domain_max as int, a, b) < self.rows@.len()
        &&& forall|a: int, b: int|
            0 <= a <= self.domain_max && 0 <= b <= self.domain_max ==>
                #[trigger] self.rows@[row_index(self.domain_max as int, a, b)]
                    == LookupTable::spec_row(a, b)
    }

    /// Appends, for `a` in `[0, domain_max]` ascending and then `b` in
    /// `[0, domain_max]` ascending, the triple `(a, b, a + b)`. Construction
    /// is total: it succeeds for every `domain_max` whose table fits in
    /// memory.
    pub fn build(domain_max: u64) -> (table: LookupTable)
        requires
            (domain_max as int + 1) * (domain_max as int + 1) <= usize::MAX as int,
        ensures
            table.wf(),
            table.domain_max == domain_max,
            table.rows@.len() == (domain_max as int + 1) * (domain_max as int + 1),
    {
        proof {
            assert(domain_max < 0x8000_0000_0000_0000u64) by (nonlinear_arith)
                requires
                    (domain_max as int + 1) * (domain_max as int + 1) <= usize::MAX as int,
                    usize::MAX as int <= u64::MAX as int,
            ;
        }
        let ghost dmi = domain_max as int;
        let mut rows: Vec<TableRow> = Vec::new();
        let mut n: u64 = 0;
        while n <= domain_max
            invariant
                n <= domain_max + 1,
                domain_max < 0x8000_0000_0000_0000u64,
                (dmi + 1) * (dmi + 1) <= usize::MAX as int,
                dmi == domain_max as int,
                rows@.len() == n * (dmi + 1),
                forall|i: int| 0 <= i < rows@.len() ==> {
                    let r = #[trigger] rows@[i];
                    r.a.value <= domain_max && r.b.value <= domain_max
                        && r.c.value == r.a.value + r.b.value
                },
                forall|a: int, b: int|
                    0 <= a < n && 0 <= b <= dmi ==>
                        0 <= #[trigger] row_index(dmi, a, b) < rows@.len(),
                forall|a: int, b: int|
                    0 <= a < n && 0 <= b <= dmi ==>
                        #[trigger] rows@[row_index(dmi, a, b)]
                            == LookupTable::spec_row(a, b),
            decreases domain_max + 1 - n,
        {
            let mut m: u64 = 0;
            while m <= domain_max
                invariant
                    n <= domain_max,
                    m <= domain_max + 1,
                    domain_max < 0x8000_0000_0000_0000u64,
                    (dmi + 1) * (dmi + 1) <= usize::MAX as int,
                    dmi == domain_max as int,
                    rows@.len() == n * (dmi + 1) + m,
                    forall|i: int| 0 <= i < rows@.len() ==> {
                        let r = #[trigger] rows@[i];
                        r.a.value <= domain_max && r.b.value <= domain_max
                            && r.c.value == r.a.value + r.b.value
                    },
                    forall|a: int, b: int|
                        0 <= a < n && 0 <= b <= dmi ==>
                            0 <= #[trigger] row_index(dmi, a, b) < rows@.len(),
                    forall|a: int, b: int|
                        0 <= a < n && 0 <= b <= dmi ==>
                            #[trigger] rows@[row_index(dmi, a, b)]
                                == LookupTable::spec_row(a, b),
                    forall|b: int|
                        0 <= b < m ==>
                            0 <= #[trigger] row_index(dmi, n as int, b) < rows@.len(),
                    forall|b: int|
                        0 <= b < m ==>
                            #[trigger] rows@[row_index(dmi, n as int, b)]
                                == LookupTable::spec_row(n as int, b),
                decreases domain_max + 1 - m,
            {
                proof {
                    assert(n * (dmi + 1) + m + 1 <= (dmi + 1) * (dmi + 1)) by (nonlinear_arith)
                        requires
                            0 <= n as int <= dmi,
                            0 <= m as int <= dmi,
                    ;
                }
                rows.push(TableRow {
                    a: FieldElement { value: n },
                    b: FieldElement { value: m },
                    c: FieldElement { value: n + m },
                });
                m = m + 1;
            }
            proof {
                assert(n * (dmi + 1) + (dmi + 1) == (n + 1) * (dmi + 1)) by (nonlinear_arith);
            }
            n = n + 1;
        }
        LookupTable { domain_max, rows }
    }

    /// True iff `(a, b, c)` is one of the enumerated rows; because the table
    /// is a total function of `(a, b)`, this is exactly
    /// `a, b ∈ [0, domain_max] ∧ c = a + b`.
    pub fn contains(&self, a: FieldElement, b: FieldElement, c: FieldElement) -> (r: bool)
        requires
            self.wf(),
        ensures
            r == self.spec_contains(a, b, c),
            r == self.rows@.contains(TableRow { a, b, c }),
    {
        proof {
            self.lemma_contains_iff_member(a, b, c);
        }
        if a.value <= self.domain_max && b.value <= self.domain_max {
            c.value == a.value + b.value
        } else {
            false
        }
    }

    /// Law: membership in the enumerated rows coincides with being a valid
    /// in-domain addition triple. Together with the row count in `build`'s
    /// contract, this pins the table down completely: it holds every valid
    /// triple and nothing besides.
    pub proof fn lemma_contains_iff_member(self, a: FieldElement, b: FieldElement, c: FieldElement)
        requires
            self.wf(),
        ensures
            self.spec_contains(a, b, c) <==> self.rows@.contains(TableRow { a, b, c }),
    {
        let dmi = self.domain_max as int;
        if self.spec_contains(a, b, c) {
            let i = row_index(dmi, a.value as int, b.value as int);
            assert(self.rows@[i] == LookupTable::spec_row(a.value as int, b.value as int));
            assert(LookupTable::spec_row(a.value as int, b.value as int)
                == TableRow { a, b, c });
            assert(self.rows@.contains(TableRow { a, b, c }));
        }
        if self.rows@.contains(TableRow { a, b, c }) {
            let i = choose|i: int| 0 <= i < self.rows@.len()
                && self.rows@[i] == TableRow { a, b, c };
            assert(self.rows@[i].a.value <= self.domain_max);
        }
    }
}

} // verus!
