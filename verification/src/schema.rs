//! The constraint-system schema: columns, the lookup registration, and the
//! configuration that ties advice columns to the fixed table.

use vstd::prelude::*;

use crate::table::LookupTable;

verus! {

/// The role of a column in the grid: private witness values, public instance
/// values, or a column of the fixed lookup table.
#[derive(Clone, Copy, Debug, PartialEq, Eq, Structural)]
pub enum ColumnKind {
    Advice,
    Instance,
    FixedTable,
}

/// A logical column identifier, tagged with its role.
#[derive(Clone, Copy, Debug, PartialEq, Eq, Structural)]
pub struct ColumnId {
    pub kind: ColumnKind,
    pub index: u64,
}

/// The registered lookup constraint: it binds three advice columns to the
/// three columns of the fixed table, and is active on every row that carries
/// a witness assignment.
#[derive(Clone, Copy, Debug, PartialEq, Eq, Structural)]
pub struct LookupConstraint {
    pub advice_a: ColumnId,
    pub advice_b: ColumnId,
    pub advice_c: ColumnId,
    pub table_a: ColumnId,
    pub table_b: ColumnId,
    pub table_c: ColumnId,
}

/// A malformed schema, detected before any check runs.
#[derive(Clone, Copy, Debug, PartialEq, Eq, Structural)]
pub enum ConfigurationError {
    /// No lookup constraint was registered.
    LookupNotRegistered,
    /// A lookup constraint exists but does not bind the schema's own advice
    /// columns to its own table columns, or a column carries the wrong role.
    SchemaMalformed,
}

/// The schema produced by `AddChip::configure`: three advice columns, one
/// instance column, the three columns of the fixed table, the equality-copy
/// permissions, the registered lookup constraint, and the built table.
#[derive(Clone, Debug)]
pub struct AddChipConfig {
    pub a_col: ColumnId,
    pub b_col: ColumnId,
    pub c_col: ColumnId,
    pub pub_col: ColumnId,
    pub add_a_col: ColumnId,
    pub add_b_col: ColumnId,
    pub add_c_col: ColumnId,
    pub equality: Vec<ColumnId>,
    pub lookup: Option<LookupConstraint>,
    pub table: LookupTable,
}

impl AddChipConfig {
    /// The decidable schema conditions: every column carries its proper role,
    /// the advice and table columns are pairwise distinct, a lookup
    /// constraint is registered and binds exactly this schema's advice
    /// columns to its table columns, and equality-copy is enabled on the
    /// three advice columns and the instance column.
    pub open spec fn schema_wf(self) -> bool {
        &&& self.a_col.kind is Advice
        &&& self.b_col.kind is Advice
        &&& self.c_col.kind is Advice
        &&& self.pub_col.kind is Instance
        &&& self.add_a_col.kind is FixedTable
        &&& self.add_b_col.kind is FixedTable
        &&& self.add_c_col.kind is FixedTable
        &&& self.a_col != self.b_col
        &&& self.a_col != self.c_col
        &&& self.b_col != self.c_col
        &&& self.add_a_col != self.add_b_col
        &&& self.add_a_col != self.add_c_col
        &&& self.add_b_col != self.add_c_col
        &&& self.lookup matches Some(l) && l == (LookupConstraint {
            advice_a: self.a_col,
            advice_b: self.b_col,
            advice_c: self.c_col,
            table_a: self.add_a_col,
            table_b: self.add_b_col,
            table_c: self.add_c_col,
        })
        &&& self.equality@.contains(self.a_col)
        &&& self.equality@.contains(self.b_col)
        &&& self.equality@.contains(self.c_col)
        &&& self.equality@.contains(self.pub_col)
    }

    /// Whether equality-copy has been enabled on the given column.
    pub fn equality_enabled(&self, col: ColumnId) -> (r: bool)
        ensures
            r == self.equality@.contains(col),
    {
        let mut i: usize = 0;
        while i < self.equality.len()
            invariant
                i <= self.equality@.len(),
                forall|j: int| 0 <= j < i ==> self.equality@[j] != col,
            decreases self.equality@.len() - i,
        {
            if self.equality[i] == col {
                return true;
            }
            i = i + 1;
        }
        false
    }

    /// Tests the decidable schema conditions, naming the first fault found:
    /// a missing lookup registration before any other malformation.
    pub fn validate(&self) -> (r: Result<(), ConfigurationError>)
        ensures
            r is Ok <==> self.schema_wf(),
            r == (if self.lookup is None {
                Result::<(), ConfigurationError>::Err(ConfigurationError::LookupNotRegistered)
            } else if !self.schema_wf() {
                Result::<(), ConfigurationError>::Err(ConfigurationError::SchemaMalformed)
            } else {
                Result::<(), ConfigurationError>::Ok(())
            }),
    {
        let l = match &self.lookup {
            Some(l) => *l,
            None => {
                return Err(ConfigurationError::LookupNotRegistered);
            },
        };
        let roles_ok = matches!(self.a_col.kind, ColumnKind::Advice)
            && matches!(self.b_col.kind, ColumnKind::Advice)
            && matches!(self.c_col.kind, ColumnKind::Advice)
            && matches!(self.pub_col.kind, ColumnKind::Instance)
            && matches!(self.add_a_col.kind, ColumnKind::FixedTable)
            && matches!(self.add_b_col.kind, ColumnKind::FixedTable)
            && matches!(self.add_c_col.kind, ColumnKind::FixedTable);
        let distinct_ok = self.a_col != self.b_col && self.a_col != self.c_col
            && self.b_col != self.c_col && self.add_a_col != self.add_b_col
            && self.add_a_col != self.add_c_col && self.add_b_col != self.add_c_col;
        let lookup_ok = l.advice_a == self.a_col && l.advice_b == self.b_col
            && l.advice_c == self.c_col && l.table_a == self.add_a_col
            && l.table_b == self.add_b_col && l.table_c == self.add_c_col;
        let equality_ok = self.equality_enabled(self.a_col)
            && self.equality_enabled(self.b_col) && self.equality_enabled(self.c_col)
            && self.equality_enabled(self.pub_col);
        if roles_ok && distinct_ok && lookup_ok && equality_ok {
            Ok(())
        } else {
            Err(ConfigurationError::SchemaMalformed)
        }
    }
}

/// The chip: it owns a configuration and lends it to assignment and checking.
pub struct AddChip {
    config: AddChipConfig,
}

impl AddChip {
    /// Wraps an existing configuration.
    pub fn new(config: AddChipConfig) -> (chip: AddChip)
        ensures
            chip.config() == config,
    {
        AddChip { config }
    }

    /// The chip's configuration.
    pub closed spec fn config(self) -> AddChipConfig {
        self.config
    }

    /// Borrows the chip's configuration.
    pub fn config_ref(&self) -> (cfg: &AddChipConfig)
        ensures
            *cfg == self.config(),
    {
        &self.config
    }

    /// Declares the schema once: allocates the three advice columns `a`, `b`,
    /// `c` and the instance column, enables equality-copy on all four,
    /// builds the lookup table for the given domain, and registers the
    /// lookup constraint tying `(a, b, c)` to the table's columns.
    pub fn configure(domain_max: u64) -> (cfg: AddChipConfig)
        requires
            (domain_max as int + 1) * (domain_max as int + 1) <= usize::MAX as int,
        ensures
            cfg.schema_wf(),
            cfg.table.wf(),
            cfg.table.domain_max == domain_max,
    {
        let a_col = ColumnId { kind: ColumnKind::Advice, index: 0 };
        let b_col = ColumnId { kind: ColumnKind::Advice, index: 1 };
        let c_col = ColumnId { kind: ColumnKind::Advice, index: 2 };
        let pub_col = ColumnId { kind: ColumnKind::Instance, index: 0 };
        let add_a_col = ColumnId { kind: ColumnKind::FixedTable, index: 0 };
        let add_b_col = ColumnId { kind: ColumnKind::FixedTable, index: 1 };
        let add_c_col = ColumnId { kind: ColumnKind::FixedTable, index: 2 };
        let mut equality: Vec<ColumnId> = Vec::new();
        equality.push(a_col);
        equality.push(b_col);
        equality.push(c_col);
        equality.push(pub_col);
        let lookup = LookupConstraint {
            advice_a: a_col,
            advice_b: b_col,
            advice_c: c_col,
            table_a: add_a_col,
            table_b: add_b_col,
            table_c: add_c_col,
        };
        let table = LookupTable::build(domain_max);
        let cfg = AddChipConfig {
            a_col,
            b_col,
            c_col,
            pub_col,
            add_a_col,
            add_b_col,
            add_c_col,
            equality,
            lookup: Some(lookup),
            table,
        };
        proof {
            assert(cfg.equality@[0] == cfg.a_col);
            assert(cfg.equality@[1] == cfg.b_col);
            assert(cfg.equality@[2] == cfg.c_col);
            assert(cfg.equality@[3] == cfg.pub_col);
        }
        cfg
    }
}

} // verus!
