//! A minimal lookup-argument arithmetization for bounded-domain addition.
//!
//! The library proves, inside a constraint-system schema, that a private
//! addition `a + b = c` is correct and that `c` matches a declared public
//! value, by membership in a precomputed table of valid triples rather than
//! by an algebraic addition gate.

pub mod assignment;
pub mod checker;
pub mod field;
pub mod schema;
pub mod table;
