use vstd::prelude::*;

verus! {

/// The SQL dialects that fragments can be rendered for.
#[derive(Clone, Copy, Debug, PartialEq, Eq, Structural)]
pub enum Dialect {
    /// Backtick-quoted identifiers and the repeated `?` placeholder.
    MySql,
    /// Double-quoted identifiers and numbered `$n` placeholders.
    Postgres,
}

/// A database backend: each implementing type selects the dialect that the
/// library renders for.
pub trait Database: Sized + Clone + core::fmt::Debug + PartialEq + Eq {
    spec fn dialect_spec() -> Dialect;

    fn dialect() -> (d: Dialect)
        ensures
            d == Self::dialect_spec(),
    ;
}

/// The MySQL backend.
#[derive(Clone, Copy, Debug, PartialEq, Eq)]
pub struct MySql;

/// The PostgreSQL backend.
#[derive(Clone, Copy, Debug, PartialEq, Eq)]
pub struct Postgres;

impl Database for MySql {
    open spec fn dialect_spec() -> Dialect {
        Dialect::MySql
    }

    fn dialect() -> (d: Dialect) {
        Dialect::MySql
    }
}

impl Database for Postgres {
    open spec fn dialect_spec() -> Dialect {
        Dialect::Postgres
    }

    fn dialect() -> (d: Dialect) {
        Dialect::Postgres
    }
}

} // verus!
