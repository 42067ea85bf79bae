//! Builders for parameterized SQL: statements and clauses are assembled as fragments
//! (rendered text plus the ordered list of bound values), checked for structural
//! completeness before they are finalized, and rendered through a dialect that decides
//! identifier quoting, placeholder syntax and value representation.

pub mod crud;
pub mod dialect;
pub mod error;
pub mod expression;
pub mod function;
pub mod clause;
pub mod helper;
pub mod sql;
pub mod statement;
pub mod value;

pub use dialect::{Database, Dialect, MySql, Postgres};
pub use error::{CrudError, CrudErrorKind, ExecuteError, QueryError, SyntaxError, SyntaxErrorKind};
pub use sql::{FrozenSql, IntoRawSql, Sql, SqlView};
pub use value::{IntoSqlValue, Value, ValueLogicalKind, ValueStorage};
