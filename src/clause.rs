//! Clause builders: WHERE, HAVING and ON (one grammar), IN, GROUP BY, ORDER BY,
//! FROM and JOIN.

pub mod group_by;
pub mod order_by;
pub mod sql_from;
pub mod sql_in;
pub mod sql_join;
pub mod where_like;




pub use sql_in::{In, InBuilder, InKind};

pub use where_like::{ColRef, Having, PredicateKind, SqlOn, Where, WhereLike, WhereLikeBuilder, WhereLikeKind};
