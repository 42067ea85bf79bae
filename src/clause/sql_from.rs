use vstd::prelude::*;
use crate::clause::sql_join::{Join, JoinBuilder, JoinKind, TableReferenceKind, join_view, joined_is};
use crate::clause::where_like::WhereLike;
use crate::dialect::Database;
use crate::error::SyntaxError;
use crate::sql::{Sql, SqlView, cat, raw_view};

verus! {

/// A FROM clause: one table or a chain of joined tables.
#[derive(Debug)]
pub struct SqlFrom<DB: Database> {
    pub join: Join<DB>,
}

/// Builds a FROM clause with joins.
#[derive(Debug)]
pub struct SqlFromBuilder<DB: Database> {
    pub join: JoinBuilder<DB>,
}

/// `f` holds the one table `name`, without alias.
pub open spec fn single_table<DB: Database>(f: SqlFrom<DB>, name: Seq<char>) -> bool {
    &&& f.join.joined_tables@.len() == 1
    &&& f.join.joined_tables@[0].table_reference_kind is TableName
    &&& f.join.joined_tables@[0].table_reference_kind->TableName_0@ == name
    &&& f.join.joined_tables@[0].alias is None
    &&& f.join.joined_tables@[0].join is None
}

pub open spec fn from_view<DB: Database>(f: SqlFrom<DB>) -> SqlView {
    cat::<DB>(raw_view("from "@), join_view::<DB>(f.join.joined_tables@))
}

impl<DB: Database> Clone for SqlFrom<DB> {
    /// A copy that renders the same.
    fn clone(&self) -> (r: Self)
        ensures
            from_view::<DB>(r) == from_view::<DB>(*self),
    {
        SqlFrom { join: self.join.clone() }
    }
}

impl<DB: Database> SqlFrom<DB> {
    pub fn build(table_reference_kind: TableReferenceKind<DB>, alias: &str) -> (r: SqlFromBuilder<DB>)
        ensures
            r.join.joined_tables@.len() == 1,
            r.join.joined_tables@[0].table_reference_kind == table_reference_kind,
            r.join.joined_tables@[0].alias is Some,
            r.join.joined_tables@[0].alias->0@ == alias@,
            r.join.joined_tables@[0].join is None,
    {
        SqlFromBuilder { join: Join::build(table_reference_kind, alias) }
    }

    pub fn from_table_name(table_name: &str) -> (r: Self)
        ensures
            single_table(r, table_name@),
    {
        SqlFrom { join: Join::from_table_name(table_name) }
    }

    /// Renders `from` and the tables.
    pub fn into_sql(self) -> (r: Sql<DB>)
        ensures
            r@ == from_view::<DB>(self),
    {
        Sql::raw("from ").append(self.join.into_sql())
    }
}

impl<DB: Database> SqlFromBuilder<DB> {
    pub fn inner_join(self, table_reference: TableReferenceKind<DB>, alias: &str, on: WhereLike<DB>) -> (r: Self)
        ensures
            r.join.joined_tables@.len() == self.join.joined_tables@.len() + 1,
            r.join.joined_tables@.drop_last() == self.join.joined_tables@,
            joined_is(r.join.joined_tables@.last(), table_reference, alias@, JoinKind::Inner, on),
    {
        SqlFromBuilder { join: self.join.inner_join(table_reference, alias, on) }
    }

    pub fn left_join(self, table_reference: TableReferenceKind<DB>, alias: &str, on: WhereLike<DB>) -> (r: Self)
        ensures
            r.join.joined_tables@.len() == self.join.joined_tables@.len() + 1,
            r.join.joined_tables@.drop_last() == self.join.joined_tables@,
            joined_is(r.join.joined_tables@.last(), table_reference, alias@, JoinKind::Left, on),
    {
        SqlFromBuilder { join: self.join.left_join(table_reference, alias, on) }
    }

    pub fn right_join(self, table_reference: TableReferenceKind<DB>, alias: &str, on: WhereLike<DB>) -> (r: Self)
        ensures
            r.join.joined_tables@.len() == self.join.joined_tables@.len() + 1,
            r.join.joined_tables@.drop_last() == self.join.joined_tables@,
            joined_is(r.join.joined_tables@.last(), table_reference, alias@, JoinKind::Right, on),
    {
        SqlFromBuilder { join: self.join.right_join(table_reference, alias, on) }
    }

    pub fn finalize(self) -> (r: Result<SqlFrom<DB>, SyntaxError>)
        ensures
            r is Ok,
            r->Ok_0.join.joined_tables@ == self.join.joined_tables@,
    {
        match self.join.finalize() {
            Ok(join) => Ok(SqlFrom { join }),
            Err(e) => Err(e),
        }
    }
}

} // verus!
