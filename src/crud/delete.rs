use vstd::prelude::*;
use crate::clause::where_like::{WhereLike, pair_is, pushed};
use crate::dialect::Database;
use crate::error::SyntaxError;
use crate::expression::LogicalOp;
use crate::sql::FrozenSql;
use crate::statement::delete::{Delete, delete_view};
use crate::statement::select::{builder_ok, builder_predicates};
use crate::value::{IntoSqlValue, values_view};

verus! {

/// Deletes the rows that its WHERE clause selects.
#[derive(Debug)]
pub struct DeleteBuilder<DB: Database> {
    pub statement: crate::statement::delete::DeleteBuilder<DB>,
}

pub fn delete_rows<DB: Database>(table_name: &str) -> (r: DeleteBuilder<DB>)
    ensures
        r.statement.table_name@ == table_name@,
        r.statement.where_clause_builder is None,
{
    DeleteBuilder { statement: Delete::build(table_name) }
}

impl<DB: Database> DeleteBuilder<DB> {
    pub fn where_column_equal_to<V: IntoSqlValue<DB>>(self, name: &str, value: V) -> (r: Self)
        ensures
            r.statement.table_name == self.statement.table_name,
            pushed(
                builder_predicates(self.statement.where_clause_builder),
                builder_predicates(r.statement.where_clause_builder),
                LogicalOp::And,
            ),
            pair_is(builder_predicates(r.statement.where_clause_builder).last().1, None, name@, value.sql_value_view()),
    {
        DeleteBuilder { statement: self.statement.where_column_equal_to(name, value) }
    }

    pub fn with_where_clause(self, where_clause: WhereLike<DB>) -> (r: Self)
        ensures
            r.statement.table_name == self.statement.table_name,
            builder_predicates(r.statement.where_clause_builder) == builder_predicates(self.statement.where_clause_builder)
                + where_clause.predicates@,
    {
        DeleteBuilder { statement: self.statement.with_where_clause(where_clause) }
    }

    /// The statement that executing the operation runs.
    pub fn prepare(self) -> (r: Result<FrozenSql<DB>, SyntaxError>)
        ensures
            r is Ok <==> builder_ok(self.statement.where_clause_builder),
            r is Ok ==> exists|d: Delete<DB>| d.table_name == self.statement.table_name
                && (d.where_clause is Some <==> self.statement.where_clause_builder is Some)
                && (d.where_clause is Some ==> d.where_clause->0.predicates@ == self.statement.where_clause_builder->0.predicates@)
                && r->Ok_0.text@ == delete_view::<DB>(d).text && r->Ok_0.values is Some
                && values_view(r->Ok_0.values->0@) == delete_view::<DB>(d).values,
    {
        self.statement.finalize_and_freeze()
    }
}

} // verus!
