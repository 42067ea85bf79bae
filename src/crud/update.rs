use vstd::prelude::*;
use crate::clause::where_like::{WhereLike, pair_is, pushed};
use crate::dialect::Database;
use crate::error::SyntaxError;
use crate::expression::LogicalOp;
use crate::sql::FrozenSql;
use crate::statement::select::{builder_ok, builder_predicates};
use crate::statement::update::{Update, last_set_is, update_view};
use crate::value::{IntoSqlValue, values_view};

verus! {

/// Updates the rows that its WHERE clause selects.
#[derive(Debug)]
pub struct UpdateBuilder<DB: Database, const HAS_UPDATES: bool> {
    pub statement: crate::statement::update::UpdateBuilder<DB, HAS_UPDATES>,
}

pub fn update_rows<DB: Database>(table_name: &str) -> (r: UpdateBuilder<DB, false>)
    ensures
        r.statement.table_name@ == table_name@,
        r.statement.set_pairs@.len() == 0,
        r.statement.where_clause_builder is None,
{
    UpdateBuilder { statement: Update::build(table_name) }
}

impl<DB: Database, const HAS_UPDATES: bool> UpdateBuilder<DB, HAS_UPDATES> {
    pub fn update_column<V: IntoSqlValue<DB>>(self, name: &str, value: V) -> (r: UpdateBuilder<DB, true>)
        ensures
            r.statement.table_name == self.statement.table_name,
            r.statement.where_clause_builder == self.statement.where_clause_builder,
            r.statement.set_pairs@.len() == self.statement.set_pairs@.len() + 1,
            r.statement.set_pairs@.drop_last() == self.statement.set_pairs@,
            last_set_is(r.statement.set_pairs@, name@, value.sql_value_view()),
    {
        UpdateBuilder { statement: self.statement.update_column(name, value) }
    }

    pub fn where_column_equal_to<V: IntoSqlValue<DB>>(self, name: &str, value: V) -> (r: Self)
        ensures
            r.statement.table_name == self.statement.table_name,
            r.statement.set_pairs == self.statement.set_pairs,
            pushed(
                builder_predicates(self.statement.where_clause_builder),
                builder_predicates(r.statement.where_clause_builder),
                LogicalOp::And,
            ),
            pair_is(builder_predicates(r.statement.where_clause_builder).last().1, None, name@, value.sql_value_view()),
    {
        UpdateBuilder { statement: self.statement.where_column_equal_to(name, value) }
    }

    pub fn with_where_clause(self, where_clause: WhereLike<DB>) -> (r: Self)
        ensures
            r.statement.table_name == self.statement.table_name,
            r.statement.set_pairs == self.statement.set_pairs,
            builder_predicates(r.statement.where_clause_builder) == builder_predicates(self.statement.where_clause_builder)
                + where_clause.predicates@,
    {
        UpdateBuilder { statement: self.statement.with_where_clause(where_clause) }
    }
}

impl<DB: Database> UpdateBuilder<DB, true> {
    /// The statement that executing the operation runs.
    pub fn prepare(self) -> (r: Result<FrozenSql<DB>, SyntaxError>)
        ensures
            r is Ok <==> (self.statement.set_pairs@.len() > 0 && builder_ok(self.statement.where_clause_builder)),
            r is Ok ==> exists|u: Update<DB>| u.table_name == self.statement.table_name && u.set_pairs == self.statement.set_pairs
                && (u.where_clause is Some <==> self.statement.where_clause_builder is Some)
                && (u.where_clause is Some ==> u.where_clause->0.predicates@ == self.statement.where_clause_builder->0.predicates@)
                && r->Ok_0.text@ == update_view::<DB>(u).text && r->Ok_0.values is Some
                && values_view(r->Ok_0.values->0@) == update_view::<DB>(u).values,
    {
        self.statement.finalize_and_freeze()
    }
}

} // verus!
