use vstd::prelude::*;
use vstd::string::*;
use crate::clause::where_like::{Where, WhereLike, WhereLikeBuilder, pair_is, pushed, render, where_view};
use crate::dialect::Database;
use crate::error::SyntaxError;
use crate::expression::{LogicalOp, TableReference, identifier_view, then_raw};
use crate::sql::{FrozenSql, Sql, SqlView, cat, raw_view};
use crate::statement::select::{builder_ok, builder_predicates};
use crate::value::{IntoSqlValue, values_view};

verus! {

/// A finalized DELETE statement.
#[derive(Debug)]
pub struct Delete<DB: Database> {
    pub table_name: String,
    pub where_clause: Option<WhereLike<DB>>,
}

/// Builds a DELETE statement.
#[derive(Debug)]
pub struct DeleteBuilder<DB: Database> {
    pub table_name: String,
    pub where_clause_builder: Option<WhereLikeBuilder<DB, true, false>>,
}

/// `delete from <table>`, then ` where ...` when a WHERE clause is present.
pub open spec fn delete_view<DB: Database>(d: Delete<DB>) -> SqlView {
    let head = cat::<DB>(raw_view("delete from "@), identifier_view::<DB>(d.table_name@));
    match d.where_clause {
        Some(w) => cat::<DB>(then_raw::<DB>(head, " "@), where_view::<DB>("where "@, w.predicates@)),
        None => head,
    }
}

impl<DB: Database> Clone for Delete<DB> {
    /// A copy that renders the same.
    fn clone(&self) -> (r: Self)
        ensures
            delete_view::<DB>(r) == delete_view::<DB>(*self),
    {
        let where_clause = match &self.where_clause {
            Some(w) => Some(w.clone()),
            None => None,
        };
        Delete { table_name: self.table_name.clone(), where_clause }
    }
}

impl<DB: Database> Delete<DB> {
    pub fn build(table_name: &str) -> (r: DeleteBuilder<DB>)
        ensures
            r.table_name@ == table_name@,
            r.where_clause_builder is None,
    {
        DeleteBuilder { table_name: String::from_str(table_name), where_clause_builder: None }
    }

    /// Renders the statement.
    pub fn into_sql(self) -> (r: Sql<DB>)
        ensures
            r@ == delete_view::<DB>(self),
    {
        let sql = Sql::raw("delete from ").append(TableReference::<DB>::new(self.table_name.as_str()).into_sql());
        match self.where_clause {
            Some(w) => sql.raw_append(" ").append(render(w, Some("where "))),
            None => sql,
        }
    }
}

impl<DB: Database> DeleteBuilder<DB> {
    /// Adds `name = value` to the WHERE clause, joined by `and` to any predicate before.
    pub fn where_column_equal_to<V: IntoSqlValue<DB>>(self, name: &str, value: V) -> (r: Self)
        ensures
            r.table_name == self.table_name,
            r.where_clause_builder is Some,
            pushed(builder_predicates(self.where_clause_builder), builder_predicates(r.where_clause_builder), LogicalOp::And),
            pair_is(builder_predicates(r.where_clause_builder).last().1, None, name@, value.sql_value_view()),
    {
        let w = match self.where_clause_builder {
            Some(b) => b.and_column_equal_to(name, value),
            None => {
                let b = Where::build().column_equal_to(name, value);
                assert(b.predicates@.drop_last() =~= seq![]);
                b
            },
        };
        DeleteBuilder { table_name: self.table_name, where_clause_builder: Some(w) }
    }

    /// Adds the predicates of a finalized WHERE clause, after any given before.
    pub fn with_where_clause(self, clause: WhereLike<DB>) -> (r: Self)
        ensures
            r.table_name == self.table_name,
            r.where_clause_builder is Some,
            builder_predicates(r.where_clause_builder) == builder_predicates(self.where_clause_builder) + clause.predicates@,
    {
        let ghost added = clause.predicates@;
        let w = match self.where_clause_builder {
            Some(b) => b.merge_with_clause(clause),
            None => {
                let b = clause.into_builder();
                assert(seq![] + added =~= added);
                b
            },
        };
        DeleteBuilder { table_name: self.table_name, where_clause_builder: Some(w) }
    }

    /// Finalizes the statement; a WHERE clause given must have predicates.
    pub fn finalize(self) -> (r: Result<Delete<DB>, SyntaxError>)
        ensures
            r is Ok <==> builder_ok(self.where_clause_builder),
            r is Ok ==> r->Ok_0.table_name == self.table_name
                && (r->Ok_0.where_clause is Some <==> self.where_clause_builder is Some)
                && (r->Ok_0.where_clause is Some ==> r->Ok_0.where_clause->0.predicates@ == self.where_clause_builder->0.predicates@),
    {
        let where_clause = match self.where_clause_builder {
            Some(w) => match w.finalize() {
                Ok(c) => Some(c),
                Err(e) => {
                    return Err(e);
                },
            },
            None => None,
        };
        Ok(Delete { table_name: self.table_name, where_clause })
    }

    pub fn finalize_and_freeze(self) -> (r: Result<FrozenSql<DB>, SyntaxError>)
        ensures
            r is Ok <==> builder_ok(self.where_clause_builder),
            r is Ok ==> exists|d: Delete<DB>| d.table_name == self.table_name
                && (d.where_clause is Some <==> self.where_clause_builder is Some)
                && (d.where_clause is Some ==> d.where_clause->0.predicates@ == self.where_clause_builder->0.predicates@)
                && r->Ok_0.text@ == delete_view::<DB>(d).text && r->Ok_0.values is Some
                && values_view(r->Ok_0.values->0@) == delete_view::<DB>(d).values,
    {
        match self.finalize() {
            Ok(d) => {
                let ghost g = d;
                Ok(d.into_sql().freeze())
            },
            Err(e) => Err(e),
        }
    }
}

} // verus!
