use vstd::prelude::*;
use crate::dialect::Database;
use crate::error::SyntaxError;
use crate::sql::FrozenSql;
use crate::statement::insert::{Insert, insert_view, last_pair_is};
use crate::value::{IntoSqlValue, values_view};

verus! {

/// Inserts one row.
#[derive(Debug)]
pub struct InsertBuilder<DB: Database> {
    pub statement: crate::statement::insert::InsertBuilder<DB>,
}

pub fn insert_row<DB: Database>(table_name: &str) -> (r: InsertBuilder<DB>)
    ensures
        r.statement.table_name@ == table_name@,
        r.statement.pairs@.len() == 0,
{
    InsertBuilder { statement: Insert::build(table_name) }
}

impl<DB: Database> InsertBuilder<DB> {
    pub fn column<V: IntoSqlValue<DB>>(self, name: &str, value: V) -> (r: Self)
        ensures
            r.statement.table_name == self.statement.table_name,
            r.statement.pairs@.len() == self.statement.pairs@.len() + 1,
            r.statement.pairs@.drop_last() == self.statement.pairs@,
            last_pair_is(r.statement.pairs@, name@, value.sql_value_view()),
    {
        InsertBuilder { statement: self.statement.column(name, value) }
    }

    /// The statement that executing the operation runs.
    pub fn prepare(self) -> (r: Result<FrozenSql<DB>, SyntaxError>)
        ensures
            r is Ok,
            r->Ok_0.text@ == insert_view::<DB>(self.statement.table_name@, self.statement.pairs@).text,
            r->Ok_0.values is Some,
            values_view(r->Ok_0.values->0@) == insert_view::<DB>(self.statement.table_name@, self.statement.pairs@).values,
    {
        self.statement.finalize_and_freeze()
    }
}

} // verus!
