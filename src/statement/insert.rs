use vstd::prelude::*;
use vstd::string::*;
use crate::clause::sql_in::values_to_fragments;
use crate::dialect::Database;
use crate::error::SyntaxError;
use crate::expression::{ColumnReference, TableReference, identifier_view, then_raw};
use crate::sql::{FrozenSql, Sql, SqlView, append_separated, cat, raw_view, sep_fold, sql_views, value_view};
use crate::value::{IntoSqlValue, Value, ValueView, opt_view, values_view};

verus! {

/// A finalized INSERT statement: the table and its `(column, value)` pairs, in order.
/// Repeated column names are kept as given.
#[derive(Debug)]
pub struct Insert<DB: Database> {
    pub table_name: String,
    pub pairs: Vec<(String, Option<Value<DB>>)>,
}

/// Builds an INSERT statement.
#[derive(Debug)]
pub struct InsertBuilder<DB: Database> {
    pub table_name: String,
    pub pairs: Vec<(String, Option<Value<DB>>)>,
}

pub open spec fn pair_names<DB: Database>(pairs: Seq<(String, Option<Value<DB>>)>) -> Seq<SqlView> {
    pairs.map_values(|p: (String, Option<Value<DB>>)| identifier_view::<DB>(p.0@))
}

pub open spec fn pair_values<DB: Database>(pairs: Seq<(String, Option<Value<DB>>)>) -> Seq<SqlView> {
    pairs.map_values(|p: (String, Option<Value<DB>>)| value_view::<DB>(opt_view(p.1)))
}

/// `insert into <table> (<columns>) values (<values>)`.
pub open spec fn insert_view<DB: Database>(table: Seq<char>, pairs: Seq<(String, Option<Value<DB>>)>) -> SqlView {
    let head = then_raw::<DB>(cat::<DB>(raw_view("insert into "@), identifier_view::<DB>(table)), " ("@);
    let names = sep_fold::<DB>(head, pair_names::<DB>(pairs), ","@);
    let values = sep_fold::<DB>(then_raw::<DB>(names, ") values ("@), pair_values::<DB>(pairs), ","@);
    then_raw::<DB>(values, ")"@)
}

/// The last pair is `(name, value)`.
pub open spec fn last_pair_is<DB: Database>(pairs: Seq<(String, Option<Value<DB>>)>, name: Seq<char>, v: Option<ValueView>) -> bool {
    pairs.len() > 0 && pairs.last().0@ == name && opt_view(pairs.last().1) == v
}

impl<DB: Database> Clone for Insert<DB> {
    /// A copy that renders the same.
    fn clone(&self) -> (r: Self)
        ensures
            r.table_name == self.table_name,
            insert_view::<DB>(r.table_name@, r.pairs@) == insert_view::<DB>(self.table_name@, self.pairs@),
    {
        let mut pairs: Vec<(String, Option<Value<DB>>)> = Vec::new();
        let mut i: usize = 0;
        while i < self.pairs.len()
            invariant
                i <= self.pairs@.len(),
                pairs@.len() == i,
                forall|k: int| 0 <= k < i ==> (#[trigger] pairs@[k]).0 == self.pairs@[k].0 && opt_view(pairs@[k].1) == opt_view(self.pairs@[k].1),
            decreases self.pairs@.len() - i,
        {
            let (name, value) = &self.pairs[i];
            pairs.push((name.clone(), crate::sql::clone_value(value)));
            i = i + 1;
        }
        assert(pair_names::<DB>(pairs@) =~= pair_names::<DB>(self.pairs@));
        assert(pair_values::<DB>(pairs@) =~= pair_values::<DB>(self.pairs@));
        Insert { table_name: self.table_name.clone(), pairs }
    }
}

impl<DB: Database> Insert<DB> {
    pub fn build(table_name: &str) -> (r: InsertBuilder<DB>)
        ensures
            r.table_name@ == table_name@,
            r.pairs@.len() == 0,
    {
        InsertBuilder { table_name: String::from_str(table_name), pairs: Vec::new() }
    }

    /// Renders the statement.
    pub fn into_sql(self) -> (r: Sql<DB>)
        ensures
            r@ == insert_view::<DB>(self.table_name@, self.pairs@),
    {
        let Insert { table_name, pairs } = self;
        let ghost all = pairs@;
        let mut names: Vec<Sql<DB>> = Vec::new();
        let mut values: Vec<Option<Value<DB>>> = Vec::new();
        let n = pairs.len();
        let mut rest = pairs;
        let mut i: usize = 0;
        assert(rest@ =~= all.skip(0));
        while rest.len() > 0
            invariant
                all.len() == n,
                i + rest@.len() == n,
                rest@ == all.skip(i as int),
                sql_views(names@) == pair_names::<DB>(all.take(i as int)),
                values_view(values@) == all.take(i as int).map_values(|p: (String, Option<Value<DB>>)| opt_view(p.1)),
            decreases rest@.len(),
        {
            let ghost before_names = names@;
            let ghost before_values = values@;
            let (name, value) = rest.remove(0);
            let f = ColumnReference::<DB>::new(name.as_str()).into_sql();
            names.push(f);
            values.push(value);
            assert(all.skip(i as int)[0] == all[i as int]);
            assert(rest@ =~= all.skip(i + 1));
            assert(all.take(i + 1) =~= all.take(i as int).push(all[i as int]));
            assert(sql_views(names@) =~= sql_views(before_names).push(f@));
            assert(pair_names::<DB>(all.take(i + 1)) =~= pair_names::<DB>(all.take(i as int)).push(identifier_view::<DB>(name@)));
            assert(values_view(values@) =~= values_view(before_values).push(opt_view(value)));
            assert(all.take(i + 1).map_values(|p: (String, Option<Value<DB>>)| opt_view(p.1)) =~= all.take(i as int).map_values(
                |p: (String, Option<Value<DB>>)| opt_view(p.1),
            ).push(opt_view(value)));
            i = i + 1;
        }
        assert(all.take(n as int) =~= all);
        let value_items = values_to_fragments(values);
        assert(crate::clause::sql_in::value_fragments::<DB>(values_view(values@)) =~= pair_values::<DB>(all));
        let head = Sql::raw("insert into ").append(TableReference::<DB>::new(table_name.as_str()).into_sql()).raw_append(" (");
        let sql = append_separated(head, names, ",").raw_append(") values (");
        append_separated(sql, value_items, ",").raw_append(")")
    }
}

impl<DB: Database> InsertBuilder<DB> {
    pub fn column<V: IntoSqlValue<DB>>(self, name: &str, value: V) -> (r: Self)
        ensures
            r.table_name == self.table_name,
            r.pairs@.len() == self.pairs@.len() + 1,
            r.pairs@.drop_last() == self.pairs@,
            last_pair_is(r.pairs@, name@, value.sql_value_view()),
    {
        let mut pairs = self.pairs;
        pairs.push((String::from_str(name), value.into_sql_value()));
        assert(pairs@.drop_last() =~= self.pairs@);
        InsertBuilder { table_name: self.table_name, pairs }
    }

    pub fn finalize(self) -> (r: Result<Insert<DB>, SyntaxError>)
        ensures
            r is Ok,
            r->Ok_0.table_name == self.table_name,
            r->Ok_0.pairs == self.pairs,
    {
        Ok(Insert { table_name: self.table_name, pairs: self.pairs })
    }

    pub fn finalize_and_freeze(self) -> (r: Result<FrozenSql<DB>, SyntaxError>)
        ensures
            r is Ok,
            r->Ok_0.text@ == insert_view::<DB>(self.table_name@, self.pairs@).text,
            r->Ok_0.values is Some,
            values_view(r->Ok_0.values->0@) == insert_view::<DB>(self.table_name@, self.pairs@).values,
    {
        let s = Insert { table_name: self.table_name, pairs: self.pairs };
        Ok(s.into_sql().freeze())
    }
}

} // verus!
