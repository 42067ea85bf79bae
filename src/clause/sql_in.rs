use vstd::prelude::*;
use crate::dialect::Database;
use crate::expression::{then_raw, wrapped};
use crate::sql::{Sql, SqlView, append_separated, clone_values, raw_view, sep_fold, sql_views, value_view};
use crate::statement::select::{Select, select_view};
use crate::value::{IntoSqlValue, Value, ValueView, opt_view, values_view};

verus! {

/// The right-hand side of `IN`: a list of values, or a subquery held as its rendered
/// fragment.
#[derive(Debug)]
pub enum InKind<DB: Database> {
    Values(Vec<Option<Value<DB>>>),
    Subquery(Sql<DB>),
}

/// An `IN` clause.
#[derive(Debug)]
pub struct In<DB: Database> {
    pub kind: InKind<DB>,
}

/// Builds the value list of an `IN` clause.
#[derive(Debug)]
pub struct InBuilder<DB: Database> {
    pub values: Vec<Option<Value<DB>>>,
}

/// The fragments of a list of values, one placeholder (or `null`) each.
pub open spec fn value_fragments<DB: Database>(vs: Seq<Option<ValueView>>) -> Seq<SqlView> {
    vs.map_values(|v: Option<ValueView>| value_view::<DB>(v))
}

/// The text that stands for an empty value list: a subquery that yields no row.
pub open spec fn empty_in_text() -> Seq<char> {
    "in (select null where 1 = 0)"@
}

/// The rendering of an `IN` clause. An empty value list never renders as `in ()`.
pub open spec fn in_view<DB: Database>(i: In<DB>) -> SqlView {
    match i.kind {
        InKind::Values(vs) => if vs@.len() == 0 {
            raw_view(empty_in_text())
        } else {
            then_raw::<DB>(sep_fold::<DB>(raw_view("in ("@), value_fragments::<DB>(values_view(vs@)), ","@), ")"@)
        },
        InKind::Subquery(q) => wrapped::<DB>("in ("@, q@, ")"@),
    }
}

impl<DB: Database> Clone for In<DB> {
    /// A copy that renders the same.
    fn clone(&self) -> (r: Self)
        ensures
            in_view::<DB>(r) == in_view::<DB>(*self),
    {
        match &self.kind {
            InKind::Values(vs) => {
                let c = clone_values(vs);
                assert(c@.len() == values_view(c@).len() && vs@.len() == values_view(vs@).len());
                In { kind: InKind::Values(c) }
            },
            InKind::Subquery(q) => In { kind: InKind::Subquery(q.clone()) },
        }
    }
}

impl<DB: Database> Clone for InBuilder<DB> {
    fn clone(&self) -> (r: Self)
        ensures
            values_view(r.values@) == values_view(self.values@),
    {
        InBuilder { values: clone_values(&self.values) }
    }
}

/// One fragment per value, in order.
pub fn values_to_fragments<DB: Database>(values: Vec<Option<Value<DB>>>) -> (r: Vec<Sql<DB>>)
    ensures
        sql_views(r@) == value_fragments::<DB>(values_view(values@)),
{
    let ghost all = values_view(values@);
    let n = values.len();
    let mut rest = values;
    let mut out: Vec<Sql<DB>> = Vec::new();
    let mut i: usize = 0;
    assert(values_view(rest@) =~= all.skip(0));
    while rest.len() > 0
        invariant
            all.len() == n,
            i + rest@.len() == n,
            values_view(rest@) == all.skip(i as int),
            sql_views(out@) == value_fragments::<DB>(all.take(i as int)),
        decreases rest@.len(),
    {
        let ghost before = rest@;
        let ghost before_out = out@;
        let v = rest.remove(0);
        assert(opt_view(v) == values_view(before)[0]);
        assert(values_view(rest@) =~= values_view(before).skip(1));
        let f = Sql::from_value(v);
        out.push(f);
        assert(all.skip(i as int)[0] == all[i as int]);
        assert(all.skip(i as int).skip(1) =~= all.skip(i + 1));
        assert(sql_views(out@) =~= sql_views(before_out).push(f@));
        assert(value_fragments::<DB>(all.take(i + 1)) =~= value_fragments::<DB>(all.take(i as int)).push(
            value_view::<DB>(all[i as int]),
        ));
        i = i + 1;
    }
    assert(all.take(n as int) =~= all);
    out
}

impl<DB: Database> In<DB> {
    pub fn build() -> (r: InBuilder<DB>)
        ensures
            r.values@.len() == 0,
    {
        InBuilder { values: Vec::new() }
    }

    /// `IN` over a subquery.
    pub fn from_select_statement(select_statement: Select<DB>) -> (r: Self)
        ensures
            r.kind is Subquery,
            r.kind->Subquery_0@ == select_view::<DB>(select_statement),
    {
        In { kind: InKind::Subquery(select_statement.into_sql()) }
    }

    /// `IN` over a list of values.
    pub fn from_values<V: IntoSqlValue<DB>>(values: Vec<V>) -> (r: Self)
        ensures
            r.kind is Values,
            values_view(r.kind->Values_0@) == values@.map_values(|v: V| v.sql_value_view()),
    {
        In { kind: InKind::Values(In::build().values(values).values) }
    }

    pub fn into_sql(self) -> (r: Sql<DB>)
        ensures
            r@ == in_view::<DB>(self),
    {
        match self.kind {
            InKind::Values(values) => {
                if values.len() == 0 {
                    Sql::raw("in (select null where 1 = 0)")
                } else {
                    let items = values_to_fragments(values);
                    append_separated(Sql::raw("in ("), items, ",").raw_append(")")
                }
            },
            InKind::Subquery(q) => Sql::raw("in (").append(q).raw_append(")"),
        }
    }
}

impl<DB: Database> InBuilder<DB> {
    pub fn value<V: IntoSqlValue<DB>>(self, value: V) -> (r: Self)
        ensures
            values_view(r.values@) == values_view(self.values@).push(value.sql_value_view()),
    {
        let mut values = self.values;
        let ghost before = values@;
        let v = value.into_sql_value();
        values.push(v);
        assert(values_view(values@) =~= values_view(before).push(opt_view(v)));
        InBuilder { values }
    }

    pub fn values<V: IntoSqlValue<DB>>(self, values: Vec<V>) -> (r: Self)
        ensures
            values_view(r.values@) == values_view(self.values@) + values@.map_values(|v: V| v.sql_value_view()),
    {
        let ghost all = values@.map_values(|v: V| v.sql_value_view());
        let ghost start = values_view(self.values@);
        let n = values.len();
        let mut rest = values;
        let mut b = self;
        let mut i: usize = 0;
        assert(rest@.map_values(|v: V| v.sql_value_view()) =~= all.skip(0));
        assert(start + all.take(0) =~= start);
        while rest.len() > 0
            invariant
                all.len() == n,
                i + rest@.len() == n,
                rest@.map_values(|v: V| v.sql_value_view()) == all.skip(i as int),
                values_view(b.values@) == start + all.take(i as int),
            decreases rest@.len(),
        {
            let ghost before = rest@;
            let v = rest.remove(0);
            assert(v.sql_value_view() == before.map_values(|v: V| v.sql_value_view())[0]);
            assert(rest@.map_values(|v: V| v.sql_value_view()) =~= before.map_values(|v: V| v.sql_value_view()).skip(1));
            b = b.value(v);
            assert(all.skip(i as int)[0] == all[i as int]);
            assert(all.skip(i as int).skip(1) =~= all.skip(i + 1));
            assert(start + all.take(i + 1) =~= (start + all.take(i as int)).push(all[i as int]));
            i = i + 1;
        }
        assert(all.take(n as int) =~= all);
        b
    }

    pub fn finalize(self) -> (r: In<DB>)
        ensures
            r.kind is Values,
            r.kind->Values_0@ == self.values@,
    {
        In { kind: InKind::Values(self.values) }
    }
}

} // verus!
