use vstd::prelude::*;
use vstd::string::*;
use crate::clause::where_like::{
    ColRef, Where, WhereLike, WhereLikeBuilder, col_is, opt_str_view, pair_is, pushed, render, where_view,
};
use crate::dialect::Database;
use crate::error::{SyntaxError, SyntaxErrorKind};
use crate::expression::{ColumnReference, LogicalOp, TableReference, identifier_view, then_raw};
use crate::sql::{FrozenSql, Sql, SqlView, cat, raw_view, value_view};
use crate::statement::select::{builder_ok, builder_predicates};
use crate::value::{IntoSqlValue, Value, ValueView, opt_view, values_view};

verus! {

/// A finalized UPDATE statement.
#[derive(Debug)]
pub struct Update<DB: Database> {
    pub table_name: String,
    pub set_pairs: Vec<(ColRef, Option<Value<DB>>)>,
    pub where_clause: Option<WhereLike<DB>>,
}

/// Builds an UPDATE statement; `HAS_UPDATES` records that a SET pair was given.
#[derive(Debug)]
pub struct UpdateBuilder<DB: Database, const HAS_UPDATES: bool> {
    pub table_name: String,
    pub set_pairs: Vec<(ColRef, Option<Value<DB>>)>,
    pub where_clause_builder: Option<WhereLikeBuilder<DB, true, false>>,
}

/// SET pair `p` appended to `acc`: `[table.]column=value`.
pub open spec fn set_pair_onto<DB: Database>(acc: SqlView, p: (ColRef, Option<Value<DB>>)) -> SqlView {
    let a = match p.0.table_name {
        Some(t) => then_raw::<DB>(cat::<DB>(acc, identifier_view::<DB>(t@)), "."@),
        None => acc,
    };
    cat::<DB>(then_raw::<DB>(cat::<DB>(a, identifier_view::<DB>(p.0.column_name@)), "="@), value_view::<DB>(opt_view(p.1)))
}

pub open spec fn set_pairs_view<DB: Database>(start: SqlView, ps: Seq<(ColRef, Option<Value<DB>>)>) -> SqlView
    decreases ps.len(),
{
    if ps.len() == 0 {
        start
    } else {
        let prev = set_pairs_view::<DB>(start, ps.drop_last());
        set_pair_onto::<DB>(if ps.len() > 1 { then_raw::<DB>(prev, ","@) } else { prev }, ps.last())
    }
}

/// `update <table> set <pairs>`, then ` where ...` when a WHERE clause is present.
pub open spec fn update_view<DB: Database>(u: Update<DB>) -> SqlView {
    let head = then_raw::<DB>(cat::<DB>(raw_view("update "@), identifier_view::<DB>(u.table_name@)), " set "@);
    let body = set_pairs_view::<DB>(head, u.set_pairs@);
    match u.where_clause {
        Some(w) => cat::<DB>(then_raw::<DB>(body, " "@), where_view::<DB>("where "@, w.predicates@)),
        None => body,
    }
}

/// SET pairs that name the same column and hold values with the same view.
pub open spec fn same_set_pairs<DB: Database>(a: Seq<(ColRef, Option<Value<DB>>)>, b: Seq<(ColRef, Option<Value<DB>>)>) -> bool {
    a.len() == b.len() && forall|i: int| 0 <= i < a.len() ==> (#[trigger] a[i]).0 == b[i].0 && opt_view(a[i].1) == opt_view(b[i].1)
}

pub proof fn lemma_same_set_pairs<DB: Database>(start: SqlView, a: Seq<(ColRef, Option<Value<DB>>)>, b: Seq<(ColRef, Option<Value<DB>>)>)
    requires
        same_set_pairs(a, b),
    ensures
        set_pairs_view::<DB>(start, a) == set_pairs_view::<DB>(start, b),
    decreases a.len(),
{
    if a.len() > 0 {
        assert(same_set_pairs(a.drop_last(), b.drop_last()));
        lemma_same_set_pairs(start, a.drop_last(), b.drop_last());
        assert(a[a.len() - 1].0 == b[b.len() - 1].0);
    }
}

impl<DB: Database> Clone for Update<DB> {
    /// A copy that renders the same.
    fn clone(&self) -> (r: Self)
        ensures
            update_view::<DB>(r) == update_view::<DB>(*self),
    {
        let mut set_pairs: Vec<(ColRef, Option<Value<DB>>)> = Vec::new();
        let mut i: usize = 0;
        while i < self.set_pairs.len()
            invariant
                i <= self.set_pairs@.len(),
                set_pairs@.len() == i,
                forall|k: int| 0 <= k < i ==> (#[trigger] set_pairs@[k]).0 == self.set_pairs@[k].0 && opt_view(set_pairs@[k].1) == opt_view(self.set_pairs@[k].1),
            decreases self.set_pairs@.len() - i,
        {
            let (c, v) = &self.set_pairs[i];
            set_pairs.push((c.clone(), crate::sql::clone_value(v)));
            i = i + 1;
        }
        let where_clause = match &self.where_clause {
            Some(w) => Some(w.clone()),
            None => None,
        };
        let r = Update { table_name: self.table_name.clone(), set_pairs, where_clause };
        proof {
            let head = then_raw::<DB>(cat::<DB>(raw_view("update "@), identifier_view::<DB>(self.table_name@)), " set "@);
            lemma_same_set_pairs::<DB>(head, r.set_pairs@, self.set_pairs@);
        }
        r
    }
}

fn append_set_pair<DB: Database>(acc: Sql<DB>, p: (ColRef, Option<Value<DB>>)) -> (r: Sql<DB>)
    ensures
        r@ == set_pair_onto::<DB>(acc@, p),
{
    let (c, v) = p;
    let ColRef { table_name, column_name } = c;
    let mut sql = acc;
    match table_name {
        Some(t) => {
            sql = sql.append(TableReference::<DB>::new(t.as_str()).into_sql()).raw_append(".");
        },
        None => {},
    }
    sql.append(ColumnReference::<DB>::new(column_name.as_str()).into_sql()).raw_append("=").append(Sql::from_value(v))
}

impl<DB: Database> Update<DB> {
    pub fn build(table_name: &str) -> (r: UpdateBuilder<DB, false>)
        ensures
            r.table_name@ == table_name@,
            r.set_pairs@.len() == 0,
            r.where_clause_builder is None,
    {
        UpdateBuilder { table_name: String::from_str(table_name), set_pairs: Vec::new(), where_clause_builder: None }
    }

    /// Renders the statement.
    pub fn into_sql(self) -> (r: Sql<DB>)
        ensures
            r@ == update_view::<DB>(self),
    {
        let ghost u = self;
        let Update { table_name, set_pairs, where_clause } = self;
        let mut sql = Sql::raw("update ").append(TableReference::<DB>::new(table_name.as_str()).into_sql()).raw_append(" set ");
        let ghost s0 = sql@;
        let ghost all = set_pairs@;
        let n = set_pairs.len();
        let mut rest = set_pairs;
        let mut i: usize = 0;
        assert(rest@ =~= all.skip(0));
        while rest.len() > 0
            invariant
                all.len() == n,
                i + rest@.len() == n,
                rest@ == all.skip(i as int),
                sql@ == set_pairs_view::<DB>(s0, all.take(i as int)),
            decreases rest@.len(),
        {
            let p = rest.remove(0);
            if i > 0 {
                sql = sql.raw_append(",");
            }
            sql = append_set_pair(sql, p);
            assert(all.take(i + 1).drop_last() =~= all.take(i as int));
            assert(all.skip(i as int)[0] == all[i as int]);
            assert(rest@ =~= all.skip(i + 1));
            i = i + 1;
        }
        assert(all.take(n as int) =~= all);
        match where_clause {
            Some(w) => sql.raw_append(" ").append(render(w, Some("where "))),
            None => sql,
        }
    }
}

/// The last SET pair assigns `value` to the unqualified column `name`.
pub open spec fn last_set_is<DB: Database>(ps: Seq<(ColRef, Option<Value<DB>>)>, name: Seq<char>, v: Option<ValueView>) -> bool {
    ps.len() > 0 && col_is(ps.last().0, None, name) && opt_view(ps.last().1) == v
}

impl<DB: Database, const HAS_UPDATES: bool> UpdateBuilder<DB, HAS_UPDATES> {
    pub fn update_column<V: IntoSqlValue<DB>>(self, name: &str, value: V) -> (r: UpdateBuilder<DB, true>)
        ensures
            r.table_name == self.table_name,
            r.where_clause_builder == self.where_clause_builder,
            r.set_pairs@.len() == self.set_pairs@.len() + 1,
            r.set_pairs@.drop_last() == self.set_pairs@,
            last_set_is(r.set_pairs@, name@, value.sql_value_view()),
    {
        let mut set_pairs = self.set_pairs;
        set_pairs.push((ColRef { table_name: None, column_name: String::from_str(name) }, value.into_sql_value()));
        assert(set_pairs@.drop_last() =~= self.set_pairs@);
        UpdateBuilder { table_name: self.table_name, set_pairs, where_clause_builder: self.where_clause_builder }
    }

    /// Adds `name = value` to the WHERE clause, joined by `and` to any predicate before.
    pub fn where_column_equal_to<V: IntoSqlValue<DB>>(self, name: &str, value: V) -> (r: Self)
        ensures
            r.table_name == self.table_name,
            r.set_pairs == self.set_pairs,
            r.where_clause_builder is Some,
            pushed(builder_predicates(self.where_clause_builder), builder_predicates(r.where_clause_builder), LogicalOp::And),
            pair_is(builder_predicates(r.where_clause_builder).last().1, None, name@, value.sql_value_view()),
    {
        let w = match self.where_clause_builder {
            Some(b) => b.and_column_equal_to(name, value),
            None => {
                let b = Where::build().column_equal_to(name, value);
                assert(b.predicates@.drop_last() =~= seq![]);
                b
            },
        };
        UpdateBuilder { table_name: self.table_name, set_pairs: self.set_pairs, where_clause_builder: Some(w) }
    }

    /// Adds the predicates of a finalized WHERE clause, after any given before.
    pub fn with_where_clause(self, clause: WhereLike<DB>) -> (r: Self)
        ensures
            r.table_name == self.table_name,
            r.set_pairs == self.set_pairs,
            r.where_clause_builder is Some,
            builder_predicates(r.where_clause_builder) == builder_predicates(self.where_clause_builder) + clause.predicates@,
    {
        let ghost added = clause.predicates@;
        let w = match self.where_clause_builder {
            Some(b) => b.merge_with_clause(clause),
            None => {
                let b = clause.into_builder();
                assert(seq![] + added =~= added);
                b
            },
        };
        UpdateBuilder { table_name: self.table_name, set_pairs: self.set_pairs, where_clause_builder: Some(w) }
    }
}

impl<DB: Database> UpdateBuilder<DB, true> {
    /// Finalizes the statement; it needs a SET pair, and a WHERE clause given must have
    /// predicates.
    pub fn finalize(self) -> (r: Result<Update<DB>, SyntaxError>)
        ensures
            r is Ok <==> (self.set_pairs@.len() > 0 && builder_ok(self.where_clause_builder)),
            r is Ok ==> r->Ok_0.table_name == self.table_name && r->Ok_0.set_pairs == self.set_pairs
                && (r->Ok_0.where_clause is Some <==> self.where_clause_builder is Some)
                && (r->Ok_0.where_clause is Some ==> r->Ok_0.where_clause->0.predicates@ == self.where_clause_builder->0.predicates@),
            r is Err && self.set_pairs@.len() == 0 ==> r->Err_0.kind == SyntaxErrorKind::MissingUpdatePredicates,
            r is Err && self.set_pairs@.len() > 0 ==> r->Err_0.kind == SyntaxErrorKind::MissingWherePredicates,
    {
        if self.set_pairs.len() == 0 {
            return Err(SyntaxError::new(SyntaxErrorKind::MissingUpdatePredicates, String::new()));
        }
        let where_clause = match self.where_clause_builder {
            Some(w) => match w.finalize() {
                Ok(c) => Some(c),
                Err(e) => {
                    return Err(e);
                },
            },
            None => None,
        };
        Ok(Update { table_name: self.table_name, set_pairs: self.set_pairs, where_clause })
    }

    pub fn finalize_and_freeze(self) -> (r: Result<FrozenSql<DB>, SyntaxError>)
        ensures
            r is Ok <==> (self.set_pairs@.len() > 0 && builder_ok(self.where_clause_builder)),
            r is Ok ==> exists|u: Update<DB>| u.table_name == self.table_name && u.set_pairs == self.set_pairs
                && (u.where_clause is Some <==> self.where_clause_builder is Some)
                && (u.where_clause is Some ==> u.where_clause->0.predicates@ == self.where_clause_builder->0.predicates@)
                && r->Ok_0.text@ == update_view::<DB>(u).text && r->Ok_0.values is Some
                && values_view(r->Ok_0.values->0@) == update_view::<DB>(u).values,
    {
        match self.finalize() {
            Ok(u) => {
                let ghost g = u;
                Ok(u.into_sql().freeze())
            },
            Err(e) => Err(e),
        }
    }
}

} // verus!
