use vstd::prelude::*;
use vstd::string::*;
use crate::clause::group_by::{GroupBy, group_by_view};
use crate::clause::order_by::{OrderBy, order_by_view};
use crate::clause::order_by::column_entry as order_entry;
use crate::clause::group_by::column_entry as group_entry;
use crate::clause::sql_from::{SqlFrom, from_view, single_table};
use crate::clause::where_like::{
    ColRef, Having, WhereLikeKind, PredicateKind, Where, WhereLike, WhereLikeBuilder, col_is, colref_view, column_sql,
    opt_str_view, pair_is, pushed, render, where_view,
};
use crate::dialect::Database;
use crate::error::{SyntaxError, SyntaxErrorKind};
use crate::expression::{ColumnReference, LogicalOp, identifier_view, then_raw};
use crate::sql::{FrozenSql, Sql, SqlView, cat, raw_view};
use crate::value::IntoSqlValue;

verus! {

/// A selected column, with an optional alias.
#[derive(Debug)]
pub struct SelectedColumn {
    pub column: ColRef,
    pub alias: Option<String>,
}

/// A selected expression and its alias.
#[derive(Debug)]
pub struct SelectedExpression<DB: Database> {
    pub expr: Sql<DB>,
    pub alias: String,
}

/// One entry of the select list.
#[derive(Debug)]
pub enum SelectPredicateKind<DB: Database> {
    Column(SelectedColumn),
    Expression(SelectedExpression<DB>),
}

/// A finalized SELECT statement.
#[derive(Debug)]
pub struct Select<DB: Database> {
    pub from_clause: SqlFrom<DB>,
    pub select_columns: Vec<SelectPredicateKind<DB>>,
    pub where_clause: Option<WhereLike<DB>>,
    pub group_by_clause: Option<GroupBy<DB>>,
    pub having_clause: Option<WhereLike<DB>>,
    pub order_by_clause: Option<OrderBy<DB>>,
}

/// Builds a SELECT statement. The flags record which parts were given, and whether
/// columns are qualified by their tables (`HAS_JOIN`).
#[derive(Debug)]
pub struct SelectBuilder<
    DB: Database,
    const HAS_COLUMNS: bool,
    const HAS_GROUP_BY: bool,
    const HAS_HAVING: bool,
    const HAS_ORDER_BY: bool,
    const HAS_JOIN: bool,
> {
    pub from_clause: SqlFrom<DB>,
    pub select_columns: Vec<SelectPredicateKind<DB>>,
    pub where_clause_builder: Option<WhereLikeBuilder<DB, true, HAS_JOIN>>,
    pub group_by_clause: Option<Result<GroupBy<DB>, SyntaxError>>,
    pub having_clause_builder: Option<WhereLikeBuilder<DB, true, HAS_JOIN>>,
    pub order_by_clause: Option<Result<OrderBy<DB>, SyntaxError>>,
}

/// Entry `p` of the select list appended to `acc`.
pub open spec fn select_item_onto<DB: Database>(acc: SqlView, p: SelectPredicateKind<DB>) -> SqlView {
    match p {
        SelectPredicateKind::Column(c) => {
            let a = cat::<DB>(acc, colref_view::<DB>(c.column));
            match c.alias {
                Some(alias) => cat::<DB>(then_raw::<DB>(a, " as "@), identifier_view::<DB>(alias@)),
                None => a,
            }
        },
        SelectPredicateKind::Expression(e) => cat::<DB>(
            then_raw::<DB>(cat::<DB>(acc, e.expr@), " as "@),
            identifier_view::<DB>(e.alias@),
        ),
    }
}

pub open spec fn select_items_view<DB: Database>(start: SqlView, ps: Seq<SelectPredicateKind<DB>>) -> SqlView
    decreases ps.len(),
{
    if ps.len() == 0 {
        start
    } else {
        let prev = select_items_view::<DB>(start, ps.drop_last());
        select_item_onto::<DB>(if ps.len() > 1 { then_raw::<DB>(prev, ", "@) } else { prev }, ps.last())
    }
}

/// The rendering of a SELECT: select list, FROM, then WHERE, GROUP BY, HAVING and
/// ORDER BY in that order, each present clause after one space.
pub open spec fn select_view<DB: Database>(s: Select<DB>) -> SqlView {
    let a = select_items_view::<DB>(raw_view("select "@), s.select_columns@);
    let b = cat::<DB>(then_raw::<DB>(a, " "@), from_view::<DB>(s.from_clause));
    let c = match s.where_clause {
        Some(w) => cat::<DB>(then_raw::<DB>(b, " "@), where_view::<DB>("where "@, w.predicates@)),
        None => b,
    };
    let d = match s.group_by_clause {
        Some(g) => cat::<DB>(then_raw::<DB>(c, " "@), group_by_view::<DB>(g.predicates@)),
        None => c,
    };
    let e = match s.having_clause {
        Some(h) => cat::<DB>(then_raw::<DB>(d, " "@), where_view::<DB>("having "@, h.predicates@)),
        None => d,
    };
    match s.order_by_clause {
        Some(o) => cat::<DB>(then_raw::<DB>(e, " "@), order_by_view::<DB>(o.predicates@, o.limit_and_offset)),
        None => e,
    }
}

/// Entry `p` is a column (qualified by `table` in join mode) with the given alias.
pub open spec fn column_item_is<DB: Database>(
    p: SelectPredicateKind<DB>,
    table: Option<Seq<char>>,
    column: Seq<char>,
    alias: Option<Seq<char>>,
) -> bool {
    p is Column && col_is(p->Column_0.column, table, column) && opt_str_view(p->Column_0.alias) == alias
}

pub open spec fn expression_item_is<DB: Database>(p: SelectPredicateKind<DB>, e: SqlView, alias: Seq<char>) -> bool {
    p is Expression && p->Expression_0.expr@ == e && p->Expression_0.alias@ == alias
}

/// The predicates of an optional clause builder (none when absent).
pub open spec fn builder_predicates<DB: Database, const J: bool>(b: Option<WhereLikeBuilder<DB, true, J>>) -> Seq<
    (LogicalOp, PredicateKind<DB>),
> {
    match b {
        Some(w) => w.predicates@,
        None => seq![],
    }
}

/// An optional clause builder finalizes without error.
pub open spec fn builder_ok<DB: Database, const J: bool>(b: Option<WhereLikeBuilder<DB, true, J>>) -> bool {
    match b {
        Some(w) => w.predicates@.len() > 0,
        None => true,
    }
}

pub open spec fn clause_ok<T>(c: Option<Result<T, SyntaxError>>) -> bool {
    match c {
        Some(r) => r is Ok,
        None => true,
    }
}

/// A SELECT builder can be finalized: it has a column, and no clause it holds is
/// missing its entries.
pub open spec fn select_ok<DB: Database, const C: bool, const G: bool, const H: bool, const O: bool, const J: bool>(
    b: SelectBuilder<DB, C, G, H, O, J>,
) -> bool {
    &&& b.select_columns@.len() > 0
    &&& builder_ok(b.where_clause_builder)
    &&& clause_ok(b.group_by_clause)
    &&& builder_ok(b.having_clause_builder)
    &&& clause_ok(b.order_by_clause)
}

/// The kind of the first structural error that finalizing reports.
pub open spec fn select_error_kind<DB: Database, const C: bool, const G: bool, const H: bool, const O: bool, const J: bool>(
    b: SelectBuilder<DB, C, G, H, O, J>,
) -> SyntaxErrorKind {
    if b.select_columns@.len() == 0 {
        SyntaxErrorKind::MissingSelectPredicates
    } else if !builder_ok(b.where_clause_builder) {
        SyntaxErrorKind::MissingWherePredicates
    } else if !clause_ok(b.group_by_clause) {
        b.group_by_clause->0->Err_0.kind
    } else if !builder_ok(b.having_clause_builder) {
        SyntaxErrorKind::MissingWherePredicates
    } else {
        b.order_by_clause->0->Err_0.kind
    }
}

/// `s` is what `b` finalizes to.
pub open spec fn finalized<DB: Database, const C: bool, const G: bool, const H: bool, const O: bool, const J: bool>(
    s: Select<DB>,
    b: SelectBuilder<DB, C, G, H, O, J>,
) -> bool {
    &&& s.from_clause == b.from_clause
    &&& s.select_columns == b.select_columns
    &&& (s.where_clause is Some <==> b.where_clause_builder is Some)
    &&& (s.where_clause is Some ==> s.where_clause->0.predicates@ == b.where_clause_builder->0.predicates@)
    &&& (s.group_by_clause is Some <==> b.group_by_clause is Some)
    &&& (s.group_by_clause is Some ==> Some(s.group_by_clause->0) == match b.group_by_clause {
        Some(Ok(g)) => Some(g),
        _ => None,
    })
    &&& (s.having_clause is Some <==> b.having_clause_builder is Some)
    &&& (s.having_clause is Some ==> s.having_clause->0.predicates@ == b.having_clause_builder->0.predicates@)
    &&& (s.order_by_clause is Some <==> b.order_by_clause is Some)
    &&& (s.order_by_clause is Some ==> Some(s.order_by_clause->0) == match b.order_by_clause {
        Some(Ok(o)) => Some(o),
        _ => None,
    })
}

impl Clone for SelectedColumn {
    fn clone(&self) -> (r: Self)
        ensures
            r == *self,
    {
        let alias = match &self.alias {
            Some(a) => Some(a.clone()),
            None => None,
        };
        SelectedColumn { column: self.column.clone(), alias }
    }
}

impl<DB: Database> Clone for SelectedExpression<DB> {
    fn clone(&self) -> (r: Self)
        ensures
            r.expr@ == self.expr@,
            r.alias == self.alias,
    {
        SelectedExpression { expr: self.expr.clone(), alias: self.alias.clone() }
    }
}

/// Entries `p` and `q` render the same after any fragment.
pub open spec fn same_select_item<DB: Database>(p: SelectPredicateKind<DB>, q: SelectPredicateKind<DB>) -> bool {
    forall|acc: SqlView| #[trigger] select_item_onto::<DB>(acc, p) == select_item_onto::<DB>(acc, q)
}

pub open spec fn same_select_items<DB: Database>(a: Seq<SelectPredicateKind<DB>>, b: Seq<SelectPredicateKind<DB>>) -> bool {
    a.len() == b.len() && forall|i: int| 0 <= i < a.len() ==> same_select_item(#[trigger] a[i], b[i])
}

pub proof fn lemma_same_select_items<DB: Database>(start: SqlView, a: Seq<SelectPredicateKind<DB>>, b: Seq<SelectPredicateKind<DB>>)
    requires
        same_select_items(a, b),
    ensures
        select_items_view::<DB>(start, a) == select_items_view::<DB>(start, b),
    decreases a.len(),
{
    if a.len() > 0 {
        assert(same_select_items(a.drop_last(), b.drop_last()));
        lemma_same_select_items(start, a.drop_last(), b.drop_last());
        assert(same_select_item(a[a.len() - 1], b[b.len() - 1]));
    }
}

impl<DB: Database> Clone for SelectPredicateKind<DB> {
    fn clone(&self) -> (r: Self)
        ensures
            same_select_item(r, *self),
    {
        match self {
            SelectPredicateKind::Column(c) => SelectPredicateKind::Column(c.clone()),
            SelectPredicateKind::Expression(e) => SelectPredicateKind::Expression(e.clone()),
        }
    }
}

impl<DB: Database> Clone for Select<DB> {
    /// A copy that renders the same.
    fn clone(&self) -> (r: Self)
        ensures
            select_view::<DB>(r) == select_view::<DB>(*self),
    {
        let mut cols: Vec<SelectPredicateKind<DB>> = Vec::new();
        let mut i: usize = 0;
        while i < self.select_columns.len()
            invariant
                i <= self.select_columns@.len(),
                cols@.len() == i,
                forall|k: int| 0 <= k < i ==> same_select_item(#[trigger] cols@[k], self.select_columns@[k]),
            decreases self.select_columns@.len() - i,
        {
            cols.push(self.select_columns[i].clone());
            i = i + 1;
        }
        proof {
            lemma_same_select_items::<DB>(raw_view("select "@), cols@, self.select_columns@);
        }
        let where_clause = match &self.where_clause {
            Some(w) => Some(w.clone()),
            None => None,
        };
        let group_by_clause = match &self.group_by_clause {
            Some(g) => Some(g.clone()),
            None => None,
        };
        let having_clause = match &self.having_clause {
            Some(h) => Some(h.clone()),
            None => None,
        };
        let order_by_clause = match &self.order_by_clause {
            Some(o) => Some(o.clone()),
            None => None,
        };
        Select {
            from_clause: self.from_clause.clone(),
            select_columns: cols,
            where_clause,
            group_by_clause,
            having_clause,
            order_by_clause,
        }
    }
}

fn append_select_item<DB: Database>(acc: Sql<DB>, p: SelectPredicateKind<DB>) -> (r: Sql<DB>)
    ensures
        r@ == select_item_onto::<DB>(acc@, p),
{
    match p {
        SelectPredicateKind::Column(c) => {
            let SelectedColumn { column, alias } = c;
            let sql = acc.append(column_sql(column));
            match alias {
                Some(a) => sql.raw_append(" as ").append(ColumnReference::<DB>::new(a.as_str()).into_sql()),
                None => sql,
            }
        },
        SelectPredicateKind::Expression(e) => {
            let SelectedExpression { expr, alias } = e;
            acc.append(expr).raw_append(" as ").append(ColumnReference::<DB>::new(alias.as_str()).into_sql())
        },
    }
}

fn finalize_clause<DB: Database, const J: bool>(b: Option<WhereLikeBuilder<DB, true, J>>) -> (r: Result<Option<WhereLike<DB>>, SyntaxError>)
    ensures
        r is Ok <==> builder_ok(b),
        r is Ok ==> (r->Ok_0 is Some <==> b is Some),
        r is Ok && b is Some ==> r->Ok_0->0.predicates@ == b->0.predicates@,
        r is Err ==> r->Err_0.kind == SyntaxErrorKind::MissingWherePredicates,
{
    match b {
        Some(w) => match w.finalize() {
            Ok(c) => Ok(Some(c)),
            Err(e) => Err(e),
        },
        None => Ok(None),
    }
}

fn transpose<T>(c: Option<Result<T, SyntaxError>>) -> (r: Result<Option<T>, SyntaxError>)
    ensures
        r is Ok <==> clause_ok(c),
        r is Ok ==> r->Ok_0 == match c {
            Some(Ok(t)) => Some(t),
            _ => None,
        },
        r is Err ==> Some(Err::<T, SyntaxError>(r->Err_0)) == c,
{
    match c {
        Some(Ok(t)) => Ok(Some(t)),
        Some(Err(e)) => Err(e),
        None => Ok(None),
    }
}

impl<DB: Database> Select<DB> {
    pub fn build(table_name: &str) -> (r: SelectBuilder<DB, false, false, false, false, false>)
        ensures
            single_table(r.from_clause, table_name@),
            r.select_columns@.len() == 0,
            r.where_clause_builder is None,
            r.group_by_clause is None,
            r.having_clause_builder is None,
            r.order_by_clause is None,
    {
        SelectBuilder {
            from_clause: SqlFrom::from_table_name(table_name),
            select_columns: Vec::new(),
            where_clause_builder: None,
            group_by_clause: None,
            having_clause_builder: None,
            order_by_clause: None,
        }
    }
}

impl<DB: Database> Select<DB> {
    pub fn build_with_join(from_clause: SqlFrom<DB>) -> (r: SelectBuilder<DB, false, false, false, false, true>)
        ensures
            r.from_clause == from_clause,
            r.select_columns@.len() == 0,
            r.where_clause_builder is None,
            r.group_by_clause is None,
            r.having_clause_builder is None,
            r.order_by_clause is None,
    {
        SelectBuilder {
            from_clause,
            select_columns: Vec::new(),
            where_clause_builder: None,
            group_by_clause: None,
            having_clause_builder: None,
            order_by_clause: None,
        }
    }

    /// Renders the statement.
    pub fn into_sql(self) -> (r: Sql<DB>)
        ensures
            r@ == select_view::<DB>(self),
    {
        let ghost s = self;
        let Select { from_clause, select_columns, where_clause, group_by_clause, having_clause, order_by_clause } = self;
        let ghost all = select_columns@;
        let ghost s0 = raw_view("select "@);
        let n = select_columns.len();
        let mut rest = select_columns;
        let mut sql = Sql::raw("select ");
        let mut i: usize = 0;
        assert(rest@ =~= all.skip(0));
        while rest.len() > 0
            invariant
                all.len() == n,
                i + rest@.len() == n,
                rest@ == all.skip(i as int),
                sql@ == select_items_view::<DB>(s0, all.take(i as int)),
            decreases rest@.len(),
        {
            let p = rest.remove(0);
            if i > 0 {
                sql = sql.raw_append(", ");
            }
            sql = append_select_item(sql, p);
            assert(all.take(i + 1).drop_last() =~= all.take(i as int));
            assert(all.skip(i as int)[0] == all[i as int]);
            assert(rest@ =~= all.skip(i + 1));
            i = i + 1;
        }
        assert(all.take(n as int) =~= all);
        sql = sql.raw_append(" ").append(from_clause.into_sql());
        match where_clause {
            Some(w) => {
                sql = sql.raw_append(" ").append(render(w, Some("where ")));
            },
            None => {},
        }
        match group_by_clause {
            Some(g) => {
                sql = sql.raw_append(" ").append(g.into_sql());
            },
            None => {},
        }
        match having_clause {
            Some(h) => {
                sql = sql.raw_append(" ").append(render(h, Some("having ")));
            },
            None => {},
        }
        match order_by_clause {
            Some(o) => {
                sql = sql.raw_append(" ").append(o.into_sql());
            },
            None => {},
        }
        sql
    }
}
impl<DB: Database, const C: bool, const G: bool, const H: bool, const O: bool, const J: bool> SelectBuilder<DB, C, G, H, O, J> {
    /// Adds an expression, with its alias, to the select list.
    pub fn select_expression(self, expr: Sql<DB>, alias: &str) -> (r: SelectBuilder<DB, true, G, H, O, J>)
        ensures
            r.select_columns@.len() == self.select_columns@.len() + 1,
            r.select_columns@.drop_last() == self.select_columns@,
            expression_item_is(r.select_columns@.last(), expr@, alias@),
            r.from_clause == self.from_clause,
            r.where_clause_builder == self.where_clause_builder,
            r.group_by_clause == self.group_by_clause,
            r.having_clause_builder == self.having_clause_builder,
            r.order_by_clause == self.order_by_clause,
    {
        let mut cols = self.select_columns;
        cols.push(SelectPredicateKind::Expression(SelectedExpression { expr, alias: String::from_str(alias) }));
        assert(cols@.drop_last() =~= self.select_columns@);
        SelectBuilder {
            from_clause: self.from_clause,
            select_columns: cols,
            where_clause_builder: self.where_clause_builder,
            group_by_clause: self.group_by_clause,
            having_clause_builder: self.having_clause_builder,
            order_by_clause: self.order_by_clause,
        }
    }

    /// Adds the predicates of a finalized WHERE clause, after any given before.
    pub fn with_where_clause(self, clause: WhereLike<DB>) -> (r: Self)
        ensures
            r.where_clause_builder is Some,
            builder_predicates(r.where_clause_builder) == builder_predicates(self.where_clause_builder) + clause.predicates@,
            r.from_clause == self.from_clause,
            r.select_columns == self.select_columns,
            r.group_by_clause == self.group_by_clause,
            r.having_clause_builder == self.having_clause_builder,
            r.order_by_clause == self.order_by_clause,
    {
        let ghost added = clause.predicates@;
        let w = match self.where_clause_builder {
            Some(b) => b.merge_with_clause(clause),
            None => {
                let b = clause.into_builder();
                assert(seq![] + added =~= added);
                b
            },
        };
        SelectBuilder {
            from_clause: self.from_clause,
            select_columns: self.select_columns,
            where_clause_builder: Some(w),
            group_by_clause: self.group_by_clause,
            having_clause_builder: self.having_clause_builder,
            order_by_clause: self.order_by_clause,
        }
    }
}

impl<DB: Database, const C: bool, const O: bool, const J: bool> SelectBuilder<DB, C, true, false, O, J> {
    /// Adds the predicates of a finalized HAVING clause; it needs a GROUP BY.
    pub fn with_having_clause(self, clause: WhereLike<DB>) -> (r: SelectBuilder<DB, C, true, true, O, J>)
        ensures
            r.having_clause_builder is Some,
            builder_predicates(r.having_clause_builder) == builder_predicates(self.having_clause_builder) + clause.predicates@,
            r.from_clause == self.from_clause,
            r.select_columns == self.select_columns,
            r.where_clause_builder == self.where_clause_builder,
            r.group_by_clause == self.group_by_clause,
            r.order_by_clause == self.order_by_clause,
    {
        let ghost added = clause.predicates@;
        let h = match self.having_clause_builder {
            Some(b) => b.merge_with_clause(clause),
            None => {
                let b = clause.into_builder();
                assert(seq![] + added =~= added);
                b
            },
        };
        SelectBuilder {
            from_clause: self.from_clause,
            select_columns: self.select_columns,
            where_clause_builder: self.where_clause_builder,
            group_by_clause: self.group_by_clause,
            having_clause_builder: Some(h),
            order_by_clause: self.order_by_clause,
        }
    }
}
impl<DB: Database, const C: bool, const O: bool> SelectBuilder<DB, C, true, false, O, false> {
    /// Builds HAVING predicates with a closure, after any given before.
    pub fn having_clause<F: FnOnce(WhereLikeBuilder<DB, false, false>) -> WhereLikeBuilder<DB, true, false>>(self, build: F) -> (r: Self)
        requires
            forall|b: WhereLikeBuilder<DB, false, false>| build.requires((b,)),
        ensures
            r.having_clause_builder is Some,
            exists|b: WhereLikeBuilder<DB, false, false>, c: WhereLikeBuilder<DB, true, false>|
                b.kind == WhereLikeKind::Having && b.predicates@.len() == 0 && build.ensures((b,), c)
                && builder_predicates(r.having_clause_builder) == builder_predicates(self.having_clause_builder) + c.predicates@,
            r.from_clause == self.from_clause,
            r.select_columns == self.select_columns,
            r.where_clause_builder == self.where_clause_builder,
            r.group_by_clause == self.group_by_clause,
            r.order_by_clause == self.order_by_clause,
    {
        let fresh = Having::build();
        let ghost b0 = fresh;
        let clause = build(fresh);
        let ghost added = clause.predicates@;
        let ghost c0 = clause;
        let h = match self.having_clause_builder {
            Some(b) => b.merge_with_builder(clause),
            None => {
                assert(seq![] + added =~= added);
                clause
            },
        };
        SelectBuilder {
            from_clause: self.from_clause,
            select_columns: self.select_columns,
            where_clause_builder: self.where_clause_builder,
            group_by_clause: self.group_by_clause,
            having_clause_builder: Some(h),
            order_by_clause: self.order_by_clause,
        }
    }
}
impl<DB: Database, const C: bool, const O: bool> SelectBuilder<DB, C, true, false, O, true> {
    /// Builds HAVING predicates with a closure, after any given before.
    pub fn having_clause<F: FnOnce(WhereLikeBuilder<DB, false, true>) -> WhereLikeBuilder<DB, true, true>>(self, build: F) -> (r: Self)
        requires
            forall|b: WhereLikeBuilder<DB, false, true>| build.requires((b,)),
        ensures
            r.having_clause_builder is Some,
            exists|b: WhereLikeBuilder<DB, false, true>, c: WhereLikeBuilder<DB, true, true>|
                b.kind == WhereLikeKind::Having && b.predicates@.len() == 0 && build.ensures((b,), c)
                && builder_predicates(r.having_clause_builder) == builder_predicates(self.having_clause_builder) + c.predicates@,
            r.from_clause == self.from_clause,
            r.select_columns == self.select_columns,
            r.where_clause_builder == self.where_clause_builder,
            r.group_by_clause == self.group_by_clause,
            r.order_by_clause == self.order_by_clause,
    {
        let fresh = Having::build_with_join();
        let ghost b0 = fresh;
        let clause = build(fresh);
        let ghost added = clause.predicates@;
        let ghost c0 = clause;
        let h = match self.having_clause_builder {
            Some(b) => b.merge_with_builder(clause),
            None => {
                assert(seq![] + added =~= added);
                clause
            },
        };
        SelectBuilder {
            from_clause: self.from_clause,
            select_columns: self.select_columns,
            where_clause_builder: self.where_clause_builder,
            group_by_clause: self.group_by_clause,
            having_clause_builder: Some(h),
            order_by_clause: self.order_by_clause,
        }
    }
}
impl<DB: Database, const C: bool, const G: bool, const H: bool, const O: bool> SelectBuilder<DB, C, G, H, O, false> {
    fn push_column(self, table: Option<&str>, column: &str, alias: Option<&str>) -> (r: SelectBuilder<DB, true, G, H, O, false>)
        ensures
            r.select_columns@.len() == self.select_columns@.len() + 1,
            r.select_columns@.drop_last() == self.select_columns@,
            column_item_is(r.select_columns@.last(), crate::clause::where_like::opt_seq(table), column@, crate::clause::where_like::opt_seq(alias)),
            r.from_clause == self.from_clause,
            r.where_clause_builder == self.where_clause_builder,
            r.group_by_clause == self.group_by_clause,
            r.having_clause_builder == self.having_clause_builder,
            r.order_by_clause == self.order_by_clause,
    {
        let mut cols = self.select_columns;
        let table_name = match table {
            Some(t) => Some(String::from_str(t)),
            None => None,
        };
        let alias_name = match alias {
            Some(a) => Some(String::from_str(a)),
            None => None,
        };
        cols.push(SelectPredicateKind::Column(SelectedColumn { column: ColRef { table_name, column_name: String::from_str(column) }, alias: alias_name }));
        assert(cols@.drop_last() =~= self.select_columns@);
        SelectBuilder {
            from_clause: self.from_clause,
            select_columns: cols,
            where_clause_builder: self.where_clause_builder,
            group_by_clause: self.group_by_clause,
            having_clause_builder: self.having_clause_builder,
            order_by_clause: self.order_by_clause,
        }
    }

    pub fn select_column(self, name: &str) -> (r: SelectBuilder<DB, true, G, H, O, false>)
        ensures
            r.select_columns@.len() == self.select_columns@.len() + 1,
            r.select_columns@.drop_last() == self.select_columns@,
            column_item_is(r.select_columns@.last(), None::<Seq<char>>, name@, None),
            r.from_clause == self.from_clause,
            r.where_clause_builder == self.where_clause_builder,
            r.group_by_clause == self.group_by_clause,
            r.having_clause_builder == self.having_clause_builder,
            r.order_by_clause == self.order_by_clause,
    {
        self.push_column(None, name, None)
    }

    pub fn select_column_with_alias(self, name: &str, alias: &str) -> (r: SelectBuilder<DB, true, G, H, O, false>)
        ensures
            r.select_columns@.len() == self.select_columns@.len() + 1,
            r.select_columns@.drop_last() == self.select_columns@,
            column_item_is(r.select_columns@.last(), None::<Seq<char>>, name@, Some(alias@)),
            r.from_clause == self.from_clause,
            r.where_clause_builder == self.where_clause_builder,
            r.group_by_clause == self.group_by_clause,
            r.having_clause_builder == self.having_clause_builder,
            r.order_by_clause == self.order_by_clause,
    {
        self.push_column(None, name, Some(alias))
    }
    pub fn select_columns(self, names: Vec<&str>) -> (r: SelectBuilder<DB, true, G, H, O, false>)
        ensures
            r.select_columns@.len() == self.select_columns@.len() + names@.len(),
            r.select_columns@.take(self.select_columns@.len() as int) == self.select_columns@,
            forall|i: int| 0 <= i < names@.len() ==> column_item_is(#[trigger] r.select_columns@[self.select_columns@.len() + i], None::<Seq<char>>, names@[i]@, None),
            r.from_clause == self.from_clause,
            r.where_clause_builder == self.where_clause_builder,
            r.group_by_clause == self.group_by_clause,
            r.having_clause_builder == self.having_clause_builder,
            r.order_by_clause == self.order_by_clause,
    {
        let ghost start = self.select_columns@;
        let ghost old_self = self;
        let mut b: SelectBuilder<DB, true, G, H, O, false> = SelectBuilder {
            from_clause: self.from_clause,
            select_columns: self.select_columns,
            where_clause_builder: self.where_clause_builder,
            group_by_clause: self.group_by_clause,
            having_clause_builder: self.having_clause_builder,
            order_by_clause: self.order_by_clause,
        };
        let mut i: usize = 0;
        assert(b.select_columns@.take(start.len() as int) =~= start);
        while i < names.len()
            invariant
                i <= names@.len(),
                b.select_columns@.len() == start.len() + i,
                b.select_columns@.take(start.len() as int) == start,
                forall|k: int| 0 <= k < i ==> column_item_is(#[trigger] b.select_columns@[start.len() + k], None::<Seq<char>>, names@[k]@, None),
                b.from_clause == old_self.from_clause,
                b.where_clause_builder == old_self.where_clause_builder,
                b.group_by_clause == old_self.group_by_clause,
                b.having_clause_builder == old_self.having_clause_builder,
                b.order_by_clause == old_self.order_by_clause,
            decreases names@.len() - i,
        {
            let ghost prev = b.select_columns@;
            let c = names[i];
            let nb = b.select_column(c);
            assert(nb.select_columns@.take(start.len() as int) =~= start) by {
                assert(nb.select_columns@.drop_last() == prev);
                assert(nb.select_columns@.take(start.len() as int) =~= prev.take(start.len() as int));
            }
            assert forall|k: int| 0 <= k < i + 1 implies column_item_is(#[trigger] nb.select_columns@[start.len() + k], None::<Seq<char>>, names@[k]@, None) by {
                if k < i {
                    assert(nb.select_columns@[start.len() + k] == prev[start.len() + k]);
                }
            }
            b = SelectBuilder {
                from_clause: nb.from_clause,
                select_columns: nb.select_columns,
                where_clause_builder: nb.where_clause_builder,
                group_by_clause: nb.group_by_clause,
                having_clause_builder: nb.having_clause_builder,
                order_by_clause: nb.order_by_clause,
            };
            i = i + 1;
        }
        SelectBuilder {
            from_clause: b.from_clause,
            select_columns: b.select_columns,
            where_clause_builder: b.where_clause_builder,
            group_by_clause: b.group_by_clause,
            having_clause_builder: b.having_clause_builder,
            order_by_clause: b.order_by_clause,
        }
    }
    pub fn select_columns_with_alias(self, names: Vec<(&str, &str)>) -> (r: SelectBuilder<DB, true, G, H, O, false>)
        ensures
            r.select_columns@.len() == self.select_columns@.len() + names@.len(),
            r.select_columns@.take(self.select_columns@.len() as int) == self.select_columns@,
            forall|i: int| 0 <= i < names@.len() ==> column_item_is(#[trigger] r.select_columns@[self.select_columns@.len() + i], None::<Seq<char>>, names@[i].0@, Some(names@[i].1@)),
            r.from_clause == self.from_clause,
            r.where_clause_builder == self.where_clause_builder,
            r.group_by_clause == self.group_by_clause,
            r.having_clause_builder == self.having_clause_builder,
            r.order_by_clause == self.order_by_clause,
    {
        let ghost start = self.select_columns@;
        let ghost old_self = self;
        let mut b: SelectBuilder<DB, true, G, H, O, false> = SelectBuilder {
            from_clause: self.from_clause,
            select_columns: self.select_columns,
            where_clause_builder: self.where_clause_builder,
            group_by_clause: self.group_by_clause,
            having_clause_builder: self.having_clause_builder,
            order_by_clause: self.order_by_clause,
        };
        let mut i: usize = 0;
        assert(b.select_columns@.take(start.len() as int) =~= start);
        while i < names.len()
            invariant
                i <= names@.len(),
                b.select_columns@.len() == start.len() + i,
                b.select_columns@.take(start.len() as int) == start,
                forall|k: int| 0 <= k < i ==> column_item_is(#[trigger] b.select_columns@[start.len() + k], None::<Seq<char>>, names@[k].0@, Some(names@[k].1@)),
                b.from_clause == old_self.from_clause,
                b.where_clause_builder == old_self.where_clause_builder,
                b.group_by_clause == old_self.group_by_clause,
                b.having_clause_builder == old_self.having_clause_builder,
                b.order_by_clause == old_self.order_by_clause,
            decreases names@.len() - i,
        {
            let ghost prev = b.select_columns@;
            let (c, a) = names[i];
            let nb = b.select_column_with_alias(c, a);
            assert(nb.select_columns@.take(start.len() as int) =~= start) by {
                assert(nb.select_columns@.drop_last() == prev);
                assert(nb.select_columns@.take(start.len() as int) =~= prev.take(start.len() as int));
            }
            assert forall|k: int| 0 <= k < i + 1 implies column_item_is(#[trigger] nb.select_columns@[start.len() + k], None::<Seq<char>>, names@[k].0@, Some(names@[k].1@)) by {
                if k < i {
                    assert(nb.select_columns@[start.len() + k] == prev[start.len() + k]);
                }
            }
            b = SelectBuilder {
                from_clause: nb.from_clause,
                select_columns: nb.select_columns,
                where_clause_builder: nb.where_clause_builder,
                group_by_clause: nb.group_by_clause,
                having_clause_builder: nb.having_clause_builder,
                order_by_clause: nb.order_by_clause,
            };
            i = i + 1;
        }
        SelectBuilder {
            from_clause: b.from_clause,
            select_columns: b.select_columns,
            where_clause_builder: b.where_clause_builder,
            group_by_clause: b.group_by_clause,
            having_clause_builder: b.having_clause_builder,
            order_by_clause: b.order_by_clause,
        }
    }
    /// Adds `column = value` to the WHERE clause, joined by `and` to any predicate before.
    pub fn where_column_equal_to<V: IntoSqlValue<DB>>(self, name: &str, value: V) -> (r: Self)
        ensures
            r.where_clause_builder is Some,
            pushed(builder_predicates(self.where_clause_builder), builder_predicates(r.where_clause_builder), LogicalOp::And),
            pair_is(builder_predicates(r.where_clause_builder).last().1, None::<Seq<char>>, name@, value.sql_value_view()),
            r.from_clause == self.from_clause,
            r.select_columns == self.select_columns,
            r.group_by_clause == self.group_by_clause,
            r.having_clause_builder == self.having_clause_builder,
            r.order_by_clause == self.order_by_clause,
    {
        let w = match self.where_clause_builder {
            Some(b) => b.and_column_equal_to(name, value),
            None => {
                let b = Where::build().column_equal_to(name, value);
                assert(b.predicates@.drop_last() =~= seq![]);
                b
            },
        };
        SelectBuilder {
            from_clause: self.from_clause,
            select_columns: self.select_columns,
            where_clause_builder: Some(w),
            group_by_clause: self.group_by_clause,
            having_clause_builder: self.having_clause_builder,
            order_by_clause: self.order_by_clause,
        }
    }

    /// Builds WHERE predicates with a closure, after any given before.
    pub fn where_clause<F: FnOnce(WhereLikeBuilder<DB, false, false>) -> WhereLikeBuilder<DB, true, false>>(self, build: F) -> (r: Self)
        requires
            forall|b: WhereLikeBuilder<DB, false, false>| build.requires((b,)),
        ensures
            r.where_clause_builder is Some,
            exists|b: WhereLikeBuilder<DB, false, false>, c: WhereLikeBuilder<DB, true, false>|
                b.kind == WhereLikeKind::Where && b.predicates@.len() == 0 && build.ensures((b,), c)
                && builder_predicates(r.where_clause_builder) == builder_predicates(self.where_clause_builder) + c.predicates@,
            r.from_clause == self.from_clause,
            r.select_columns == self.select_columns,
            r.group_by_clause == self.group_by_clause,
            r.having_clause_builder == self.having_clause_builder,
            r.order_by_clause == self.order_by_clause,
    {
        let fresh = Where::build();
        let ghost b0 = fresh;
        let clause = build(fresh);
        let ghost added = clause.predicates@;
        let ghost c0 = clause;
        let w = match self.where_clause_builder {
            Some(b) => b.merge_with_builder(clause),
            None => {
                assert(seq![] + added =~= added);
                clause
            },
        };
        SelectBuilder {
            from_clause: self.from_clause,
            select_columns: self.select_columns,
            where_clause_builder: Some(w),
            group_by_clause: self.group_by_clause,
            having_clause_builder: self.having_clause_builder,
            order_by_clause: self.order_by_clause,
        }
    }
}
impl<DB: Database, const C: bool, const G: bool, const H: bool, const O: bool> SelectBuilder<DB, C, G, H, O, true> {
    fn push_column(self, table: Option<&str>, column: &str, alias: Option<&str>) -> (r: SelectBuilder<DB, true, G, H, O, true>)
        ensures
            r.select_columns@.len() == self.select_columns@.len() + 1,
            r.select_columns@.drop_last() == self.select_columns@,
            column_item_is(r.select_columns@.last(), crate::clause::where_like::opt_seq(table), column@, crate::clause::where_like::opt_seq(alias)),
            r.from_clause == self.from_clause,
            r.where_clause_builder == self.where_clause_builder,
            r.group_by_clause == self.group_by_clause,
            r.having_clause_builder == self.having_clause_builder,
            r.order_by_clause == self.order_by_clause,
    {
        let mut cols = self.select_columns;
        let table_name = match table {
            Some(t) => Some(String::from_str(t)),
            None => None,
        };
        let alias_name = match alias {
            Some(a) => Some(String::from_str(a)),
            None => None,
        };
        cols.push(SelectPredicateKind::Column(SelectedColumn { column: ColRef { table_name, column_name: String::from_str(column) }, alias: alias_name }));
        assert(cols@.drop_last() =~= self.select_columns@);
        SelectBuilder {
            from_clause: self.from_clause,
            select_columns: cols,
            where_clause_builder: self.where_clause_builder,
            group_by_clause: self.group_by_clause,
            having_clause_builder: self.having_clause_builder,
            order_by_clause: self.order_by_clause,
        }
    }

    pub fn select_column(self, table_name: &str, column_name: &str) -> (r: SelectBuilder<DB, true, G, H, O, true>)
        ensures
            r.select_columns@.len() == self.select_columns@.len() + 1,
            r.select_columns@.drop_last() == self.select_columns@,
            column_item_is(r.select_columns@.last(), Some(table_name@), column_name@, None),
            r.from_clause == self.from_clause,
            r.where_clause_builder == self.where_clause_builder,
            r.group_by_clause == self.group_by_clause,
            r.having_clause_builder == self.having_clause_builder,
            r.order_by_clause == self.order_by_clause,
    {
        self.push_column(Some(table_name), column_name, None)
    }

    pub fn select_column_with_alias(self, table_name: &str, column_name: &str, alias: &str) -> (r: SelectBuilder<DB, true, G, H, O, true>)
        ensures
            r.select_columns@.len() == self.select_columns@.len() + 1,
            r.select_columns@.drop_last() == self.select_columns@,
            column_item_is(r.select_columns@.last(), Some(table_name@), column_name@, Some(alias@)),
            r.from_clause == self.from_clause,
            r.where_clause_builder == self.where_clause_builder,
            r.group_by_clause == self.group_by_clause,
            r.having_clause_builder == self.having_clause_builder,
            r.order_by_clause == self.order_by_clause,
    {
        self.push_column(Some(table_name), column_name, Some(alias))
    }
    pub fn select_columns(self, names: Vec<(&str, &str)>) -> (r: SelectBuilder<DB, true, G, H, O, true>)
        ensures
            r.select_columns@.len() == self.select_columns@.len() + names@.len(),
            r.select_columns@.take(self.select_columns@.len() as int) == self.select_columns@,
            forall|i: int| 0 <= i < names@.len() ==> column_item_is(#[trigger] r.select_columns@[self.select_columns@.len() + i], Some(names@[i].0@), names@[i].1@, None),
            r.from_clause == self.from_clause,
            r.where_clause_builder == self.where_clause_builder,
            r.group_by_clause == self.group_by_clause,
            r.having_clause_builder == self.having_clause_builder,
            r.order_by_clause == self.order_by_clause,
    {
        let ghost start = self.select_columns@;
        let ghost old_self = self;
        let mut b: SelectBuilder<DB, true, G, H, O, true> = SelectBuilder {
            from_clause: self.from_clause,
            select_columns: self.select_columns,
            where_clause_builder: self.where_clause_builder,
            group_by_clause: self.group_by_clause,
            having_clause_builder: self.having_clause_builder,
            order_by_clause: self.order_by_clause,
        };
        let mut i: usize = 0;
        assert(b.select_columns@.take(start.len() as int) =~= start);
        while i < names.len()
            invariant
                i <= names@.len(),
                b.select_columns@.len() == start.len() + i,
                b.select_columns@.take(start.len() as int) == start,
                forall|k: int| 0 <= k < i ==> column_item_is(#[trigger] b.select_columns@[start.len() + k], Some(names@[k].0@), names@[k].1@, None),
                b.from_clause == old_self.from_clause,
                b.where_clause_builder == old_self.where_clause_builder,
                b.group_by_clause == old_self.group_by_clause,
                b.having_clause_builder == old_self.having_clause_builder,
                b.order_by_clause == old_self.order_by_clause,
            decreases names@.len() - i,
        {
            let ghost prev = b.select_columns@;
            let (t, c) = names[i];
            let nb = b.select_column(t, c);
            assert(nb.select_columns@.take(start.len() as int) =~= start) by {
                assert(nb.select_columns@.drop_last() == prev);
                assert(nb.select_columns@.take(start.len() as int) =~= prev.take(start.len() as int));
            }
            assert forall|k: int| 0 <= k < i + 1 implies column_item_is(#[trigger] nb.select_columns@[start.len() + k], Some(names@[k].0@), names@[k].1@, None) by {
                if k < i {
                    assert(nb.select_columns@[start.len() + k] == prev[start.len() + k]);
                }
            }
            b = SelectBuilder {
                from_clause: nb.from_clause,
                select_columns: nb.select_columns,
                where_clause_builder: nb.where_clause_builder,
                group_by_clause: nb.group_by_clause,
                having_clause_builder: nb.having_clause_builder,
                order_by_clause: nb.order_by_clause,
            };
            i = i + 1;
        }
        SelectBuilder {
            from_clause: b.from_clause,
            select_columns: b.select_columns,
            where_clause_builder: b.where_clause_builder,
            group_by_clause: b.group_by_clause,
            having_clause_builder: b.having_clause_builder,
            order_by_clause: b.order_by_clause,
        }
    }
    pub fn select_columns_with_alias(self, names: Vec<(&str, &str, &str)>) -> (r: SelectBuilder<DB, true, G, H, O, true>)
        ensures
            r.select_columns@.len() == self.select_columns@.len() + names@.len(),
            r.select_columns@.take(self.select_columns@.len() as int) == self.select_columns@,
            forall|i: int| 0 <= i < names@.len() ==> column_item_is(#[trigger] r.select_columns@[self.select_columns@.len() + i], Some(names@[i].0@), names@[i].1@, Some(names@[i].2@)),
            r.from_clause == self.from_clause,
            r.where_clause_builder == self.where_clause_builder,
            r.group_by_clause == self.group_by_clause,
            r.having_clause_builder == self.having_clause_builder,
            r.order_by_clause == self.order_by_clause,
    {
        let ghost start = self.select_columns@;
        let ghost old_self = self;
        let mut b: SelectBuilder<DB, true, G, H, O, true> = SelectBuilder {
            from_clause: self.from_clause,
            select_columns: self.select_columns,
            where_clause_builder: self.where_clause_builder,
            group_by_clause: self.group_by_clause,
            having_clause_builder: self.having_clause_builder,
            order_by_clause: self.order_by_clause,
        };
        let mut i: usize = 0;
        assert(b.select_columns@.take(start.len() as int) =~= start);
        while i < names.len()
            invariant
                i <= names@.len(),
                b.select_columns@.len() == start.len() + i,
                b.select_columns@.take(start.len() as int) == start,
                forall|k: int| 0 <= k < i ==> column_item_is(#[trigger] b.select_columns@[start.len() + k], Some(names@[k].0@), names@[k].1@, Some(names@[k].2@)),
                b.from_clause == old_self.from_clause,
                b.where_clause_builder == old_self.where_clause_builder,
                b.group_by_clause == old_self.group_by_clause,
                b.having_clause_builder == old_self.having_clause_builder,
                b.order_by_clause == old_self.order_by_clause,
            decreases names@.len() - i,
        {
            let ghost prev = b.select_columns@;
            let (t, c, a) = names[i];
            let nb = b.select_column_with_alias(t, c, a);
            assert(nb.select_columns@.take(start.len() as int) =~= start) by {
                assert(nb.select_columns@.drop_last() == prev);
                assert(nb.select_columns@.take(start.len() as int) =~= prev.take(start.len() as int));
            }
            assert forall|k: int| 0 <= k < i + 1 implies column_item_is(#[trigger] nb.select_columns@[start.len() + k], Some(names@[k].0@), names@[k].1@, Some(names@[k].2@)) by {
                if k < i {
                    assert(nb.select_columns@[start.len() + k] == prev[start.len() + k]);
                }
            }
            b = SelectBuilder {
                from_clause: nb.from_clause,
                select_columns: nb.select_columns,
                where_clause_builder: nb.where_clause_builder,
                group_by_clause: nb.group_by_clause,
                having_clause_builder: nb.having_clause_builder,
                order_by_clause: nb.order_by_clause,
            };
            i = i + 1;
        }
        SelectBuilder {
            from_clause: b.from_clause,
            select_columns: b.select_columns,
            where_clause_builder: b.where_clause_builder,
            group_by_clause: b.group_by_clause,
            having_clause_builder: b.having_clause_builder,
            order_by_clause: b.order_by_clause,
        }
    }
    /// Adds `column = value` to the WHERE clause, joined by `and` to any predicate before.
    pub fn where_column_equal_to<V: IntoSqlValue<DB>>(self, table_name: &str, column_name: &str, value: V) -> (r: Self)
        ensures
            r.where_clause_builder is Some,
            pushed(builder_predicates(self.where_clause_builder), builder_predicates(r.where_clause_builder), LogicalOp::And),
            pair_is(builder_predicates(r.where_clause_builder).last().1, Some(table_name@), column_name@, value.sql_value_view()),
            r.from_clause == self.from_clause,
            r.select_columns == self.select_columns,
            r.group_by_clause == self.group_by_clause,
            r.having_clause_builder == self.having_clause_builder,
            r.order_by_clause == self.order_by_clause,
    {
        let w = match self.where_clause_builder {
            Some(b) => b.and_column_equal_to(table_name, column_name, value),
            None => {
                let b = Where::build_with_join().column_equal_to(table_name, column_name, value);
                assert(b.predicates@.drop_last() =~= seq![]);
                b
            },
        };
        SelectBuilder {
            from_clause: self.from_clause,
            select_columns: self.select_columns,
            where_clause_builder: Some(w),
            group_by_clause: self.group_by_clause,
            having_clause_builder: self.having_clause_builder,
            order_by_clause: self.order_by_clause,
        }
    }

    /// Builds WHERE predicates with a closure, after any given before.
    pub fn where_clause<F: FnOnce(WhereLikeBuilder<DB, false, true>) -> WhereLikeBuilder<DB, true, true>>(self, build: F) -> (r: Self)
        requires
            forall|b: WhereLikeBuilder<DB, false, true>| build.requires((b,)),
        ensures
            r.where_clause_builder is Some,
            exists|b: WhereLikeBuilder<DB, false, true>, c: WhereLikeBuilder<DB, true, true>|
                b.kind == WhereLikeKind::Where && b.predicates@.len() == 0 && build.ensures((b,), c)
                && builder_predicates(r.where_clause_builder) == builder_predicates(self.where_clause_builder) + c.predicates@,
            r.from_clause == self.from_clause,
            r.select_columns == self.select_columns,
            r.group_by_clause == self.group_by_clause,
            r.having_clause_builder == self.having_clause_builder,
            r.order_by_clause == self.order_by_clause,
    {
        let fresh = Where::build_with_join();
        let ghost b0 = fresh;
        let clause = build(fresh);
        let ghost added = clause.predicates@;
        let ghost c0 = clause;
        let w = match self.where_clause_builder {
            Some(b) => b.merge_with_builder(clause),
            None => {
                assert(seq![] + added =~= added);
                clause
            },
        };
        SelectBuilder {
            from_clause: self.from_clause,
            select_columns: self.select_columns,
            where_clause_builder: Some(w),
            group_by_clause: self.group_by_clause,
            having_clause_builder: self.having_clause_builder,
            order_by_clause: self.order_by_clause,
        }
    }
}
impl<DB: Database, const C: bool, const G: bool, const H: bool, const J: bool> SelectBuilder<DB, C, G, H, false, J> {
    pub fn with_order_by_clause(self, order_by_clause: OrderBy<DB>) -> (r: SelectBuilder<DB, C, G, H, true, J>)
        ensures
            r.order_by_clause == Some(Ok::<OrderBy<DB>, SyntaxError>(order_by_clause)),
            r.from_clause == self.from_clause,
            r.select_columns == self.select_columns,
            r.where_clause_builder == self.where_clause_builder,
            r.group_by_clause == self.group_by_clause,
            r.having_clause_builder == self.having_clause_builder,
    {
        SelectBuilder {
            from_clause: self.from_clause,
            select_columns: self.select_columns,
            where_clause_builder: self.where_clause_builder,
            group_by_clause: self.group_by_clause,
            having_clause_builder: self.having_clause_builder,
            order_by_clause: Some(Ok(order_by_clause)),
        }
    }
}

impl<DB: Database, const C: bool, const G: bool, const H: bool> SelectBuilder<DB, C, G, H, false, false> {
    /// Orders by `(column, ascending)` entries; an empty list makes finalizing fail.
    pub fn order_by(self, predicates: Vec<(&str, bool)>) -> (r: SelectBuilder<DB, C, G, H, true, false>)
        ensures
            r.order_by_clause is Some,
            r.order_by_clause->0 is Ok <==> predicates@.len() > 0,
            r.order_by_clause->0 is Ok ==> r.order_by_clause->0->Ok_0.limit_and_offset is None
                && r.order_by_clause->0->Ok_0.predicates@.len() == predicates@.len()
                && forall|i: int| 0 <= i < predicates@.len() ==> order_entry(#[trigger] r.order_by_clause->0->Ok_0.predicates@[i], None, predicates@[i].0@, predicates@[i].1),
            r.order_by_clause->0 is Err ==> r.order_by_clause->0->Err_0.kind == SyntaxErrorKind::MissingOrderByPredicates,
            r.from_clause == self.from_clause,
            r.select_columns == self.select_columns,
            r.where_clause_builder == self.where_clause_builder,
            r.group_by_clause == self.group_by_clause,
            r.having_clause_builder == self.having_clause_builder,
    {
        let o = OrderBy::from_columns(predicates);
        SelectBuilder {
            from_clause: self.from_clause,
            select_columns: self.select_columns,
            where_clause_builder: self.where_clause_builder,
            group_by_clause: self.group_by_clause,
            having_clause_builder: self.having_clause_builder,
            order_by_clause: Some(o),
        }
    }
}

impl<DB: Database, const C: bool, const G: bool, const H: bool> SelectBuilder<DB, C, G, H, false, true> {
    /// Orders by `(table, column, ascending)` entries; an empty list makes finalizing fail.
    pub fn order_by(self, predicates: Vec<(&str, &str, bool)>) -> (r: SelectBuilder<DB, C, G, H, true, true>)
        ensures
            r.order_by_clause is Some,
            r.order_by_clause->0 is Ok <==> predicates@.len() > 0,
            r.order_by_clause->0 is Ok ==> r.order_by_clause->0->Ok_0.limit_and_offset is None
                && r.order_by_clause->0->Ok_0.predicates@.len() == predicates@.len()
                && forall|i: int| 0 <= i < predicates@.len() ==> order_entry(#[trigger] r.order_by_clause->0->Ok_0.predicates@[i], Some(predicates@[i].0@), predicates@[i].1@, predicates@[i].2),
            r.order_by_clause->0 is Err ==> r.order_by_clause->0->Err_0.kind == SyntaxErrorKind::MissingOrderByPredicates,
            r.from_clause == self.from_clause,
            r.select_columns == self.select_columns,
            r.where_clause_builder == self.where_clause_builder,
            r.group_by_clause == self.group_by_clause,
            r.having_clause_builder == self.having_clause_builder,
    {
        let o = OrderBy::from_table_columns(predicates);
        SelectBuilder {
            from_clause: self.from_clause,
            select_columns: self.select_columns,
            where_clause_builder: self.where_clause_builder,
            group_by_clause: self.group_by_clause,
            having_clause_builder: self.having_clause_builder,
            order_by_clause: Some(o),
        }
    }
}

impl<DB: Database, const C: bool, const H: bool, const O: bool, const J: bool> SelectBuilder<DB, C, false, H, O, J> {
    pub fn with_group_by_clause(self, group_by_clause: GroupBy<DB>) -> (r: SelectBuilder<DB, C, true, H, O, J>)
        ensures
            r.group_by_clause == Some(Ok::<GroupBy<DB>, SyntaxError>(group_by_clause)),
            r.from_clause == self.from_clause,
            r.select_columns == self.select_columns,
            r.where_clause_builder == self.where_clause_builder,
            r.having_clause_builder == self.having_clause_builder,
            r.order_by_clause == self.order_by_clause,
    {
        SelectBuilder {
            from_clause: self.from_clause,
            select_columns: self.select_columns,
            where_clause_builder: self.where_clause_builder,
            group_by_clause: Some(Ok(group_by_clause)),
            having_clause_builder: self.having_clause_builder,
            order_by_clause: self.order_by_clause,
        }
    }
}

impl<DB: Database, const C: bool, const H: bool, const O: bool> SelectBuilder<DB, C, false, H, O, false> {
    /// Groups by the named columns; an empty list makes finalizing fail.
    pub fn group_by(self, predicates: Vec<&str>) -> (r: SelectBuilder<DB, C, true, H, O, false>)
        ensures
            r.group_by_clause is Some,
            r.group_by_clause->0 is Ok <==> predicates@.len() > 0,
            r.group_by_clause->0 is Ok ==> r.group_by_clause->0->Ok_0.predicates@.len() == predicates@.len()
                && forall|i: int| 0 <= i < predicates@.len() ==> group_entry(#[trigger] r.group_by_clause->0->Ok_0.predicates@[i], None, predicates@[i]@),
            r.group_by_clause->0 is Err ==> r.group_by_clause->0->Err_0.kind == SyntaxErrorKind::MissingGroupByPredicates,
            r.from_clause == self.from_clause,
            r.select_columns == self.select_columns,
            r.where_clause_builder == self.where_clause_builder,
            r.having_clause_builder == self.having_clause_builder,
            r.order_by_clause == self.order_by_clause,
    {
        let g = GroupBy::from_columns(predicates);
        SelectBuilder {
            from_clause: self.from_clause,
            select_columns: self.select_columns,
            where_clause_builder: self.where_clause_builder,
            group_by_clause: Some(g),
            having_clause_builder: self.having_clause_builder,
            order_by_clause: self.order_by_clause,
        }
    }
}

impl<DB: Database, const G: bool, const H: bool, const O: bool, const J: bool> SelectBuilder<DB, true, G, H, O, J> {
    /// Finalizes the statement. It fails with the first structural error: an empty
    /// select list, then a WHERE, GROUP BY, HAVING or ORDER BY without entries.
    pub fn finalize(self) -> (r: Result<Select<DB>, SyntaxError>)
        ensures
            r is Ok <==> select_ok(self),
            r is Ok ==> finalized(r->Ok_0, self),
            r is Err ==> r->Err_0.kind == select_error_kind(self),
    {
        if self.select_columns.len() == 0 {
            return Err(SyntaxError::new(SyntaxErrorKind::MissingSelectPredicates, String::new()));
        }
        let where_clause = match finalize_clause(self.where_clause_builder) {
            Ok(w) => w,
            Err(e) => {
                return Err(e);
            },
        };
        let group_by_clause = match transpose(self.group_by_clause) {
            Ok(g) => g,
            Err(e) => {
                return Err(e);
            },
        };
        let having_clause = match finalize_clause(self.having_clause_builder) {
            Ok(h) => h,
            Err(e) => {
                return Err(e);
            },
        };
        let order_by_clause = match transpose(self.order_by_clause) {
            Ok(o) => o,
            Err(e) => {
                return Err(e);
            },
        };
        Ok(
            Select {
                from_clause: self.from_clause,
                select_columns: self.select_columns,
                where_clause,
                group_by_clause,
                having_clause,
                order_by_clause,
            },
        )
    }

    /// Finalizes, renders and freezes the statement.
    pub fn finalize_and_freeze(self) -> (r: Result<FrozenSql<DB>, SyntaxError>)
        ensures
            r is Ok <==> select_ok(self),
            r is Err ==> r->Err_0.kind == select_error_kind(self),
            r is Ok ==> exists|s: Select<DB>| finalized(s, self) && r->Ok_0.text@ == select_view::<DB>(s).text
                && r->Ok_0.values is Some && crate::value::values_view(r->Ok_0.values->0@) == select_view::<DB>(s).values,
    {
        match self.finalize() {
            Ok(s) => {
                let ghost g = s;
                let f = s.into_sql().freeze();
                assert(finalized(g, self));
                Ok(f)
            },
            Err(e) => Err(e),
        }
    }
}

} // verus!
