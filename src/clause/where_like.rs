use vstd::prelude::*;
use vstd::string::*;
use core::marker::PhantomData;
use crate::clause::sql_in::{In, in_view};
use crate::dialect::Database;
use crate::error::{SyntaxError, SyntaxErrorKind};
use crate::expression::{
    ComparisonCombo, ComparisonOp, LogicalOp, comparison_view, identifier_view, logical_text,
    qualified_view, then_raw,
};
use crate::sql::{Sql, SqlView, cat, raw_view, value_view};
use crate::value::{IntoSqlValue, Value, ValueView, opt_view};

verus! {

/// A column, qualified by its table in join mode.
#[derive(Debug)]
pub struct ColRef {
    pub table_name: Option<String>,
    pub column_name: String,
}

pub open spec fn opt_str_view(o: Option<String>) -> Option<Seq<char>> {
    match o {
        Some(s) => Some(s@),
        None => None,
    }
}

/// The fragment of a column reference.
pub open spec fn column_view<DB: Database>(table: Option<Seq<char>>, column: Seq<char>) -> SqlView {
    match table {
        Some(t) => qualified_view::<DB>(t, column),
        None => identifier_view::<DB>(column),
    }
}

pub open spec fn colref_view<DB: Database>(c: ColRef) -> SqlView {
    column_view::<DB>(opt_str_view(c.table_name), c.column_name@)
}

/// `c` names column `column` of `table` (no table in simple mode).
pub open spec fn col_is(c: ColRef, table: Option<Seq<char>>, column: Seq<char>) -> bool {
    c.column_name@ == column && opt_str_view(c.table_name) == table
}

fn opt_string(o: Option<&str>) -> (r: Option<String>)
    ensures
        opt_str_view(r) == (match o {
            Some(s) => Some(s@),
            None => None::<Seq<char>>,
        }),
{
    match o {
        Some(s) => Some(String::from_str(s)),
        None => None,
    }
}

pub open spec fn opt_seq(o: Option<&str>) -> Option<Seq<char>> {
    match o {
        Some(s) => Some(s@),
        None => None,
    }
}

fn col_ref(table: Option<&str>, column: &str) -> (r: ColRef)
    ensures
        col_is(r, opt_seq(table), column@),
{
    ColRef { table_name: opt_string(table), column_name: String::from_str(column) }
}

/// The fragment of a column reference.
pub fn column_sql<DB: Database>(c: ColRef) -> (r: Sql<DB>)
    ensures
        r@ == colref_view::<DB>(c),
{
    match c.table_name {
        Some(t) => crate::expression::TableAndColumnReference::<DB>::new(t.as_str(), c.column_name.as_str()).into_sql(),
        None => crate::expression::ColumnReference::<DB>::new(c.column_name.as_str()).into_sql(),
    }
}

/// One predicate of a WHERE, HAVING or ON clause. A group is held as the rendered
/// fragment of its nested clause.
#[derive(Debug)]
pub enum PredicateKind<DB: Database> {
    Pair(ColRef, Option<Value<DB>>),
    InClause(ColRef, In<DB>),
    Expression(Sql<DB>),
    Group(Sql<DB>),
}

/// Which keyword a clause of the shared grammar renders with.
#[derive(Clone, Copy, Debug, PartialEq, Eq, Structural)]
pub enum WhereLikeKind {
    Where,
    Having,
    On,
}

pub open spec fn keyword_text(k: WhereLikeKind) -> Seq<char> {
    match k {
        WhereLikeKind::Where => "where "@,
        WhereLikeKind::Having => "having "@,
        WhereLikeKind::On => "on "@,
    }
}

/// A finalized WHERE, HAVING or ON clause.
#[derive(Debug)]
pub struct WhereLike<DB: Database> {
    pub kind: WhereLikeKind,
    pub predicates: Vec<(LogicalOp, PredicateKind<DB>)>,
}

/// Builds a WHERE, HAVING or ON clause. `HAS_PREDICATES` records that an entry was
/// given; `HAS_JOIN` that columns are qualified by their tables.
#[derive(Debug)]
pub struct WhereLikeBuilder<DB: Database, const HAS_PREDICATES: bool, const HAS_JOIN: bool> {
    pub kind: WhereLikeKind,
    pub predicates: Vec<(LogicalOp, PredicateKind<DB>)>,
}

/// The WHERE clause.
pub struct Where<DB: Database> {
    pub db: PhantomData<DB>,
}

/// The HAVING clause.
pub struct Having<DB: Database> {
    pub db: PhantomData<DB>,
}

/// The ON clause of a join.
pub struct SqlOn<DB: Database> {
    pub db: PhantomData<DB>,
}

impl Clone for ColRef {
    fn clone(&self) -> (r: Self)
        ensures
            r == *self,
    {
        let table_name = match &self.table_name {
            Some(t) => Some(t.clone()),
            None => None,
        };
        ColRef { table_name, column_name: self.column_name.clone() }
    }
}

/// Predicates `p` and `q` render the same after any fragment.
pub open spec fn same_predicate<DB: Database>(p: PredicateKind<DB>, q: PredicateKind<DB>) -> bool {
    forall|acc: SqlView| #[trigger] predicate_onto::<DB>(acc, p) == predicate_onto::<DB>(acc, q)
}

/// Two predicate lists with the same combinators and predicates that render the same.
pub open spec fn same_predicates<DB: Database>(
    a: Seq<(LogicalOp, PredicateKind<DB>)>,
    b: Seq<(LogicalOp, PredicateKind<DB>)>,
) -> bool {
    a.len() == b.len() && forall|i: int| 0 <= i < a.len() ==> (#[trigger] a[i]).0 == b[i].0 && same_predicate(a[i].1, b[i].1)
}

/// Lists of predicates that render the same one by one render the same as a whole.
pub proof fn lemma_same_predicates_render<DB: Database>(
    start: SqlView,
    a: Seq<(LogicalOp, PredicateKind<DB>)>,
    b: Seq<(LogicalOp, PredicateKind<DB>)>,
)
    requires
        same_predicates(a, b),
    ensures
        predicates_view::<DB>(start, a) == predicates_view::<DB>(start, b),
    decreases a.len(),
{
    if a.len() > 0 {
        assert(same_predicates(a.drop_last(), b.drop_last()));
        lemma_same_predicates_render(start, a.drop_last(), b.drop_last());
        let i = a.len() - 1;
        assert(a[i].0 == b[i].0 && same_predicate(a[i].1, b[i].1));
    }
}

impl<DB: Database> Clone for PredicateKind<DB> {
    /// A copy that renders the same.
    fn clone(&self) -> (r: Self)
        ensures
            same_predicate(r, *self),
    {
        match self {
            PredicateKind::Pair(c, v) => PredicateKind::Pair(c.clone(), crate::sql::clone_value(v)),
            PredicateKind::InClause(c, i) => PredicateKind::InClause(c.clone(), i.clone()),
            PredicateKind::Expression(e) => PredicateKind::Expression(e.clone()),
            PredicateKind::Group(g) => PredicateKind::Group(g.clone()),
        }
    }
}

fn clone_predicates<DB: Database>(ps: &Vec<(LogicalOp, PredicateKind<DB>)>) -> (r: Vec<(LogicalOp, PredicateKind<DB>)>)
    ensures
        same_predicates(r@, ps@),
{
    let mut out: Vec<(LogicalOp, PredicateKind<DB>)> = Vec::new();
    let mut i: usize = 0;
    while i < ps.len()
        invariant
            i <= ps@.len(),
            out@.len() == i,
            forall|k: int| 0 <= k < i ==> (#[trigger] out@[k]).0 == ps@[k].0 && same_predicate(out@[k].1, ps@[k].1),
        decreases ps@.len() - i,
    {
        let (op, p) = &ps[i];
        out.push((*op, p.clone()));
        i = i + 1;
    }
    out
}

impl<DB: Database> Clone for WhereLike<DB> {
    /// A copy that renders the same after any prefix.
    fn clone(&self) -> (r: Self)
        ensures
            r.kind == self.kind,
            same_predicates(r.predicates@, self.predicates@),
            forall|prefix: Seq<char>| #[trigger] where_view::<DB>(prefix, r.predicates@) == where_view::<DB>(prefix, self.predicates@),
    {
        let r = WhereLike { kind: self.kind, predicates: clone_predicates(&self.predicates) };
        assert forall|prefix: Seq<char>| #[trigger] where_view::<DB>(prefix, r.predicates@) == where_view::<DB>(prefix, self.predicates@) by {
            lemma_same_predicates_render::<DB>(raw_view(prefix), r.predicates@, self.predicates@);
        }
        r
    }
}

impl<DB: Database, const HAS_PREDICATES: bool, const HAS_JOIN: bool> Clone for WhereLikeBuilder<DB, HAS_PREDICATES, HAS_JOIN> {
    fn clone(&self) -> (r: Self)
        ensures
            r.kind == self.kind,
            same_predicates(r.predicates@, self.predicates@),
    {
        WhereLikeBuilder { kind: self.kind, predicates: clone_predicates(&self.predicates) }
    }
}

/// Predicate `p` appended to `acc`.
pub open spec fn predicate_onto<DB: Database>(acc: SqlView, p: PredicateKind<DB>) -> SqlView {
    match p {
        PredicateKind::Pair(c, v) => if v is Some {
            cat::<DB>(then_raw::<DB>(cat::<DB>(acc, colref_view::<DB>(c)), "="@), value_view::<DB>(opt_view(v)))
        } else {
            then_raw::<DB>(cat::<DB>(acc, colref_view::<DB>(c)), " is null"@)
        },
        PredicateKind::InClause(c, i) => cat::<DB>(
            then_raw::<DB>(cat::<DB>(acc, colref_view::<DB>(c)), " "@),
            in_view::<DB>(i),
        ),
        PredicateKind::Expression(e) => cat::<DB>(acc, e@),
        PredicateKind::Group(g) => then_raw::<DB>(cat::<DB>(then_raw::<DB>(acc, "("@), g@), ")"@),
    }
}

/// `start` followed by the predicates, each after the first preceded by its combinator.
pub open spec fn predicates_view<DB: Database>(start: SqlView, ps: Seq<(LogicalOp, PredicateKind<DB>)>) -> SqlView
    decreases ps.len(),
{
    if ps.len() == 0 {
        start
    } else {
        let prev = predicates_view::<DB>(start, ps.drop_last());
        let acc = if ps.len() > 1 {
            then_raw::<DB>(then_raw::<DB>(then_raw::<DB>(prev, " "@), logical_text(ps.last().0)), " "@)
        } else {
            prev
        };
        predicate_onto::<DB>(acc, ps.last().1)
    }
}

/// The rendering of a clause after the given prefix.
pub open spec fn where_view<DB: Database>(prefix: Seq<char>, ps: Seq<(LogicalOp, PredicateKind<DB>)>) -> SqlView {
    predicates_view::<DB>(raw_view(prefix), ps)
}

fn append_predicate<DB: Database>(acc: Sql<DB>, p: PredicateKind<DB>) -> (r: Sql<DB>)
    ensures
        r@ == predicate_onto::<DB>(acc@, p),
{
    match p {
        PredicateKind::Pair(c, v) => {
            let s = acc.append(column_sql(c));
            if v.is_some() {
                s.raw_append("=").append(Sql::from_value(v))
            } else {
                s.raw_append(" is null")
            }
        },
        PredicateKind::InClause(c, i) => acc.append(column_sql(c)).raw_append(" ").append(i.into_sql()),
        PredicateKind::Expression(e) => acc.append(e),
        PredicateKind::Group(g) => acc.raw_append("(").append(g).raw_append(")"),
    }
}

/// Renders the predicates of a clause after `prefix` (none for a nested group).
pub fn render<DB: Database>(where_clause: WhereLike<DB>, prefix: Option<&str>) -> (r: Sql<DB>)
    ensures
        r@ == where_view::<DB>(
            match prefix {
                Some(p) => p@,
                None => seq![],
            },
            where_clause.predicates@,
        ),
{
    let start = match prefix {
        Some(p) => Sql::raw(p),
        None => {
            proof {
                reveal_strlit("");
                assert(""@ =~= Seq::<char>::empty());
            }
            Sql::raw("")
        },
    };
    let ghost s0 = start@;
    let ghost all = where_clause.predicates@;
    let n = where_clause.predicates.len();
    let mut rest = where_clause.predicates;
    let mut sql = start;
    let mut i: usize = 0;
    assert(rest@ =~= all.skip(0));
    while rest.len() > 0
        invariant
            all.len() == n,
            i + rest@.len() == n,
            rest@ == all.skip(i as int),
            sql@ == predicates_view::<DB>(s0, all.take(i as int)),
        decreases rest@.len(),
    {
        let (op, p) = rest.remove(0);
        if i > 0 {
            sql = sql.raw_append(" ").raw_append(op.text()).raw_append(" ");
        }
        sql = append_predicate(sql, p);
        assert(all.take(i + 1).drop_last() =~= all.take(i as int));
        assert(all.skip(i as int)[0] == all[i as int]);
        assert(all.skip(i as int).skip(1) =~= all.skip(i + 1));
        assert(rest@ =~= all.skip(i + 1));
        i = i + 1;
    }
    assert(all.take(n as int) =~= all);
    sql
}

impl<DB: Database> WhereLike<DB> {
    /// Renders the clause with its keyword.
    pub fn into_sql(self) -> (r: Sql<DB>)
        ensures
            r@ == where_view::<DB>(keyword_text(self.kind), self.predicates@),
    {
        let prefix = match self.kind {
            WhereLikeKind::Where => "where ",
            WhereLikeKind::Having => "having ",
            WhereLikeKind::On => "on ",
        };
        render(self, Some(prefix))
    }

    pub fn into_builder<const HAS_JOIN: bool>(self) -> (r: WhereLikeBuilder<DB, true, HAS_JOIN>)
        ensures
            r.kind == self.kind,
            r.predicates@ == self.predicates@,
    {
        WhereLikeBuilder { kind: self.kind, predicates: self.predicates }
    }
}

/// `new` is `old` with one predicate appended under combinator `op`.
pub open spec fn pushed<DB: Database>(
    old: Seq<(LogicalOp, PredicateKind<DB>)>,
    new: Seq<(LogicalOp, PredicateKind<DB>)>,
    op: LogicalOp,
) -> bool {
    &&& new.len() == old.len() + 1
    &&& new.drop_last() == old
    &&& new.last().0 == op
}

/// `column = value`, or `column is null` for an absent value.
pub open spec fn pair_is<DB: Database>(p: PredicateKind<DB>, table: Option<Seq<char>>, column: Seq<char>, v: Option<ValueView>) -> bool {
    p is Pair && col_is(p->Pair_0, table, column) && opt_view(p->Pair_1) == v
}

pub open spec fn in_is<DB: Database>(p: PredicateKind<DB>, table: Option<Seq<char>>, column: Seq<char>, i: In<DB>) -> bool {
    p is InClause && col_is(p->InClause_0, table, column) && p->InClause_1 == i
}

pub open spec fn expression_is<DB: Database>(p: PredicateKind<DB>, e: SqlView) -> bool {
    p is Expression && p->Expression_0@ == e
}

/// `column <> value`, which becomes `column is not null` for an absent value.
pub open spec fn not_equal_view<DB: Database>(table: Option<Seq<char>>, column: Seq<char>, v: Option<ValueView>) -> SqlView {
    comparison_view::<DB>(column_view::<DB>(table, column), ComparisonOp::NotEqualTo, value_view::<DB>(v))
}

pub open spec fn is_null_view<DB: Database>(table: Option<Seq<char>>, column: Seq<char>, is_null: bool) -> SqlView {
    then_raw::<DB>(column_view::<DB>(table, column), if is_null { " is null"@ } else { " is not null"@ })
}

/// `not column in (...)`.
pub open spec fn not_in_view<DB: Database>(table: Option<Seq<char>>, column: Seq<char>, i: In<DB>) -> SqlView {
    cat::<DB>(raw_view("not "@), cat::<DB>(column_view::<DB>(table, column), in_view::<DB>(i)))
}

/// An empty value list renders as a subquery that yields no row, never as `in ()`:
/// `column in (...)` is then false for every row, and `not column in (...)` true.
pub proof fn lemma_empty_in_list<DB: Database>(acc: SqlView, c: ColRef, i: In<DB>)
    requires
        i.kind is Values,
        i.kind->Values_0@.len() == 0,
    ensures
        in_view::<DB>(i) == raw_view(crate::clause::sql_in::empty_in_text()),
        predicate_onto::<DB>(acc, PredicateKind::InClause(c, i)) == cat::<DB>(
            then_raw::<DB>(cat::<DB>(acc, colref_view::<DB>(c)), " "@),
            raw_view(crate::clause::sql_in::empty_in_text()),
        ),
        not_in_view::<DB>(opt_str_view(c.table_name), c.column_name@, i) == cat::<DB>(
            raw_view("not "@),
            cat::<DB>(colref_view::<DB>(c), raw_view(crate::clause::sql_in::empty_in_text())),
        ),
{
}

/// Comparing with an absent value renders `is null` for equality and `is not null` for
/// inequality, never `= null`: in a column predicate and in a comparison expression.
pub proof fn lemma_absent_value_is_null<DB: Database>(acc: SqlView, c: ColRef, lhs: SqlView)
    ensures
        predicate_onto::<DB>(acc, PredicateKind::Pair(c, None)) == then_raw::<DB>(
            cat::<DB>(acc, colref_view::<DB>(c)),
            " is null"@,
        ),
        comparison_view::<DB>(lhs, ComparisonOp::EqualTo, value_view::<DB>(None)) == then_raw::<DB>(lhs, " is null"@),
        comparison_view::<DB>(lhs, ComparisonOp::NotEqualTo, value_view::<DB>(None)) == then_raw::<DB>(
            lhs,
            " is not null"@,
        ),
{
    reveal_strlit("null");
}

fn pair_predicate<DB: Database, V: IntoSqlValue<DB>>(table: Option<&str>, column: &str, value: V) -> (r: PredicateKind<DB>)
    ensures
        pair_is(r, opt_seq(table), column@, value.sql_value_view()),
{
    PredicateKind::Pair(col_ref(table, column), value.into_sql_value())
}

fn reference_sql<DB: Database>(table: Option<&str>, column: &str) -> (r: Sql<DB>)
    ensures
        r@ == column_view::<DB>(opt_seq(table), column@),
{
    column_sql(col_ref(table, column))
}

fn not_equal_predicate<DB: Database, V: IntoSqlValue<DB>>(table: Option<&str>, column: &str, value: V) -> (r: PredicateKind<DB>)
    ensures
        expression_is(r, not_equal_view::<DB>(opt_seq(table), column@, value.sql_value_view())),
        value.sql_value_view() is None ==> expression_is(r, is_null_view::<DB>(opt_seq(table), column@, false)),
{
    proof {
        reveal_strlit("null");
    }
    let combo = ComparisonCombo {
        lhs: reference_sql(table, column),
        op: ComparisonOp::NotEqualTo,
        rhs: Sql::value(value),
    };
    PredicateKind::Expression(combo.into_sql())
}

fn is_null_predicate<DB: Database>(table: Option<&str>, column: &str, is_null: bool) -> (r: PredicateKind<DB>)
    ensures
        expression_is(r, is_null_view::<DB>(opt_seq(table), column@, is_null)),
{
    let c = reference_sql(table, column);
    PredicateKind::Expression(if is_null { c.raw_append(" is null") } else { c.raw_append(" is not null") })
}

fn not_in_predicate<DB: Database>(table: Option<&str>, column: &str, sql_in_clause: In<DB>) -> (r: PredicateKind<DB>)
    ensures
        expression_is(r, not_in_view::<DB>(opt_seq(table), column@, sql_in_clause)),
{
    let inner = reference_sql(table, column).append(sql_in_clause.into_sql());
    PredicateKind::Expression(Sql::raw("not ").append(inner))
}

fn in_predicate<DB: Database>(table: Option<&str>, column: &str, sql_in_clause: In<DB>) -> (r: PredicateKind<DB>)
    ensures
        in_is(r, opt_seq(table), column@, sql_in_clause),
{
    PredicateKind::InClause(col_ref(table, column), sql_in_clause)
}

impl<DB: Database> Where<DB> {
    pub fn build() -> (r: WhereLikeBuilder<DB, false, false>)
        ensures
            r.kind == WhereLikeKind::Where,
            r.predicates@.len() == 0,
    {
        WhereLikeBuilder { kind: WhereLikeKind::Where, predicates: Vec::new() }
    }

    pub fn build_with_join() -> (r: WhereLikeBuilder<DB, false, true>)
        ensures
            r.kind == WhereLikeKind::Where,
            r.predicates@.len() == 0,
    {
        WhereLikeBuilder { kind: WhereLikeKind::Where, predicates: Vec::new() }
    }
}

impl<DB: Database> Having<DB> {
    pub fn build() -> (r: WhereLikeBuilder<DB, false, false>)
        ensures
            r.kind == WhereLikeKind::Having,
            r.predicates@.len() == 0,
    {
        WhereLikeBuilder { kind: WhereLikeKind::Having, predicates: Vec::new() }
    }

    pub fn build_with_join() -> (r: WhereLikeBuilder<DB, false, true>)
        ensures
            r.kind == WhereLikeKind::Having,
            r.predicates@.len() == 0,
    {
        WhereLikeBuilder { kind: WhereLikeKind::Having, predicates: Vec::new() }
    }
}

impl<DB: Database> SqlOn<DB> {
    /// An ON clause: it is only opened in join mode.
    pub fn build() -> (r: WhereLikeBuilder<DB, false, true>)
        ensures
            r.kind == WhereLikeKind::On,
            r.predicates@.len() == 0,
    {
        WhereLikeBuilder { kind: WhereLikeKind::On, predicates: Vec::new() }
    }

    /// An ON clause holding the one foreign key equality
    /// `fk_table.fk_column = pk_table.pk_column`.
    pub fn from_fk(fk_table_name: &str, fk_column_name: &str, pk_table_name: &str, pk_column_name: &str) -> (r: Result<
        WhereLike<DB>,
        SyntaxError,
    >)
        ensures
            r is Ok,
            r->Ok_0.kind == WhereLikeKind::On,
            r->Ok_0.predicates@.len() == 1,
            r->Ok_0.predicates@[0].0 == LogicalOp::And,
            expression_is(
                r->Ok_0.predicates@[0].1,
                comparison_view::<DB>(
                    qualified_view::<DB>(fk_table_name@, fk_column_name@),
                    ComparisonOp::EqualTo,
                    qualified_view::<DB>(pk_table_name@, pk_column_name@),
                ),
            ),
    {
        SqlOn::build().fk(fk_table_name, fk_column_name, pk_table_name, pk_column_name).finalize()
    }
}

impl<DB: Database, const HAS_PREDICATES: bool, const HAS_JOIN: bool> WhereLikeBuilder<DB, HAS_PREDICATES, HAS_JOIN> {
    fn push(self, op: LogicalOp, p: PredicateKind<DB>) -> (r: WhereLikeBuilder<DB, true, HAS_JOIN>)
        ensures
            r.kind == self.kind,
            r.predicates@ == self.predicates@.push((op, p)),
    {
        let mut predicates = self.predicates;
        predicates.push((op, p));
        WhereLikeBuilder { kind: self.kind, predicates }
    }

    /// Adds the predicates of another builder after these.
    pub fn merge_with_builder(self, other: WhereLikeBuilder<DB, HAS_PREDICATES, HAS_JOIN>) -> (r: Self)
        ensures
            r.kind == self.kind,
            r.predicates@ == self.predicates@ + other.predicates@,
    {
        let mut predicates = self.predicates;
        let mut more = other.predicates;
        predicates.append(&mut more);
        WhereLikeBuilder { kind: self.kind, predicates }
    }

    /// Adds the predicates of a finalized clause after these.
    pub fn merge_with_clause(self, other: WhereLike<DB>) -> (r: WhereLikeBuilder<DB, true, HAS_JOIN>)
        ensures
            r.kind == self.kind,
            r.predicates@ == self.predicates@ + other.predicates@,
    {
        let mut predicates = self.predicates;
        let mut more = other.predicates;
        predicates.append(&mut more);
        WhereLikeBuilder { kind: self.kind, predicates }
    }
}

impl<DB: Database, const HAS_JOIN: bool> WhereLikeBuilder<DB, false, HAS_JOIN> {
    /// Opens the clause with a parenthesised nested clause.
    pub fn group(self, other: WhereLike<DB>) -> (r: WhereLikeBuilder<DB, true, HAS_JOIN>)
        ensures
            r.kind == self.kind,
            pushed(self.predicates@, r.predicates@, LogicalOp::And),
            r.predicates@.last().1 is Group,
            r.predicates@.last().1->Group_0@ == where_view::<DB>(seq![], other.predicates@),
    {
        let g = render(other, None);
        let r = self.push(LogicalOp::And, PredicateKind::Group(g));
        assert(r.predicates@.drop_last() =~= self.predicates@);
        r
    }

    /// Opens the clause with an arbitrary expression.
    pub fn expression(self, expr: Sql<DB>) -> (r: WhereLikeBuilder<DB, true, HAS_JOIN>)
        ensures
            r.kind == self.kind,
            pushed(self.predicates@, r.predicates@, LogicalOp::And),
            expression_is(r.predicates@.last().1, expr@),
    {
        let r = self.push(LogicalOp::And, PredicateKind::Expression(expr));
        assert(r.predicates@.drop_last() =~= self.predicates@);
        r
    }
}

impl<DB: Database, const HAS_JOIN: bool> WhereLikeBuilder<DB, true, HAS_JOIN> {
    pub fn and_group(self, other: WhereLike<DB>) -> (r: WhereLikeBuilder<DB, true, HAS_JOIN>)
        ensures
            r.kind == self.kind,
            pushed(self.predicates@, r.predicates@, LogicalOp::And),
            r.predicates@.last().1 is Group,
            r.predicates@.last().1->Group_0@ == where_view::<DB>(seq![], other.predicates@),
    {
        let g = render(other, None);
        let r = self.push(LogicalOp::And, PredicateKind::Group(g));
        assert(r.predicates@.drop_last() =~= self.predicates@);
        r
    }

    pub fn or_group(self, other: WhereLike<DB>) -> (r: WhereLikeBuilder<DB, true, HAS_JOIN>)
        ensures
            r.kind == self.kind,
            pushed(self.predicates@, r.predicates@, LogicalOp::Or),
            r.predicates@.last().1 is Group,
            r.predicates@.last().1->Group_0@ == where_view::<DB>(seq![], other.predicates@),
    {
        let g = render(other, None);
        let r = self.push(LogicalOp::Or, PredicateKind::Group(g));
        assert(r.predicates@.drop_last() =~= self.predicates@);
        r
    }

    pub fn and_expression(self, expr: Sql<DB>) -> (r: WhereLikeBuilder<DB, true, HAS_JOIN>)
        ensures
            r.kind == self.kind,
            pushed(self.predicates@, r.predicates@, LogicalOp::And),
            expression_is(r.predicates@.last().1, expr@),
    {
        let r = self.push(LogicalOp::And, PredicateKind::Expression(expr));
        assert(r.predicates@.drop_last() =~= self.predicates@);
        r
    }

    pub fn or_expression(self, expr: Sql<DB>) -> (r: WhereLikeBuilder<DB, true, HAS_JOIN>)
        ensures
            r.kind == self.kind,
            pushed(self.predicates@, r.predicates@, LogicalOp::Or),
            expression_is(r.predicates@.last().1, expr@),
    {
        let r = self.push(LogicalOp::Or, PredicateKind::Expression(expr));
        assert(r.predicates@.drop_last() =~= self.predicates@);
        r
    }

    /// Finalizes the clause; one without predicates is a structural error.
    pub fn finalize(self) -> (r: Result<WhereLike<DB>, SyntaxError>)
        ensures
            self.predicates@.len() > 0 <==> r is Ok,
            r is Ok ==> r->Ok_0.kind == self.kind && r->Ok_0.predicates@ == self.predicates@,
            r is Err ==> r->Err_0.kind == SyntaxErrorKind::MissingWherePredicates,
    {
        if self.predicates.len() == 0 {
            return Err(SyntaxError::new(SyntaxErrorKind::MissingWherePredicates, String::new()));
        }
        Ok(WhereLike { kind: self.kind, predicates: self.predicates })
    }
}
impl<DB: Database> WhereLikeBuilder<DB, false, false> {
    pub fn column_equal_to<V: IntoSqlValue<DB>>(self, name: &str, value: V) -> (r: WhereLikeBuilder<DB, true, false>)
        ensures
            r.kind == self.kind,
            pushed(self.predicates@, r.predicates@, LogicalOp::And),
            pair_is(r.predicates@.last().1, None::<Seq<char>>, name@, value.sql_value_view()),
    {
        let p = pair_predicate(None, name, value);
        let r = self.push(LogicalOp::And, p);
        assert(r.predicates@.drop_last() =~= self.predicates@);
        r
    }

    pub fn column_not_equal_to<V: IntoSqlValue<DB>>(self, name: &str, value: V) -> (r: WhereLikeBuilder<DB, true, false>)
        ensures
            r.kind == self.kind,
            pushed(self.predicates@, r.predicates@, LogicalOp::And),
            expression_is(r.predicates@.last().1, not_equal_view::<DB>(None::<Seq<char>>, name@, value.sql_value_view())),
            value.sql_value_view() is None ==> expression_is(r.predicates@.last().1, is_null_view::<DB>(None::<Seq<char>>, name@, false)),
    {
        let p = not_equal_predicate(None, name, value);
        let r = self.push(LogicalOp::And, p);
        assert(r.predicates@.drop_last() =~= self.predicates@);
        r
    }

    pub fn column_is_null(self, name: &str, is_null: bool) -> (r: WhereLikeBuilder<DB, true, false>)
        ensures
            r.kind == self.kind,
            pushed(self.predicates@, r.predicates@, LogicalOp::And),
            expression_is(r.predicates@.last().1, is_null_view::<DB>(None::<Seq<char>>, name@, is_null)),
    {
        let p = is_null_predicate(None, name, is_null);
        let r = self.push(LogicalOp::And, p);
        assert(r.predicates@.drop_last() =~= self.predicates@);
        r
    }

    pub fn column_in(self, name: &str, sql_in_clause: In<DB>) -> (r: WhereLikeBuilder<DB, true, false>)
        ensures
            r.kind == self.kind,
            pushed(self.predicates@, r.predicates@, LogicalOp::And),
            in_is(r.predicates@.last().1, None::<Seq<char>>, name@, sql_in_clause),
    {
        let p = in_predicate(None, name, sql_in_clause);
        let r = self.push(LogicalOp::And, p);
        assert(r.predicates@.drop_last() =~= self.predicates@);
        r
    }

    pub fn column_not_in(self, name: &str, sql_in_clause: In<DB>) -> (r: WhereLikeBuilder<DB, true, false>)
        ensures
            r.kind == self.kind,
            pushed(self.predicates@, r.predicates@, LogicalOp::And),
            expression_is(r.predicates@.last().1, not_in_view::<DB>(None::<Seq<char>>, name@, sql_in_clause)),
    {
        let p = not_in_predicate(None, name, sql_in_clause);
        let r = self.push(LogicalOp::And, p);
        assert(r.predicates@.drop_last() =~= self.predicates@);
        r
    }

}

impl<DB: Database> WhereLikeBuilder<DB, true, false> {
    pub fn and_column_equal_to<V: IntoSqlValue<DB>>(self, name: &str, value: V) -> (r: WhereLikeBuilder<DB, true, false>)
        ensures
            r.kind == self.kind,
            pushed(self.predicates@, r.predicates@, LogicalOp::And),
            pair_is(r.predicates@.last().1, None::<Seq<char>>, name@, value.sql_value_view()),
    {
        let p = pair_predicate(None, name, value);
        let r = self.push(LogicalOp::And, p);
        assert(r.predicates@.drop_last() =~= self.predicates@);
        r
    }

    pub fn and_column_not_equal_to<V: IntoSqlValue<DB>>(self, name: &str, value: V) -> (r: WhereLikeBuilder<DB, true, false>)
        ensures
            r.kind == self.kind,
            pushed(self.predicates@, r.predicates@, LogicalOp::And),
            expression_is(r.predicates@.last().1, not_equal_view::<DB>(None::<Seq<char>>, name@, value.sql_value_view())),
            value.sql_value_view() is None ==> expression_is(r.predicates@.last().1, is_null_view::<DB>(None::<Seq<char>>, name@, false)),
    {
        let p = not_equal_predicate(None, name, value);
        let r = self.push(LogicalOp::And, p);
        assert(r.predicates@.drop_last() =~= self.predicates@);
        r
    }

    pub fn and_column_is_null(self, name: &str, is_null: bool) -> (r: WhereLikeBuilder<DB, true, false>)
        ensures
            r.kind == self.kind,
            pushed(self.predicates@, r.predicates@, LogicalOp::And),
            expression_is(r.predicates@.last().1, is_null_view::<DB>(None::<Seq<char>>, name@, is_null)),
    {
        let p = is_null_predicate(None, name, is_null);
        let r = self.push(LogicalOp::And, p);
        assert(r.predicates@.drop_last() =~= self.predicates@);
        r
    }

    pub fn and_column_in(self, name: &str, sql_in_clause: In<DB>) -> (r: WhereLikeBuilder<DB, true, false>)
        ensures
            r.kind == self.kind,
            pushed(self.predicates@, r.predicates@, LogicalOp::And),
            in_is(r.predicates@.last().1, None::<Seq<char>>, name@, sql_in_clause),
    {
        let p = in_predicate(None, name, sql_in_clause);
        let r = self.push(LogicalOp::And, p);
        assert(r.predicates@.drop_last() =~= self.predicates@);
        r
    }

    pub fn and_column_not_in(self, name: &str, sql_in_clause: In<DB>) -> (r: WhereLikeBuilder<DB, true, false>)
        ensures
            r.kind == self.kind,
            pushed(self.predicates@, r.predicates@, LogicalOp::And),
            expression_is(r.predicates@.last().1, not_in_view::<DB>(None::<Seq<char>>, name@, sql_in_clause)),
    {
        let p = not_in_predicate(None, name, sql_in_clause);
        let r = self.push(LogicalOp::And, p);
        assert(r.predicates@.drop_last() =~= self.predicates@);
        r
    }

}

impl<DB: Database> WhereLikeBuilder<DB, true, false> {
    pub fn or_column_equal_to<V: IntoSqlValue<DB>>(self, name: &str, value: V) -> (r: WhereLikeBuilder<DB, true, false>)
        ensures
            r.kind == self.kind,
            pushed(self.predicates@, r.predicates@, LogicalOp::Or),
            pair_is(r.predicates@.last().1, None::<Seq<char>>, name@, value.sql_value_view()),
    {
        let p = pair_predicate(None, name, value);
        let r = self.push(LogicalOp::Or, p);
        assert(r.predicates@.drop_last() =~= self.predicates@);
        r
    }

    pub fn or_column_not_equal_to<V: IntoSqlValue<DB>>(self, name: &str, value: V) -> (r: WhereLikeBuilder<DB, true, false>)
        ensures
            r.kind == self.kind,
            pushed(self.predicates@, r.predicates@, LogicalOp::Or),
            expression_is(r.predicates@.last().1, not_equal_view::<DB>(None::<Seq<char>>, name@, value.sql_value_view())),
            value.sql_value_view() is None ==> expression_is(r.predicates@.last().1, is_null_view::<DB>(None::<Seq<char>>, name@, false)),
    {
        let p = not_equal_predicate(None, name, value);
        let r = self.push(LogicalOp::Or, p);
        assert(r.predicates@.drop_last() =~= self.predicates@);
        r
    }

    pub fn or_column_is_null(self, name: &str, is_null: bool) -> (r: WhereLikeBuilder<DB, true, false>)
        ensures
            r.kind == self.kind,
            pushed(self.predicates@, r.predicates@, LogicalOp::Or),
            expression_is(r.predicates@.last().1, is_null_view::<DB>(None::<Seq<char>>, name@, is_null)),
    {
        let p = is_null_predicate(None, name, is_null);
        let r = self.push(LogicalOp::Or, p);
        assert(r.predicates@.drop_last() =~= self.predicates@);
        r
    }

    pub fn or_column_in(self, name: &str, sql_in_clause: In<DB>) -> (r: WhereLikeBuilder<DB, true, false>)
        ensures
            r.kind == self.kind,
            pushed(self.predicates@, r.predicates@, LogicalOp::Or),
            in_is(r.predicates@.last().1, None::<Seq<char>>, name@, sql_in_clause),
    {
        let p = in_predicate(None, name, sql_in_clause);
        let r = self.push(LogicalOp::Or, p);
        assert(r.predicates@.drop_last() =~= self.predicates@);
        r
    }

    pub fn or_column_not_in(self, name: &str, sql_in_clause: In<DB>) -> (r: WhereLikeBuilder<DB, true, false>)
        ensures
            r.kind == self.kind,
            pushed(self.predicates@, r.predicates@, LogicalOp::Or),
            expression_is(r.predicates@.last().1, not_in_view::<DB>(None::<Seq<char>>, name@, sql_in_clause)),
    {
        let p = not_in_predicate(None, name, sql_in_clause);
        let r = self.push(LogicalOp::Or, p);
        assert(r.predicates@.drop_last() =~= self.predicates@);
        r
    }

}

impl<DB: Database> WhereLikeBuilder<DB, false, true> {
    pub fn column_equal_to<V: IntoSqlValue<DB>>(self, table_name: &str, column_name: &str, value: V) -> (r: WhereLikeBuilder<DB, true, true>)
        ensures
            r.kind == self.kind,
            pushed(self.predicates@, r.predicates@, LogicalOp::And),
            pair_is(r.predicates@.last().1, Some(table_name@), column_name@, value.sql_value_view()),
    {
        let p = pair_predicate(Some(table_name), column_name, value);
        let r = self.push(LogicalOp::And, p);
        assert(r.predicates@.drop_last() =~= self.predicates@);
        r
    }

    pub fn column_not_equal_to<V: IntoSqlValue<DB>>(self, table_name: &str, column_name: &str, value: V) -> (r: WhereLikeBuilder<DB, true, true>)
        ensures
            r.kind == self.kind,
            pushed(self.predicates@, r.predicates@, LogicalOp::And),
            expression_is(r.predicates@.last().1, not_equal_view::<DB>(Some(table_name@), column_name@, value.sql_value_view())),
            value.sql_value_view() is None ==> expression_is(r.predicates@.last().1, is_null_view::<DB>(Some(table_name@), column_name@, false)),
    {
        let p = not_equal_predicate(Some(table_name), column_name, value);
        let r = self.push(LogicalOp::And, p);
        assert(r.predicates@.drop_last() =~= self.predicates@);
        r
    }

    pub fn column_is_null(self, table_name: &str, column_name: &str, is_null: bool) -> (r: WhereLikeBuilder<DB, true, true>)
        ensures
            r.kind == self.kind,
            pushed(self.predicates@, r.predicates@, LogicalOp::And),
            expression_is(r.predicates@.last().1, is_null_view::<DB>(Some(table_name@), column_name@, is_null)),
    {
        let p = is_null_predicate(Some(table_name), column_name, is_null);
        let r = self.push(LogicalOp::And, p);
        assert(r.predicates@.drop_last() =~= self.predicates@);
        r
    }

    pub fn column_in(self, table_name: &str, column_name: &str, sql_in_clause: In<DB>) -> (r: WhereLikeBuilder<DB, true, true>)
        ensures
            r.kind == self.kind,
            pushed(self.predicates@, r.predicates@, LogicalOp::And),
            in_is(r.predicates@.last().1, Some(table_name@), column_name@, sql_in_clause),
    {
        let p = in_predicate(Some(table_name), column_name, sql_in_clause);
        let r = self.push(LogicalOp::And, p);
        assert(r.predicates@.drop_last() =~= self.predicates@);
        r
    }

    pub fn column_not_in(self, table_name: &str, column_name: &str, sql_in_clause: In<DB>) -> (r: WhereLikeBuilder<DB, true, true>)
        ensures
            r.kind == self.kind,
            pushed(self.predicates@, r.predicates@, LogicalOp::And),
            expression_is(r.predicates@.last().1, not_in_view::<DB>(Some(table_name@), column_name@, sql_in_clause)),
    {
        let p = not_in_predicate(Some(table_name), column_name, sql_in_clause);
        let r = self.push(LogicalOp::And, p);
        assert(r.predicates@.drop_last() =~= self.predicates@);
        r
    }

}

impl<DB: Database> WhereLikeBuilder<DB, true, true> {
    pub fn and_column_equal_to<V: IntoSqlValue<DB>>(self, table_name: &str, column_name: &str, value: V) -> (r: WhereLikeBuilder<DB, true, true>)
        ensures
            r.kind == self.kind,
            pushed(self.predicates@, r.predicates@, LogicalOp::And),
            pair_is(r.predicates@.last().1, Some(table_name@), column_name@, value.sql_value_view()),
    {
        let p = pair_predicate(Some(table_name), column_name, value);
        let r = self.push(LogicalOp::And, p);
        assert(r.predicates@.drop_last() =~= self.predicates@);
        r
    }

    pub fn and_column_not_equal_to<V: IntoSqlValue<DB>>(self, table_name: &str, column_name: &str, value: V) -> (r: WhereLikeBuilder<DB, true, true>)
        ensures
            r.kind == self.kind,
            pushed(self.predicates@, r.predicates@, LogicalOp::And),
            expression_is(r.predicates@.last().1, not_equal_view::<DB>(Some(table_name@), column_name@, value.sql_value_view())),
            value.sql_value_view() is None ==> expression_is(r.predicates@.last().1, is_null_view::<DB>(Some(table_name@), column_name@, false)),
    {
        let p = not_equal_predicate(Some(table_name), column_name, value);
        let r = self.push(LogicalOp::And, p);
        assert(r.predicates@.drop_last() =~= self.predicates@);
        r
    }

    pub fn and_column_is_null(self, table_name: &str, column_name: &str, is_null: bool) -> (r: WhereLikeBuilder<DB, true, true>)
        ensures
            r.kind == self.kind,
            pushed(self.predicates@, r.predicates@, LogicalOp::And),
            expression_is(r.predicates@.last().1, is_null_view::<DB>(Some(table_name@), column_name@, is_null)),
    {
        let p = is_null_predicate(Some(table_name), column_name, is_null);
        let r = self.push(LogicalOp::And, p);
        assert(r.predicates@.drop_last() =~= self.predicates@);
        r
    }

    pub fn and_column_in(self, table_name: &str, column_name: &str, sql_in_clause: In<DB>) -> (r: WhereLikeBuilder<DB, true, true>)
        ensures
            r.kind == self.kind,
            pushed(self.predicates@, r.predicates@, LogicalOp::And),
            in_is(r.predicates@.last().1, Some(table_name@), column_name@, sql_in_clause),
    {
        let p = in_predicate(Some(table_name), column_name, sql_in_clause);
        let r = self.push(LogicalOp::And, p);
        assert(r.predicates@.drop_last() =~= self.predicates@);
        r
    }

    pub fn and_column_not_in(self, table_name: &str, column_name: &str, sql_in_clause: In<DB>) -> (r: WhereLikeBuilder<DB, true, true>)
        ensures
            r.kind == self.kind,
            pushed(self.predicates@, r.predicates@, LogicalOp::And),
            expression_is(r.predicates@.last().1, not_in_view::<DB>(Some(table_name@), column_name@, sql_in_clause)),
    {
        let p = not_in_predicate(Some(table_name), column_name, sql_in_clause);
        let r = self.push(LogicalOp::And, p);
        assert(r.predicates@.drop_last() =~= self.predicates@);
        r
    }

}

impl<DB: Database> WhereLikeBuilder<DB, true, true> {
    pub fn or_column_equal_to<V: IntoSqlValue<DB>>(self, table_name: &str, column_name: &str, value: V) -> (r: WhereLikeBuilder<DB, true, true>)
        ensures
            r.kind == self.kind,
            pushed(self.predicates@, r.predicates@, LogicalOp::Or),
            pair_is(r.predicates@.last().1, Some(table_name@), column_name@, value.sql_value_view()),
    {
        let p = pair_predicate(Some(table_name), column_name, value);
        let r = self.push(LogicalOp::Or, p);
        assert(r.predicates@.drop_last() =~= self.predicates@);
        r
    }

    pub fn or_column_not_equal_to<V: IntoSqlValue<DB>>(self, table_name: &str, column_name: &str, value: V) -> (r: WhereLikeBuilder<DB, true, true>)
        ensures
            r.kind == self.kind,
            pushed(self.predicates@, r.predicates@, LogicalOp::Or),
            expression_is(r.predicates@.last().1, not_equal_view::<DB>(Some(table_name@), column_name@, value.sql_value_view())),
            value.sql_value_view() is None ==> expression_is(r.predicates@.last().1, is_null_view::<DB>(Some(table_name@), column_name@, false)),
    {
        let p = not_equal_predicate(Some(table_name), column_name, value);
        let r = self.push(LogicalOp::Or, p);
        assert(r.predicates@.drop_last() =~= self.predicates@);
        r
    }

    pub fn or_column_is_null(self, table_name: &str, column_name: &str, is_null: bool) -> (r: WhereLikeBuilder<DB, true, true>)
        ensures
            r.kind == self.kind,
            pushed(self.predicates@, r.predicates@, LogicalOp::Or),
            expression_is(r.predicates@.last().1, is_null_view::<DB>(Some(table_name@), column_name@, is_null)),
    {
        let p = is_null_predicate(Some(table_name), column_name, is_null);
        let r = self.push(LogicalOp::Or, p);
        assert(r.predicates@.drop_last() =~= self.predicates@);
        r
    }

    pub fn or_column_in(self, table_name: &str, column_name: &str, sql_in_clause: In<DB>) -> (r: WhereLikeBuilder<DB, true, true>)
        ensures
            r.kind == self.kind,
            pushed(self.predicates@, r.predicates@, LogicalOp::Or),
            in_is(r.predicates@.last().1, Some(table_name@), column_name@, sql_in_clause),
    {
        let p = in_predicate(Some(table_name), column_name, sql_in_clause);
        let r = self.push(LogicalOp::Or, p);
        assert(r.predicates@.drop_last() =~= self.predicates@);
        r
    }

    pub fn or_column_not_in(self, table_name: &str, column_name: &str, sql_in_clause: In<DB>) -> (r: WhereLikeBuilder<DB, true, true>)
        ensures
            r.kind == self.kind,
            pushed(self.predicates@, r.predicates@, LogicalOp::Or),
            expression_is(r.predicates@.last().1, not_in_view::<DB>(Some(table_name@), column_name@, sql_in_clause)),
    {
        let p = not_in_predicate(Some(table_name), column_name, sql_in_clause);
        let r = self.push(LogicalOp::Or, p);
        assert(r.predicates@.drop_last() =~= self.predicates@);
        r
    }

}

impl<DB: Database> WhereLikeBuilder<DB, false, true> {
    /// Opens an ON clause with a foreign key equality: `fk_table.fk_column = pk_table.pk_column`.
    pub fn fk(self, fk_table_name: &str, fk_column_name: &str, pk_table_name: &str, pk_column_name: &str) -> (r: WhereLikeBuilder<DB, true, true>)
        ensures
            r.kind == self.kind,
            pushed(self.predicates@, r.predicates@, LogicalOp::And),
            expression_is(
                r.predicates@.last().1,
                comparison_view::<DB>(
                    qualified_view::<DB>(fk_table_name@, fk_column_name@),
                    ComparisonOp::EqualTo,
                    qualified_view::<DB>(pk_table_name@, pk_column_name@),
                ),
            ),
    {
        let combo = ComparisonCombo {
            lhs: crate::expression::TableAndColumnReference::<DB>::new(fk_table_name, fk_column_name).into_sql(),
            op: ComparisonOp::EqualTo,
            rhs: crate::expression::TableAndColumnReference::<DB>::new(pk_table_name, pk_column_name).into_sql(),
        };
        self.expression(combo.into_sql())
    }
}

} // verus!
