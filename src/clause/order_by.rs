use vstd::prelude::*;
use vstd::string::*;
use crate::dialect::Database;
use crate::error::{SyntaxError, SyntaxErrorKind};
use crate::expression::{ColumnReference, TableAndColumnReference, identifier_view, qualified_view, then_raw};
use crate::sql::{Sql, SqlView, cat, raw_view, value_view};
use crate::value::{ValueLogicalKind, u32_storage, value_of};

verus! {

/// One entry of an ORDER BY clause; columns carry their direction (`true` for ascending).
#[derive(Debug)]
pub enum PredicateKind<DB: Database> {
    TableAndColumn(String, String, bool),
    Column(String, bool),
    Expression(Sql<DB>),
}

/// A finalized ORDER BY clause, with an optional `(limit, offset)`.
#[derive(Debug)]
pub struct OrderBy<DB: Database> {
    pub predicates: Vec<PredicateKind<DB>>,
    pub limit_and_offset: Option<(u32, u32)>,
}

/// Builds an ORDER BY clause.
#[derive(Debug)]
pub struct OrderByBuilder<DB: Database, const HAS_PREDICATES: bool, const HAS_LIMIT: bool, const HAS_JOIN: bool> {
    pub predicates: Vec<PredicateKind<DB>>,
    pub limit_and_offset: Option<(u32, u32)>,
}

pub open spec fn direction_text(ascending: bool) -> Seq<char> {
    if ascending {
        " asc"@
    } else {
        " desc"@
    }
}

/// Entry `p` appended to `acc`.
pub open spec fn order_item_onto<DB: Database>(acc: SqlView, p: PredicateKind<DB>) -> SqlView {
    match p {
        PredicateKind::TableAndColumn(t, c, asc) => then_raw::<DB>(
            cat::<DB>(acc, qualified_view::<DB>(t@, c@)),
            direction_text(asc),
        ),
        PredicateKind::Column(c, asc) => then_raw::<DB>(cat::<DB>(acc, identifier_view::<DB>(c@)), direction_text(asc)),
        PredicateKind::Expression(e) => cat::<DB>(acc, e@),
    }
}

pub open spec fn order_items_view<DB: Database>(start: SqlView, ps: Seq<PredicateKind<DB>>) -> SqlView
    decreases ps.len(),
{
    if ps.len() == 0 {
        start
    } else {
        let prev = order_items_view::<DB>(start, ps.drop_last());
        order_item_onto::<DB>(if ps.len() > 1 { then_raw::<DB>(prev, ", "@) } else { prev }, ps.last())
    }
}

/// The fragment of a `u32` bound as a value.
pub open spec fn u32_view<DB: Database>(v: u32) -> SqlView {
    value_view::<DB>(value_of(ValueLogicalKind::U32, u32_storage(DB::dialect_spec(), v)))
}

/// The rendering of an ORDER BY clause: the entries, then ` limit n` when a limit was
/// given, and ` offset m` only when the offset is not zero.
pub open spec fn order_by_view<DB: Database>(ps: Seq<PredicateKind<DB>>, lo: Option<(u32, u32)>) -> SqlView {
    let base = order_items_view::<DB>(raw_view("order by "@), ps);
    match lo {
        None => base,
        Some((l, o)) => {
            let with_limit = cat::<DB>(then_raw::<DB>(base, " limit "@), u32_view::<DB>(l));
            if o > 0 {
                cat::<DB>(then_raw::<DB>(with_limit, " offset "@), u32_view::<DB>(o))
            } else {
                with_limit
            }
        },
    }
}

/// `column` (or `table.column`) with its direction as an ORDER BY entry.
pub open spec fn column_entry<DB: Database>(p: PredicateKind<DB>, table: Option<Seq<char>>, column: Seq<char>, asc: bool) -> bool {
    match table {
        Some(t) => p is TableAndColumn && p->TableAndColumn_0@ == t && p->TableAndColumn_1@ == column
            && p->TableAndColumn_2 == asc,
        None => p is Column && p->Column_0@ == column && p->Column_1 == asc,
    }
}

impl<DB: Database> Clone for PredicateKind<DB> {
    fn clone(&self) -> (r: Self)
        ensures
            same_order_item(r, *self),
    {
        match self {
            PredicateKind::TableAndColumn(t, c, a) => PredicateKind::TableAndColumn(t.clone(), c.clone(), *a),
            PredicateKind::Column(c, a) => PredicateKind::Column(c.clone(), *a),
            PredicateKind::Expression(e) => PredicateKind::Expression(e.clone()),
        }
    }
}

/// Entries `p` and `q` render the same after any fragment.
pub open spec fn same_order_item<DB: Database>(p: PredicateKind<DB>, q: PredicateKind<DB>) -> bool {
    forall|acc: SqlView| #[trigger] order_item_onto::<DB>(acc, p) == order_item_onto::<DB>(acc, q)
}

pub open spec fn same_order_items<DB: Database>(a: Seq<PredicateKind<DB>>, b: Seq<PredicateKind<DB>>) -> bool {
    a.len() == b.len() && forall|i: int| 0 <= i < a.len() ==> same_order_item(#[trigger] a[i], b[i])
}

pub proof fn lemma_same_order_items<DB: Database>(start: SqlView, a: Seq<PredicateKind<DB>>, b: Seq<PredicateKind<DB>>)
    requires
        same_order_items(a, b),
    ensures
        order_items_view::<DB>(start, a) == order_items_view::<DB>(start, b),
    decreases a.len(),
{
    if a.len() > 0 {
        assert(same_order_items(a.drop_last(), b.drop_last()));
        lemma_same_order_items(start, a.drop_last(), b.drop_last());
        assert(same_order_item(a[a.len() - 1], b[b.len() - 1]));
    }
}

impl<DB: Database> Clone for OrderBy<DB> {
    /// A copy that renders the same.
    fn clone(&self) -> (r: Self)
        ensures
            r.limit_and_offset == self.limit_and_offset,
            same_order_items(r.predicates@, self.predicates@),
            order_by_view::<DB>(r.predicates@, r.limit_and_offset) == order_by_view::<DB>(self.predicates@, self.limit_and_offset),
    {
        let mut out: Vec<PredicateKind<DB>> = Vec::new();
        let mut i: usize = 0;
        while i < self.predicates.len()
            invariant
                i <= self.predicates@.len(),
                out@.len() == i,
                forall|k: int| 0 <= k < i ==> same_order_item(#[trigger] out@[k], self.predicates@[k]),
            decreases self.predicates@.len() - i,
        {
            out.push(self.predicates[i].clone());
            i = i + 1;
        }
        proof {
            lemma_same_order_items::<DB>(raw_view("order by "@), out@, self.predicates@);
        }
        OrderBy { predicates: out, limit_and_offset: self.limit_and_offset }
    }
}

fn append_item<DB: Database>(acc: Sql<DB>, p: PredicateKind<DB>) -> (r: Sql<DB>)
    ensures
        r@ == order_item_onto::<DB>(acc@, p),
{
    match p {
        PredicateKind::TableAndColumn(t, c, asc) => {
            let s = acc.append(TableAndColumnReference::<DB>::new(t.as_str(), c.as_str()).into_sql());
            s.raw_append(if asc { " asc" } else { " desc" })
        },
        PredicateKind::Column(c, asc) => {
            let s = acc.append(ColumnReference::<DB>::new(c.as_str()).into_sql());
            s.raw_append(if asc { " asc" } else { " desc" })
        },
        PredicateKind::Expression(e) => acc.append(e),
    }
}

impl<DB: Database> OrderBy<DB> {
    pub fn build() -> (r: OrderByBuilder<DB, false, false, false>)
        ensures
            r.predicates@.len() == 0,
            r.limit_and_offset is None,
    {
        OrderByBuilder { predicates: Vec::new(), limit_and_offset: None }
    }

    pub fn build_with_join() -> (r: OrderByBuilder<DB, false, false, true>)
        ensures
            r.predicates@.len() == 0,
            r.limit_and_offset is None,
    {
        OrderByBuilder { predicates: Vec::new(), limit_and_offset: None }
    }

    /// An ORDER BY over `(column, ascending)` pairs; an empty list is a structural error.
    pub fn from_columns(columns: Vec<(&str, bool)>) -> (r: Result<OrderBy<DB>, SyntaxError>)
        ensures
            columns@.len() > 0 <==> r is Ok,
            r is Ok ==> r->Ok_0.limit_and_offset is None && r->Ok_0.predicates@.len() == columns@.len()
                && forall|i: int| 0 <= i < columns@.len() ==> column_entry(#[trigger] r->Ok_0.predicates@[i], None, columns@[i].0@, columns@[i].1),
            r is Err ==> r->Err_0.kind == SyntaxErrorKind::MissingOrderByPredicates,
    {
        OrderByBuilder::<DB, true, false, false>::from_columns(columns).finalize()
    }

    /// An ORDER BY over `(table, column, ascending)` triples; an empty list is a
    /// structural error.
    pub fn from_table_columns(columns: Vec<(&str, &str, bool)>) -> (r: Result<OrderBy<DB>, SyntaxError>)
        ensures
            columns@.len() > 0 <==> r is Ok,
            r is Ok ==> r->Ok_0.limit_and_offset is None && r->Ok_0.predicates@.len() == columns@.len()
                && forall|i: int| 0 <= i < columns@.len() ==> column_entry(#[trigger] r->Ok_0.predicates@[i], Some(columns@[i].0@), columns@[i].1@, columns@[i].2),
            r is Err ==> r->Err_0.kind == SyntaxErrorKind::MissingOrderByPredicates,
    {
        OrderByBuilder::<DB, true, false, true>::from_table_columns(columns).finalize()
    }

    /// Renders `order by`, the entries, and the limit and offset.
    pub fn into_sql(self) -> (r: Sql<DB>)
        ensures
            r@ == order_by_view::<DB>(self.predicates@, self.limit_and_offset),
    {
        let ghost all = self.predicates@;
        let ghost s0 = raw_view("order by "@);
        let n = self.predicates.len();
        let mut rest = self.predicates;
        let mut sql = Sql::raw("order by ");
        let mut i: usize = 0;
        assert(rest@ =~= all.skip(0));
        while rest.len() > 0
            invariant
                all.len() == n,
                i + rest@.len() == n,
                rest@ == all.skip(i as int),
                sql@ == order_items_view::<DB>(s0, all.take(i as int)),
            decreases rest@.len(),
        {
            let p = rest.remove(0);
            if i > 0 {
                sql = sql.raw_append(", ");
            }
            sql = append_item(sql, p);
            assert(all.take(i + 1).drop_last() =~= all.take(i as int));
            assert(all.skip(i as int)[0] == all[i as int]);
            assert(rest@ =~= all.skip(i + 1));
            i = i + 1;
        }
        assert(all.take(n as int) =~= all);
        match self.limit_and_offset {
            Some((limit, offset)) => {
                sql = sql.raw_append(" limit ").append(Sql::value(limit));
                if offset > 0 {
                    sql = sql.raw_append(" offset ").append(Sql::value(offset));
                }
                sql
            },
            None => sql,
        }
    }
}

impl<DB: Database, const HAS_PREDICATES: bool, const HAS_LIMIT: bool, const HAS_JOIN: bool> OrderByBuilder<
    DB,
    HAS_PREDICATES,
    HAS_LIMIT,
    HAS_JOIN,
> {
    fn push(self, p: PredicateKind<DB>) -> (r: OrderByBuilder<DB, true, HAS_LIMIT, HAS_JOIN>)
        ensures
            r.predicates@ == self.predicates@.push(p),
            r.limit_and_offset == self.limit_and_offset,
    {
        let mut predicates = self.predicates;
        predicates.push(p);
        OrderByBuilder { predicates, limit_and_offset: self.limit_and_offset }
    }

    pub fn order_by_expression(self, expr: Sql<DB>) -> (r: OrderByBuilder<DB, true, HAS_LIMIT, HAS_JOIN>)
        ensures
            r.predicates@.len() == self.predicates@.len() + 1,
            r.predicates@.drop_last() == self.predicates@,
            r.predicates@.last() is Expression,
            r.predicates@.last()->Expression_0@ == expr@,
            r.limit_and_offset == self.limit_and_offset,
    {
        let r = self.push(PredicateKind::Expression(expr));
        assert(r.predicates@.drop_last() =~= self.predicates@);
        r
    }
}

impl<DB: Database, const HAS_PREDICATES: bool, const HAS_JOIN: bool> OrderByBuilder<DB, HAS_PREDICATES, false, HAS_JOIN> {
    /// Sets the limit and the offset (an offset of zero is not rendered).
    pub fn limit(self, limit: u32, offset: u32) -> (r: OrderByBuilder<DB, true, true, HAS_JOIN>)
        ensures
            r.predicates@ == self.predicates@,
            r.limit_and_offset == Some((limit, offset)),
    {
        OrderByBuilder { predicates: self.predicates, limit_and_offset: Some((limit, offset)) }
    }
}

impl<DB: Database, const HAS_PREDICATES: bool, const HAS_LIMIT: bool> OrderByBuilder<DB, HAS_PREDICATES, HAS_LIMIT, false> {
    pub fn order_by_column_asc(self, column_name: &str) -> (r: OrderByBuilder<DB, true, HAS_LIMIT, false>)
        ensures
            r.predicates@.len() == self.predicates@.len() + 1,
            r.predicates@.drop_last() == self.predicates@,
            column_entry(r.predicates@.last(), None, column_name@, true),
            r.limit_and_offset == self.limit_and_offset,
    {
        let r = self.push(PredicateKind::Column(String::from_str(column_name), true));
        assert(r.predicates@.drop_last() =~= self.predicates@);
        r
    }

    pub fn order_by_column_desc(self, column_name: &str) -> (r: OrderByBuilder<DB, true, HAS_LIMIT, false>)
        ensures
            r.predicates@.len() == self.predicates@.len() + 1,
            r.predicates@.drop_last() == self.predicates@,
            column_entry(r.predicates@.last(), None, column_name@, false),
            r.limit_and_offset == self.limit_and_offset,
    {
        let r = self.push(PredicateKind::Column(String::from_str(column_name), false));
        assert(r.predicates@.drop_last() =~= self.predicates@);
        r
    }
}

impl<DB: Database, const HAS_PREDICATES: bool, const HAS_LIMIT: bool> OrderByBuilder<DB, HAS_PREDICATES, HAS_LIMIT, true> {
    fn push_table(self, p: PredicateKind<DB>) -> (r: OrderByBuilder<DB, true, HAS_LIMIT, false>)
        ensures
            r.predicates@ == self.predicates@.push(p),
            r.limit_and_offset == self.limit_and_offset,
    {
        let mut predicates = self.predicates;
        predicates.push(p);
        OrderByBuilder { predicates, limit_and_offset: self.limit_and_offset }
    }

    pub fn order_by_column_asc(self, table_name: &str, column_name: &str) -> (r: OrderByBuilder<DB, true, HAS_LIMIT, false>)
        ensures
            r.predicates@.len() == self.predicates@.len() + 1,
            r.predicates@.drop_last() == self.predicates@,
            column_entry(r.predicates@.last(), Some(table_name@), column_name@, true),
            r.limit_and_offset == self.limit_and_offset,
    {
        let r = self.push_table(PredicateKind::TableAndColumn(String::from_str(table_name), String::from_str(column_name), true));
        assert(r.predicates@.drop_last() =~= self.predicates@);
        r
    }

    pub fn order_by_column_desc(self, table_name: &str, column_name: &str) -> (r: OrderByBuilder<DB, true, HAS_LIMIT, false>)
        ensures
            r.predicates@.len() == self.predicates@.len() + 1,
            r.predicates@.drop_last() == self.predicates@,
            column_entry(r.predicates@.last(), Some(table_name@), column_name@, false),
            r.limit_and_offset == self.limit_and_offset,
    {
        let r = self.push_table(PredicateKind::TableAndColumn(String::from_str(table_name), String::from_str(column_name), false));
        assert(r.predicates@.drop_last() =~= self.predicates@);
        r
    }
}

impl<DB: Database> OrderByBuilder<DB, true, false, false> {
    /// A builder holding `(column, ascending)` entries, as when collected from an iterator.
    pub fn from_columns(columns: Vec<(&str, bool)>) -> (r: Self)
        ensures
            r.limit_and_offset is None,
            r.predicates@.len() == columns@.len(),
            forall|i: int| 0 <= i < columns@.len() ==> column_entry(#[trigger] r.predicates@[i], None, columns@[i].0@, columns@[i].1),
    {
        let mut predicates: Vec<PredicateKind<DB>> = Vec::new();
        let mut i: usize = 0;
        while i < columns.len()
            invariant
                i <= columns@.len(),
                predicates@.len() == i,
                forall|j: int| 0 <= j < i ==> column_entry(#[trigger] predicates@[j], None, columns@[j].0@, columns@[j].1),
            decreases columns@.len() - i,
        {
            let (c, asc) = columns[i];
            predicates.push(PredicateKind::Column(String::from_str(c), asc));
            i = i + 1;
        }
        OrderByBuilder { predicates, limit_and_offset: None }
    }
}

impl<DB: Database> OrderByBuilder<DB, true, false, true> {
    /// A builder holding `(table, column, ascending)` entries, as when collected from an
    /// iterator.
    pub fn from_table_columns(columns: Vec<(&str, &str, bool)>) -> (r: Self)
        ensures
            r.limit_and_offset is None,
            r.predicates@.len() == columns@.len(),
            forall|i: int| 0 <= i < columns@.len() ==> column_entry(#[trigger] r.predicates@[i], Some(columns@[i].0@), columns@[i].1@, columns@[i].2),
    {
        let mut predicates: Vec<PredicateKind<DB>> = Vec::new();
        let mut i: usize = 0;
        while i < columns.len()
            invariant
                i <= columns@.len(),
                predicates@.len() == i,
                forall|j: int| 0 <= j < i ==> column_entry(#[trigger] predicates@[j], Some(columns@[j].0@), columns@[j].1@, columns@[j].2),
            decreases columns@.len() - i,
        {
            let (t, c, asc) = columns[i];
            predicates.push(PredicateKind::TableAndColumn(String::from_str(t), String::from_str(c), asc));
            i = i + 1;
        }
        OrderByBuilder { predicates, limit_and_offset: None }
    }
}

impl<DB: Database, const HAS_LIMIT: bool, const HAS_JOIN: bool> OrderByBuilder<DB, true, HAS_LIMIT, HAS_JOIN> {
    /// Finalizes the clause; one without entries is a structural error.
    pub fn finalize(self) -> (r: Result<OrderBy<DB>, SyntaxError>)
        ensures
            self.predicates@.len() > 0 <==> r is Ok,
            r is Ok ==> r->Ok_0.predicates@ == self.predicates@ && r->Ok_0.limit_and_offset == self.limit_and_offset,
            r is Err ==> r->Err_0.kind == SyntaxErrorKind::MissingOrderByPredicates,
    {
        if self.predicates.len() == 0 {
            return Err(SyntaxError::new(SyntaxErrorKind::MissingOrderByPredicates, String::new()));
        }
        Ok(OrderBy { predicates: self.predicates, limit_and_offset: self.limit_and_offset })
    }
}

} // verus!
