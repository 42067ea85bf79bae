use vstd::prelude::*;
use vstd::string::*;
use crate::dialect::Database;
use crate::error::{SyntaxError, SyntaxErrorKind};
use crate::expression::{ColumnReference, TableAndColumnReference, identifier_view, qualified_view, then_raw};
use crate::sql::{Sql, SqlView, cat, raw_view};

verus! {

/// One entry of a GROUP BY clause.
#[derive(Debug)]
pub enum PredicateKind<DB: Database> {
    TableAndColumn(String, String),
    Column(String),
    Expression(Sql<DB>),
}

/// A finalized GROUP BY clause.
#[derive(Debug)]
pub struct GroupBy<DB: Database> {
    pub predicates: Vec<PredicateKind<DB>>,
}

/// Builds a GROUP BY clause.
#[derive(Debug)]
pub struct GroupByBuilder<DB: Database, const HAS_PREDICATES: bool, const HAS_JOIN: bool> {
    pub predicates: Vec<PredicateKind<DB>>,
}

pub open spec fn group_item_view<DB: Database>(p: PredicateKind<DB>) -> SqlView {
    match p {
        PredicateKind::TableAndColumn(t, c) => qualified_view::<DB>(t@, c@),
        PredicateKind::Column(c) => identifier_view::<DB>(c@),
        PredicateKind::Expression(e) => e@,
    }
}

/// `start` followed by the entries, separated by `, `.
pub open spec fn group_items_view<DB: Database>(start: SqlView, ps: Seq<PredicateKind<DB>>) -> SqlView
    decreases ps.len(),
{
    if ps.len() == 0 {
        start
    } else {
        let prev = group_items_view::<DB>(start, ps.drop_last());
        cat::<DB>(if ps.len() > 1 { then_raw::<DB>(prev, ", "@) } else { prev }, group_item_view::<DB>(ps.last()))
    }
}

pub open spec fn group_by_view<DB: Database>(ps: Seq<PredicateKind<DB>>) -> SqlView {
    group_items_view::<DB>(raw_view("group by "@), ps)
}

/// `column` (or `table.column`) as a GROUP BY entry.
pub open spec fn column_entry<DB: Database>(p: PredicateKind<DB>, table: Option<Seq<char>>, column: Seq<char>) -> bool {
    match table {
        Some(t) => p is TableAndColumn && p->TableAndColumn_0@ == t && p->TableAndColumn_1@ == column,
        None => p is Column && p->Column_0@ == column,
    }
}

impl<DB: Database> Clone for PredicateKind<DB> {
    fn clone(&self) -> (r: Self)
        ensures
            group_item_view::<DB>(r) == group_item_view::<DB>(*self),
    {
        match self {
            PredicateKind::TableAndColumn(t, c) => PredicateKind::TableAndColumn(t.clone(), c.clone()),
            PredicateKind::Column(c) => PredicateKind::Column(c.clone()),
            PredicateKind::Expression(e) => PredicateKind::Expression(e.clone()),
        }
    }
}

/// Two entry lists that render the same one by one.
pub open spec fn same_group_items<DB: Database>(a: Seq<PredicateKind<DB>>, b: Seq<PredicateKind<DB>>) -> bool {
    a.len() == b.len() && forall|i: int| 0 <= i < a.len() ==> group_item_view::<DB>(#[trigger] a[i]) == group_item_view::<DB>(b[i])
}

pub proof fn lemma_same_group_items<DB: Database>(start: SqlView, a: Seq<PredicateKind<DB>>, b: Seq<PredicateKind<DB>>)
    requires
        same_group_items(a, b),
    ensures
        group_items_view::<DB>(start, a) == group_items_view::<DB>(start, b),
    decreases a.len(),
{
    if a.len() > 0 {
        assert(same_group_items(a.drop_last(), b.drop_last()));
        lemma_same_group_items(start, a.drop_last(), b.drop_last());
        assert(group_item_view::<DB>(a[a.len() - 1]) == group_item_view::<DB>(b[b.len() - 1]));
    }
}

impl<DB: Database> Clone for GroupBy<DB> {
    /// A copy that renders the same.
    fn clone(&self) -> (r: Self)
        ensures
            same_group_items(r.predicates@, self.predicates@),
            group_by_view::<DB>(r.predicates@) == group_by_view::<DB>(self.predicates@),
    {
        let mut out: Vec<PredicateKind<DB>> = Vec::new();
        let mut i: usize = 0;
        while i < self.predicates.len()
            invariant
                i <= self.predicates@.len(),
                out@.len() == i,
                forall|k: int| 0 <= k < i ==> group_item_view::<DB>(#[trigger] out@[k]) == group_item_view::<DB>(self.predicates@[k]),
            decreases self.predicates@.len() - i,
        {
            out.push(self.predicates[i].clone());
            i = i + 1;
        }
        proof {
            lemma_same_group_items::<DB>(raw_view("group by "@), out@, self.predicates@);
        }
        GroupBy { predicates: out }
    }
}

fn item_sql<DB: Database>(p: PredicateKind<DB>) -> (r: Sql<DB>)
    ensures
        r@ == group_item_view::<DB>(p),
{
    match p {
        PredicateKind::TableAndColumn(t, c) => TableAndColumnReference::<DB>::new(t.as_str(), c.as_str()).into_sql(),
        PredicateKind::Column(c) => ColumnReference::<DB>::new(c.as_str()).into_sql(),
        PredicateKind::Expression(e) => e,
    }
}

impl<DB: Database> GroupBy<DB> {
    pub fn build() -> (r: GroupByBuilder<DB, false, false>)
        ensures
            r.predicates@.len() == 0,
    {
        GroupByBuilder { predicates: Vec::new() }
    }

    pub fn build_with_join() -> (r: GroupByBuilder<DB, false, true>)
        ensures
            r.predicates@.len() == 0,
    {
        GroupByBuilder { predicates: Vec::new() }
    }

    /// A GROUP BY over the named columns; an empty list is a structural error.
    pub fn from_columns(columns: Vec<&str>) -> (r: Result<GroupBy<DB>, SyntaxError>)
        ensures
            columns@.len() > 0 <==> r is Ok,
            r is Ok ==> r->Ok_0.predicates@.len() == columns@.len() && forall|i: int|
                0 <= i < columns@.len() ==> column_entry(#[trigger] r->Ok_0.predicates@[i], None, columns@[i]@),
            r is Err ==> r->Err_0.kind == SyntaxErrorKind::MissingGroupByPredicates,
    {
        GroupByBuilder::<DB, true, false>::from_columns(columns).finalize()
    }

    /// Renders `group by` and the entries, separated by `, `.
    pub fn into_sql(self) -> (r: Sql<DB>)
        ensures
            r@ == group_by_view::<DB>(self.predicates@),
    {
        let ghost all = self.predicates@;
        let ghost s0 = raw_view("group by "@);
        let n = self.predicates.len();
        let mut rest = self.predicates;
        let mut sql = Sql::raw("group by ");
        let mut i: usize = 0;
        assert(rest@ =~= all.skip(0));
        while rest.len() > 0
            invariant
                all.len() == n,
                i + rest@.len() == n,
                rest@ == all.skip(i as int),
                sql@ == group_items_view::<DB>(s0, all.take(i as int)),
            decreases rest@.len(),
        {
            let p = rest.remove(0);
            if i > 0 {
                sql = sql.raw_append(", ");
            }
            sql = sql.append(item_sql(p));
            assert(all.take(i + 1).drop_last() =~= all.take(i as int));
            assert(all.skip(i as int)[0] == all[i as int]);
            assert(rest@ =~= all.skip(i + 1));
            i = i + 1;
        }
        assert(all.take(n as int) =~= all);
        sql
    }
}

impl<DB: Database, const HAS_PREDICATES: bool, const HAS_JOIN: bool> GroupByBuilder<DB, HAS_PREDICATES, HAS_JOIN> {
    pub fn group_by_expression(self, expr: Sql<DB>) -> (r: GroupByBuilder<DB, true, HAS_JOIN>)
        ensures
            r.predicates@.len() == self.predicates@.len() + 1,
            r.predicates@.drop_last() == self.predicates@,
            r.predicates@.last() is Expression,
            r.predicates@.last()->Expression_0@ == expr@,
    {
        let mut predicates = self.predicates;
        predicates.push(PredicateKind::Expression(expr));
        assert(predicates@.drop_last() =~= self.predicates@);
        GroupByBuilder { predicates }
    }
}

impl<DB: Database, const HAS_PREDICATES: bool> GroupByBuilder<DB, HAS_PREDICATES, false> {
    pub fn group_by_column(self, column_name: &str) -> (r: GroupByBuilder<DB, true, false>)
        ensures
            r.predicates@.len() == self.predicates@.len() + 1,
            r.predicates@.drop_last() == self.predicates@,
            column_entry(r.predicates@.last(), None, column_name@),
    {
        let mut predicates = self.predicates;
        predicates.push(PredicateKind::Column(String::from_str(column_name)));
        assert(predicates@.drop_last() =~= self.predicates@);
        GroupByBuilder { predicates }
    }
}

impl<DB: Database, const HAS_PREDICATES: bool> GroupByBuilder<DB, HAS_PREDICATES, true> {
    pub fn group_by_column(self, table_name: &str, column_name: &str) -> (r: GroupByBuilder<DB, true, false>)
        ensures
            r.predicates@.len() == self.predicates@.len() + 1,
            r.predicates@.drop_last() == self.predicates@,
            column_entry(r.predicates@.last(), Some(table_name@), column_name@),
    {
        let mut predicates = self.predicates;
        predicates.push(PredicateKind::TableAndColumn(String::from_str(table_name), String::from_str(column_name)));
        assert(predicates@.drop_last() =~= self.predicates@);
        GroupByBuilder { predicates }
    }
}

impl<DB: Database> GroupByBuilder<DB, true, false> {
    /// A builder holding the named columns, as when collected from an iterator.
    pub fn from_columns(columns: Vec<&str>) -> (r: Self)
        ensures
            r.predicates@.len() == columns@.len(),
            forall|i: int| 0 <= i < columns@.len() ==> column_entry(#[trigger] r.predicates@[i], None, columns@[i]@),
    {
        let mut predicates: Vec<PredicateKind<DB>> = Vec::new();
        let mut i: usize = 0;
        while i < columns.len()
            invariant
                i <= columns@.len(),
                predicates@.len() == i,
                forall|j: int| 0 <= j < i ==> column_entry(#[trigger] predicates@[j], None, columns@[j]@),
            decreases columns@.len() - i,
        {
            predicates.push(PredicateKind::Column(String::from_str(columns[i])));
            i = i + 1;
        }
        GroupByBuilder { predicates }
    }
}

impl<DB: Database, const HAS_JOIN: bool> GroupByBuilder<DB, true, HAS_JOIN> {
    /// Finalizes the clause; one without entries is a structural error.
    pub fn finalize(self) -> (r: Result<GroupBy<DB>, SyntaxError>)
        ensures
            self.predicates@.len() > 0 <==> r is Ok,
            r is Ok ==> r->Ok_0.predicates@ == self.predicates@,
            r is Err ==> r->Err_0.kind == SyntaxErrorKind::MissingGroupByPredicates,
    {
        if self.predicates.len() == 0 {
            return Err(SyntaxError::new(SyntaxErrorKind::MissingGroupByPredicates, String::new()));
        }
        Ok(GroupBy { predicates: self.predicates })
    }
}

} // verus!
