use vstd::prelude::*;
use vstd::string::*;
use crate::clause::where_like::{WhereLike, render, where_view};
use crate::dialect::Database;
use crate::error::SyntaxError;
use crate::expression::{ColumnReference, TableReference, identifier_view, then_raw, wrapped};
use crate::sql::{Sql, SqlView, cat, raw_view};
use crate::statement::select::{Select, select_view};

verus! {

/// How a table is joined to those before it.
#[derive(Clone, Copy, Debug, PartialEq, Eq, Structural)]
pub enum JoinKind {
    Inner,
    Left,
    Right,
}

/// A table reference: a table name, or a subquery held as its rendered fragment.
#[derive(Debug)]
pub enum TableReferenceKind<DB: Database> {
    TableName(String),
    Subquery(Sql<DB>),
}

/// One table of a FROM clause, with its alias and, after the first, how it is joined.
#[derive(Debug)]
pub struct JoinedTable<DB: Database> {
    pub table_reference_kind: TableReferenceKind<DB>,
    pub alias: Option<String>,
    pub join: Option<(JoinKind, Option<WhereLike<DB>>)>,
}

/// The ordered tables of a FROM clause: the first unconditional, each later one joined.
#[derive(Debug)]
pub struct Join<DB: Database> {
    pub joined_tables: Vec<JoinedTable<DB>>,
}

/// Builds a list of joined tables.
#[derive(Debug)]
pub struct JoinBuilder<DB: Database> {
    pub joined_tables: Vec<JoinedTable<DB>>,
}

pub open spec fn join_kind_text(k: JoinKind) -> Seq<char> {
    match k {
        JoinKind::Inner => " inner join "@,
        JoinKind::Left => " left join "@,
        JoinKind::Right => " right join "@,
    }
}

pub open spec fn table_reference_view<DB: Database>(t: TableReferenceKind<DB>) -> SqlView {
    match t {
        TableReferenceKind::TableName(n) => identifier_view::<DB>(n@),
        TableReferenceKind::Subquery(q) => wrapped::<DB>("("@, q@, ")"@),
    }
}

/// Table `jt` appended to `acc`: its join keyword, the table, its alias, its ON clause.
pub open spec fn joined_table_onto<DB: Database>(acc: SqlView, jt: JoinedTable<DB>) -> SqlView {
    let a1 = match jt.join {
        Some(j) => then_raw::<DB>(acc, join_kind_text(j.0)),
        None => acc,
    };
    let a2 = cat::<DB>(a1, table_reference_view::<DB>(jt.table_reference_kind));
    let a3 = match jt.alias {
        Some(alias) => cat::<DB>(then_raw::<DB>(a2, " "@), identifier_view::<DB>(alias@)),
        None => a2,
    };
    match jt.join {
        Some(j) => match j.1 {
            Some(on) => cat::<DB>(then_raw::<DB>(a3, " "@), where_view::<DB>("on "@, on.predicates@)),
            None => a3,
        },
        None => a3,
    }
}

pub open spec fn joined_tables_view<DB: Database>(start: SqlView, ts: Seq<JoinedTable<DB>>) -> SqlView
    decreases ts.len(),
{
    if ts.len() == 0 {
        start
    } else {
        joined_table_onto::<DB>(joined_tables_view::<DB>(start, ts.drop_last()), ts.last())
    }
}

pub open spec fn join_view<DB: Database>(ts: Seq<JoinedTable<DB>>) -> SqlView {
    joined_tables_view::<DB>(raw_view(seq![]), ts)
}

/// Table `jt` is `t`, aliased `alias`, joined by `kind` on `on`.
pub open spec fn joined_is<DB: Database>(jt: JoinedTable<DB>, t: TableReferenceKind<DB>, alias: Seq<char>, kind: JoinKind, on: WhereLike<DB>) -> bool {
    jt.table_reference_kind == t && jt.alias is Some && jt.alias->0@ == alias && jt.join == Some((kind, Some(on)))
}

impl<DB: Database> TableReferenceKind<DB> {
    pub fn table(name: &str) -> (r: Self)
        ensures
            r is TableName,
            r->TableName_0@ == name@,
    {
        TableReferenceKind::TableName(String::from_str(name))
    }

    pub fn subquery(select_statement: Select<DB>) -> (r: Self)
        ensures
            r is Subquery,
            r->Subquery_0@ == select_view::<DB>(select_statement),
    {
        TableReferenceKind::Subquery(select_statement.into_sql())
    }
}

impl<DB: Database> Clone for TableReferenceKind<DB> {
    fn clone(&self) -> (r: Self)
        ensures
            table_reference_view::<DB>(r) == table_reference_view::<DB>(*self),
    {
        match self {
            TableReferenceKind::TableName(n) => TableReferenceKind::TableName(n.clone()),
            TableReferenceKind::Subquery(q) => TableReferenceKind::Subquery(q.clone()),
        }
    }
}

/// Tables `p` and `q` render the same after any fragment.
pub open spec fn same_joined_table<DB: Database>(p: JoinedTable<DB>, q: JoinedTable<DB>) -> bool {
    forall|acc: SqlView| #[trigger] joined_table_onto::<DB>(acc, p) == joined_table_onto::<DB>(acc, q)
}

pub open spec fn same_joined_tables<DB: Database>(a: Seq<JoinedTable<DB>>, b: Seq<JoinedTable<DB>>) -> bool {
    a.len() == b.len() && forall|i: int| 0 <= i < a.len() ==> same_joined_table(#[trigger] a[i], b[i])
}

pub proof fn lemma_same_joined_tables<DB: Database>(start: SqlView, a: Seq<JoinedTable<DB>>, b: Seq<JoinedTable<DB>>)
    requires
        same_joined_tables(a, b),
    ensures
        joined_tables_view::<DB>(start, a) == joined_tables_view::<DB>(start, b),
    decreases a.len(),
{
    if a.len() > 0 {
        assert(same_joined_tables(a.drop_last(), b.drop_last()));
        lemma_same_joined_tables(start, a.drop_last(), b.drop_last());
        assert(same_joined_table(a[a.len() - 1], b[b.len() - 1]));
    }
}

impl<DB: Database> Clone for JoinedTable<DB> {
    /// A copy that renders the same.
    fn clone(&self) -> (r: Self)
        ensures
            same_joined_table(r, *self),
    {
        let alias = match &self.alias {
            Some(a) => Some(a.clone()),
            None => None,
        };
        let join = match &self.join {
            Some((kind, Some(on))) => Some((*kind, Some(on.clone()))),
            Some((kind, None)) => Some((*kind, None)),
            None => None,
        };
        JoinedTable { table_reference_kind: self.table_reference_kind.clone(), alias, join }
    }
}

impl<DB: Database> Clone for Join<DB> {
    /// A copy that renders the same.
    fn clone(&self) -> (r: Self)
        ensures
            same_joined_tables(r.joined_tables@, self.joined_tables@),
            join_view::<DB>(r.joined_tables@) == join_view::<DB>(self.joined_tables@),
    {
        let mut out: Vec<JoinedTable<DB>> = Vec::new();
        let mut i: usize = 0;
        while i < self.joined_tables.len()
            invariant
                i <= self.joined_tables@.len(),
                out@.len() == i,
                forall|k: int| 0 <= k < i ==> same_joined_table(#[trigger] out@[k], self.joined_tables@[k]),
            decreases self.joined_tables@.len() - i,
        {
            out.push(self.joined_tables[i].clone());
            i = i + 1;
        }
        proof {
            lemma_same_joined_tables::<DB>(raw_view(seq![]), out@, self.joined_tables@);
        }
        Join { joined_tables: out }
    }
}

fn append_joined_table<DB: Database>(acc: Sql<DB>, jt: JoinedTable<DB>) -> (r: Sql<DB>)
    ensures
        r@ == joined_table_onto::<DB>(acc@, jt),
{
    let JoinedTable { table_reference_kind, alias, join } = jt;
    let mut sql = acc;
    let mut on_clause: Option<WhereLike<DB>> = None;
    match join {
        Some((kind, on)) => {
            let text = match kind {
                JoinKind::Inner => " inner join ",
                JoinKind::Left => " left join ",
                JoinKind::Right => " right join ",
            };
            sql = sql.raw_append(text);
            on_clause = on;
        },
        None => {},
    }
    let table = match table_reference_kind {
        TableReferenceKind::TableName(n) => TableReference::<DB>::new(n.as_str()).into_sql(),
        TableReferenceKind::Subquery(q) => Sql::raw("(").append(q).raw_append(")"),
    };
    sql = sql.append(table);
    match alias {
        Some(a) => {
            sql = sql.raw_append(" ").append(ColumnReference::<DB>::new(a.as_str()).into_sql());
        },
        None => {},
    }
    match on_clause {
        Some(on) => sql.raw_append(" ").append(render(on, Some("on "))),
        None => sql,
    }
}

impl<DB: Database> Join<DB> {
    pub fn build(table_reference_kind: TableReferenceKind<DB>, alias: &str) -> (r: JoinBuilder<DB>)
        ensures
            r.joined_tables@.len() == 1,
            r.joined_tables@[0].table_reference_kind == table_reference_kind,
            r.joined_tables@[0].alias is Some,
            r.joined_tables@[0].alias->0@ == alias@,
            r.joined_tables@[0].join is None,
    {
        let mut joined_tables = Vec::new();
        joined_tables.push(JoinedTable { table_reference_kind, alias: Some(String::from_str(alias)), join: None });
        JoinBuilder { joined_tables }
    }

    /// A single table without alias.
    pub fn from_table_name(table_name: &str) -> (r: Self)
        ensures
            r.joined_tables@.len() == 1,
            r.joined_tables@[0].table_reference_kind is TableName,
            r.joined_tables@[0].table_reference_kind->TableName_0@ == table_name@,
            r.joined_tables@[0].alias is None,
            r.joined_tables@[0].join is None,
    {
        let mut joined_tables = Vec::new();
        joined_tables.push(JoinedTable { table_reference_kind: TableReferenceKind::table(table_name), alias: None, join: None });
        Join { joined_tables }
    }

    /// Renders the tables in order, each joined table with its keyword and ON clause.
    pub fn into_sql(self) -> (r: Sql<DB>)
        ensures
            r@ == join_view::<DB>(self.joined_tables@),
    {
        let ghost all = self.joined_tables@;
        proof {
            reveal_strlit("");
            assert(""@ =~= Seq::<char>::empty());
        }
        let mut sql = Sql::raw("");
        let ghost s0 = sql@;
        let n = self.joined_tables.len();
        let mut rest = self.joined_tables;
        let mut i: usize = 0;
        assert(rest@ =~= all.skip(0));
        while rest.len() > 0
            invariant
                all.len() == n,
                i + rest@.len() == n,
                rest@ == all.skip(i as int),
                sql@ == joined_tables_view::<DB>(s0, all.take(i as int)),
            decreases rest@.len(),
        {
            let jt = rest.remove(0);
            sql = append_joined_table(sql, jt);
            assert(all.take(i + 1).drop_last() =~= all.take(i as int));
            assert(all.skip(i as int)[0] == all[i as int]);
            assert(rest@ =~= all.skip(i + 1));
            i = i + 1;
        }
        assert(all.take(n as int) =~= all);
        sql
    }
}

impl<DB: Database> JoinBuilder<DB> {
    fn push(self, table_reference: TableReferenceKind<DB>, alias: &str, kind: JoinKind, on: WhereLike<DB>) -> (r: Self)
        ensures
            r.joined_tables@.len() == self.joined_tables@.len() + 1,
            r.joined_tables@.drop_last() == self.joined_tables@,
            joined_is(r.joined_tables@.last(), table_reference, alias@, kind, on),
    {
        let mut joined_tables = self.joined_tables;
        joined_tables.push(
            JoinedTable { table_reference_kind: table_reference, alias: Some(String::from_str(alias)), join: Some((kind, Some(on))) },
        );
        assert(joined_tables@.drop_last() =~= self.joined_tables@);
        JoinBuilder { joined_tables }
    }

    pub fn inner_join(self, table_reference: TableReferenceKind<DB>, alias: &str, on: WhereLike<DB>) -> (r: Self)
        ensures
            r.joined_tables@.len() == self.joined_tables@.len() + 1,
            r.joined_tables@.drop_last() == self.joined_tables@,
            joined_is(r.joined_tables@.last(), table_reference, alias@, JoinKind::Inner, on),
    {
        self.push(table_reference, alias, JoinKind::Inner, on)
    }

    pub fn left_join(self, table_reference: TableReferenceKind<DB>, alias: &str, on: WhereLike<DB>) -> (r: Self)
        ensures
            r.joined_tables@.len() == self.joined_tables@.len() + 1,
            r.joined_tables@.drop_last() == self.joined_tables@,
            joined_is(r.joined_tables@.last(), table_reference, alias@, JoinKind::Left, on),
    {
        self.push(table_reference, alias, JoinKind::Left, on)
    }

    pub fn right_join(self, table_reference: TableReferenceKind<DB>, alias: &str, on: WhereLike<DB>) -> (r: Self)
        ensures
            r.joined_tables@.len() == self.joined_tables@.len() + 1,
            r.joined_tables@.drop_last() == self.joined_tables@,
            joined_is(r.joined_tables@.last(), table_reference, alias@, JoinKind::Right, on),
    {
        self.push(table_reference, alias, JoinKind::Right, on)
    }

    pub fn finalize(self) -> (r: Result<Join<DB>, SyntaxError>)
        ensures
            r is Ok,
            r->Ok_0.joined_tables@ == self.joined_tables@,
    {
        Ok(Join { joined_tables: self.joined_tables })
    }
}

} // verus!
