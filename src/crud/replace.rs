use vstd::prelude::*;
use vstd::string::*;
use crate::clause::where_like::{ColRef, PredicateKind, WhereLike, WhereLikeBuilder, WhereLikeKind, col_is, pair_is};
use crate::dialect::Database;
use crate::error::{CrudError, CrudErrorKind, ExecuteError, SyntaxErrorKind};
use crate::expression::LogicalOp;
use crate::function::count;
use crate::clause::sql_join::JoinedTable;
use crate::clause::where_like::where_view;
use crate::expression::{identifier_view, then_raw, wrapped};
use crate::sql::{FrozenSql, Sql, SqlView, cat, clone_value, raw_view};
use crate::statement::select::{SelectPredicateKind, select_items_view};
use crate::clause::sql_from::{from_view, single_table};
use crate::value::values_view;
use crate::statement::insert::Insert;
use crate::statement::select::Select;
use crate::statement::update::Update;
use crate::value::{IntoSqlValue, Value, ValueView, opt_view};

verus! {

/// A column assignment of a replace, tagged with the operations it takes part in.
#[derive(Debug)]
pub struct Modification<DB: Database> {
    pub name: String,
    pub value: Option<Value<DB>>,
    pub update: bool,
    pub insert: bool,
}

/// Inserts a row, or updates it when it exists; the row is identified by the key
/// columns. `HAS_KEYS` and `HAS_UPDATES` record that keys and a modification were given.
#[derive(Debug)]
pub struct ReplaceBuilder<DB: Database, const HAS_KEYS: bool, const HAS_UPDATES: bool> {
    pub table_name: String,
    pub modifications: Vec<Modification<DB>>,
    pub keys: Vec<String>,
}

/// The next step of a replace, once the number of matching rows is known.
#[derive(Debug)]
pub enum ReplaceAction<DB: Database> {
    Insert(Insert<DB>),
    Update(Update<DB>),
    Nothing,
}

/// A replace ready to run: the existence check to execute first, and what the
/// decision after it needs.
#[derive(Debug)]
pub struct ReplacePlan<DB: Database> {
    pub count_query: FrozenSql<DB>,
    pub table_name: String,
    pub modifications: Vec<Modification<DB>>,
    pub key_where: WhereLike<DB>,
}

pub open spec fn modification_view<DB: Database>(m: Modification<DB>) -> (Seq<char>, Option<ValueView>) {
    (m.name@, opt_view(m.value))
}

/// The insert-tagged modifications, in order.
pub open spec fn insert_modifications<DB: Database>(ms: Seq<Modification<DB>>) -> Seq<(Seq<char>, Option<ValueView>)>
    decreases ms.len(),
{
    if ms.len() == 0 {
        seq![]
    } else {
        insert_modifications(ms.drop_last()) + if ms.last().insert {
            seq![modification_view(ms.last())]
        } else {
            seq![]
        }
    }
}

/// The update-tagged modifications, in order.
pub open spec fn update_modifications<DB: Database>(ms: Seq<Modification<DB>>) -> Seq<(Seq<char>, Option<ValueView>)>
    decreases ms.len(),
{
    if ms.len() == 0 {
        seq![]
    } else {
        update_modifications(ms.drop_last()) + if ms.last().update {
            seq![modification_view(ms.last())]
        } else {
            seq![]
        }
    }
}

/// The value that the first modification of column `k` supplies; absent (SQL NULL)
/// when none does.
pub open spec fn key_value<DB: Database>(ms: Seq<Modification<DB>>, k: Seq<char>) -> Option<ValueView>
    decreases ms.len(),
{
    if ms.len() == 0 {
        None
    } else if ms[0].name@ == k {
        opt_view(ms[0].value)
    } else {
        key_value(ms.skip(1), k)
    }
}

pub open spec fn insert_pairs_view<DB: Database>(ps: Seq<(String, Option<Value<DB>>)>) -> Seq<(Seq<char>, Option<ValueView>)> {
    ps.map_values(|p: (String, Option<Value<DB>>)| (p.0@, opt_view(p.1)))
}

pub open spec fn set_pairs_view<DB: Database>(ps: Seq<(ColRef, Option<Value<DB>>)>) -> Seq<(Seq<char>, Option<ValueView>)> {
    ps.map_values(|p: (ColRef, Option<Value<DB>>)| (p.0.column_name@, opt_view(p.1)))
}

/// The key WHERE clause: `key = value` for each key column in order, joined by `and`.
pub open spec fn key_where_is<DB: Database>(w: WhereLike<DB>, keys: Seq<String>, ms: Seq<Modification<DB>>) -> bool {
    &&& w.kind == WhereLikeKind::Where
    &&& w.predicates@.len() == keys.len()
    &&& forall|i: int|
        0 <= i < keys.len() ==> (#[trigger] w.predicates@[i]).0 == LogicalOp::And && pair_is(
            w.predicates@[i].1,
            None,
            keys[i]@,
            key_value(ms, keys[i]@),
        )
}

/// The existence check of a replace: `select count(*) as cnt from <table> where <keys>`.
pub open spec fn count_query_view<DB: Database>(table: Seq<char>, ps: Seq<(LogicalOp, PredicateKind<DB>)>) -> SqlView {
    let list = cat::<DB>(
        then_raw::<DB>(cat::<DB>(raw_view("select "@), wrapped::<DB>("count("@, raw_view("*"@), ")"@)), " as "@),
        identifier_view::<DB>("cnt"@),
    );
    let from = cat::<DB>(raw_view("from "@), cat::<DB>(raw_view(seq![]), identifier_view::<DB>(table)));
    cat::<DB>(then_raw::<DB>(cat::<DB>(then_raw::<DB>(list, " "@), from), " "@), where_view::<DB>("where "@, ps))
}

pub fn replace_row<DB: Database>(table_name: &str) -> (r: ReplaceBuilder<DB, false, false>)
    ensures
        r.table_name@ == table_name@,
        r.modifications@.len() == 0,
        r.keys@.len() == 0,
{
    ReplaceBuilder { table_name: String::from_str(table_name), modifications: Vec::new(), keys: Vec::new() }
}

impl<DB: Database, const HAS_KEYS: bool, const HAS_UPDATES: bool> ReplaceBuilder<DB, HAS_KEYS, HAS_UPDATES> {
    fn modify<V: IntoSqlValue<DB>>(self, name: &str, value: V, update: bool, insert: bool) -> (r: ReplaceBuilder<DB, HAS_KEYS, true>)
        ensures
            r.table_name == self.table_name,
            r.keys == self.keys,
            r.modifications@.len() == self.modifications@.len() + 1,
            r.modifications@.drop_last() == self.modifications@,
            r.modifications@.last().name@ == name@,
            opt_view(r.modifications@.last().value) == value.sql_value_view(),
            r.modifications@.last().update == update,
            r.modifications@.last().insert == insert,
    {
        let mut modifications = self.modifications;
        modifications.push(Modification { name: String::from_str(name), value: value.into_sql_value(), update, insert });
        assert(modifications@.drop_last() =~= self.modifications@);
        ReplaceBuilder { table_name: self.table_name, modifications, keys: self.keys }
    }

    /// A column that is written both when inserting and when updating.
    pub fn replace_column<V: IntoSqlValue<DB>>(self, name: &str, value: V) -> (r: ReplaceBuilder<DB, HAS_KEYS, true>)
        ensures
            r.table_name == self.table_name,
            r.keys == self.keys,
            r.modifications@.len() == self.modifications@.len() + 1,
            r.modifications@.drop_last() == self.modifications@,
            r.modifications@.last().name@ == name@,
            opt_view(r.modifications@.last().value) == value.sql_value_view(),
            r.modifications@.last().update && r.modifications@.last().insert,
    {
        self.modify(name, value, true, true)
    }

    /// A column that is written only when updating.
    pub fn update_column<V: IntoSqlValue<DB>>(self, name: &str, value: V) -> (r: ReplaceBuilder<DB, HAS_KEYS, true>)
        ensures
            r.table_name == self.table_name,
            r.keys == self.keys,
            r.modifications@.len() == self.modifications@.len() + 1,
            r.modifications@.drop_last() == self.modifications@,
            r.modifications@.last().name@ == name@,
            opt_view(r.modifications@.last().value) == value.sql_value_view(),
            r.modifications@.last().update && !r.modifications@.last().insert,
    {
        self.modify(name, value, true, false)
    }

    /// A column that is written only when inserting.
    pub fn insert_column<V: IntoSqlValue<DB>>(self, name: &str, value: V) -> (r: ReplaceBuilder<DB, HAS_KEYS, true>)
        ensures
            r.table_name == self.table_name,
            r.keys == self.keys,
            r.modifications@.len() == self.modifications@.len() + 1,
            r.modifications@.drop_last() == self.modifications@,
            r.modifications@.last().name@ == name@,
            opt_view(r.modifications@.last().value) == value.sql_value_view(),
            !r.modifications@.last().update && r.modifications@.last().insert,
    {
        self.modify(name, value, false, true)
    }
}

impl<DB: Database, const HAS_UPDATES: bool> ReplaceBuilder<DB, false, HAS_UPDATES> {
    /// The columns that identify the row.
    pub fn key_columns(self, column_names: Vec<&str>) -> (r: ReplaceBuilder<DB, true, HAS_UPDATES>)
        ensures
            r.table_name == self.table_name,
            r.modifications == self.modifications,
            r.keys@.len() == self.keys@.len() + column_names@.len(),
            r.keys@.take(self.keys@.len() as int) == self.keys@,
            forall|i: int| 0 <= i < column_names@.len() ==> (#[trigger] r.keys@[self.keys@.len() + i])@ == column_names@[i]@,
    {
        let mut keys = self.keys;
        let ghost start = keys@;
        let mut i: usize = 0;
        assert(keys@.take(start.len() as int) =~= start);
        while i < column_names.len()
            invariant
                i <= column_names@.len(),
                keys@.len() == start.len() + i,
                keys@.take(start.len() as int) == start,
                forall|k: int| 0 <= k < i ==> (#[trigger] keys@[start.len() + k])@ == column_names@[k]@,
            decreases column_names@.len() - i,
        {
            let ghost prev = keys@;
            keys.push(String::from_str(column_names[i]));
            assert(keys@.take(start.len() as int) =~= prev.take(start.len() as int));
            assert forall|k: int| 0 <= k < i + 1 implies (#[trigger] keys@[start.len() + k])@ == column_names@[k]@ by {
                if k < i {
                    assert(keys@[start.len() + k] == prev[start.len() + k]);
                }
            }
            i = i + 1;
        }
        ReplaceBuilder { table_name: self.table_name, modifications: self.modifications, keys }
    }
}

/// The value that the first modification of column `key` supplies.
fn find_key_value<DB: Database>(modifications: &Vec<Modification<DB>>, key: &String) -> (r: Option<Value<DB>>)
    ensures
        opt_view(r) == key_value(modifications@, key@),
{
    let mut j: usize = 0;
    assert(modifications@.skip(0) =~= modifications@);
    while j < modifications.len()
        invariant
            j <= modifications@.len(),
            key_value(modifications@, key@) == key_value(modifications@.skip(j as int), key@),
        decreases modifications@.len() - j,
    {
        let ghost rest = modifications@.skip(j as int);
        assert(rest[0] == modifications@[j as int]);
        assert(rest.skip(1) =~= modifications@.skip(j + 1));
        if modifications[j].name == *key {
            return clone_value(&modifications[j].value);
        }
        j = j + 1;
    }
    assert(modifications@.skip(j as int) =~= Seq::<Modification<DB>>::empty());
    None
}

/// The key WHERE clause: each key column equated to the value that the modifications
/// supply for it.
fn build_key_where<DB: Database>(keys: &Vec<String>, modifications: &Vec<Modification<DB>>) -> (r: WhereLike<DB>)
    ensures
        key_where_is(r, keys@, modifications@),
{
    let mut predicates: Vec<(LogicalOp, PredicateKind<DB>)> = Vec::new();
    let mut i: usize = 0;
    while i < keys.len()
        invariant
            i <= keys@.len(),
            predicates@.len() == i,
            forall|k: int|
                0 <= k < i ==> (#[trigger] predicates@[k]).0 == LogicalOp::And && pair_is(
                    predicates@[k].1,
                    None,
                    keys@[k]@,
                    key_value(modifications@, keys@[k]@),
                ),
        decreases keys@.len() - i,
    {
        let key = &keys[i];
        let value = find_key_value(modifications, key);
        let column = ColRef { table_name: None, column_name: key.clone() };
        predicates.push((LogicalOp::And, PredicateKind::Pair(column, value)));
        i = i + 1;
    }
    WhereLike { kind: WhereLikeKind::Where, predicates }
}

/// The `(name, value)` pairs of the insert-tagged modifications, in order.
fn insert_pairs<DB: Database>(modifications: Vec<Modification<DB>>) -> (r: Vec<(String, Option<Value<DB>>)>)
    ensures
        insert_pairs_view(r@) == insert_modifications(modifications@),
{
    let ghost all = modifications@;
    let n = modifications.len();
    let mut rest = modifications;
    let mut pairs: Vec<(String, Option<Value<DB>>)> = Vec::new();
    let mut i: usize = 0;
    assert(rest@ =~= all.skip(0));
    assert(insert_pairs_view(pairs@) =~= insert_modifications(all.take(0)));
    while rest.len() > 0
        invariant
            all.len() == n,
            i + rest@.len() == n,
            rest@ == all.skip(i as int),
            insert_pairs_view(pairs@) == insert_modifications(all.take(i as int)),
        decreases rest@.len(),
    {
        let m = rest.remove(0);
        assert(all.skip(i as int)[0] == all[i as int]);
        assert(rest@ =~= all.skip(i + 1));
        assert(all.take(i + 1).drop_last() =~= all.take(i as int));
        let ghost before = pairs@;
        if m.insert {
            let Modification { name, value, update: _, insert: _ } = m;
            let ghost v = (name@, opt_view(value));
            pairs.push((name, value));
            assert(insert_pairs_view(pairs@) =~= insert_pairs_view(before) + seq![v]);
        } else {
            assert(insert_modifications(all.take(i + 1)) =~= insert_modifications(all.take(i as int)));
        }
        i = i + 1;
    }
    assert(all.take(n as int) =~= all);
    pairs
}

/// The SET pairs of the update-tagged modifications, in order, on unqualified columns.
fn update_pairs<DB: Database>(modifications: Vec<Modification<DB>>) -> (r: Vec<(ColRef, Option<Value<DB>>)>)
    ensures
        set_pairs_view(r@) == update_modifications(modifications@),
        forall|k: int| 0 <= k < r@.len() ==> (#[trigger] r@[k]).0.table_name is None,
{
    let ghost all = modifications@;
    let n = modifications.len();
    let mut rest = modifications;
    let mut pairs: Vec<(ColRef, Option<Value<DB>>)> = Vec::new();
    let mut i: usize = 0;
    assert(rest@ =~= all.skip(0));
    assert(set_pairs_view(pairs@) =~= update_modifications(all.take(0)));
    while rest.len() > 0
        invariant
            all.len() == n,
            i + rest@.len() == n,
            rest@ == all.skip(i as int),
            set_pairs_view(pairs@) == update_modifications(all.take(i as int)),
            forall|k: int| 0 <= k < pairs@.len() ==> (#[trigger] pairs@[k]).0.table_name is None,
        decreases rest@.len(),
    {
        let m = rest.remove(0);
        assert(all.skip(i as int)[0] == all[i as int]);
        assert(rest@ =~= all.skip(i + 1));
        assert(all.take(i + 1).drop_last() =~= all.take(i as int));
        let ghost before = pairs@;
        if m.update {
            let Modification { name, value, update: _, insert: _ } = m;
            let ghost v = (name@, opt_view(value));
            pairs.push((ColRef { table_name: None, column_name: name }, value));
            assert(set_pairs_view(pairs@) =~= set_pairs_view(before) + seq![v]);
        } else {
            assert(update_modifications(all.take(i + 1)) =~= update_modifications(all.take(i as int)));
        }
        i = i + 1;
    }
    assert(all.take(n as int) =~= all);
    pairs
}

impl<DB: Database> ReplaceBuilder<DB, true, true> {
    /// A replace needs at least one key column.
    pub fn validate(&self) -> (r: Result<(), ExecuteError>)
        ensures
            r is Ok <==> self.keys@.len() > 0,
            r is Err ==> r->Err_0 == ExecuteError::Crud(CrudError { kind: CrudErrorKind::MissingKeyColumns }),
    {
        if self.keys.len() == 0 {
            return Err(ExecuteError::Crud(CrudError::new(CrudErrorKind::MissingKeyColumns)));
        }
        Ok(())
    }

    /// Checks the keys, and prepares the existence check: `select count(*) as cnt`
    /// from the table, restricted by the key WHERE clause. Without key columns the
    /// replace fails and nothing is to be run.
    pub fn plan(self) -> (r: Result<ReplacePlan<DB>, ExecuteError>)
        ensures
            self.keys@.len() == 0 <==> r is Err,
            r is Err ==> r->Err_0 == ExecuteError::Crud(CrudError { kind: CrudErrorKind::MissingKeyColumns }),
            r is Ok ==> r->Ok_0.table_name == self.table_name && r->Ok_0.modifications == self.modifications
                && key_where_is(r->Ok_0.key_where, self.keys@, self.modifications@)
                && r->Ok_0.count_query.values is Some
                && exists|w: WhereLike<DB>|
                key_where_is(w, self.keys@, self.modifications@) && r->Ok_0.count_query.text@ == count_query_view::<DB>(
                    self.table_name@,
                    w.predicates@,
                ).text && values_view(r->Ok_0.count_query.values->0@) == count_query_view::<DB>(
                    self.table_name@,
                    w.predicates@,
                ).values,
    {
        match self.validate() {
            Ok(()) => {},
            Err(e) => {
                return Err(e);
            },
        }
        let key_where = build_key_where(&self.keys, &self.modifications);
        let where_copy = build_key_where(&self.keys, &self.modifications);
        let ghost w0 = where_copy;
        let star = count(Sql::raw("*")).into_sql();
        let select = Select::build(self.table_name.as_str()).select_expression(star, "cnt").with_where_clause(where_copy);
        let count_query = match select.finalize() {
            Ok(s) => {
                let ghost g = s;
                assert(g.select_columns@.drop_last() =~= Seq::<SelectPredicateKind<DB>>::empty());
                assert(g.from_clause.join.joined_tables@.drop_last() =~= Seq::<JoinedTable<DB>>::empty());
                assert(seq![] + w0.predicates@ =~= w0.predicates@);
                assert(g.where_clause->0.predicates@ == w0.predicates@);
                assert(single_table(g.from_clause, self.table_name@));
                let q = s.into_sql();
                assert(g.select_columns@.len() == 1);
                assert(select_items_view::<DB>(raw_view("select "@), g.select_columns@.drop_last()) == raw_view("select "@));
                assert(crate::clause::sql_join::joined_tables_view::<DB>(raw_view(seq![]), g.from_clause.join.joined_tables@.drop_last())
                    == raw_view(seq![]));
                assert(select_items_view::<DB>(raw_view("select "@), g.select_columns@) == cat::<DB>(
                    then_raw::<DB>(cat::<DB>(raw_view("select "@), wrapped::<DB>("count("@, raw_view("*"@), ")"@)), " as "@),
                    identifier_view::<DB>("cnt"@),
                ));
                assert(from_view::<DB>(g.from_clause) == cat::<DB>(
                    raw_view("from "@),
                    cat::<DB>(raw_view(seq![]), identifier_view::<DB>(self.table_name@)),
                ));
                assert(q@ == count_query_view::<DB>(self.table_name@, w0.predicates@));
                q.freeze()
            },
            Err(e) => {
                return Err(ExecuteError::Syntax(e));
            },
        };
        Ok(ReplacePlan { count_query, table_name: self.table_name, modifications: self.modifications, key_where })
    }
}

impl<DB: Database> ReplacePlan<DB> {
    /// Decides the write from the number of rows that match the keys: none, and the
    /// insert-tagged modifications are inserted; one, and the update-tagged ones are
    /// set on it, restricted by the key WHERE clause (nothing is written when there are
    /// none); more, and the replace fails without writing.
    pub fn after_count(self, existing_row_count: i64) -> (r: Result<ReplaceAction<DB>, ExecuteError>)
        ensures
            existing_row_count == 0 ==> r is Ok && r->Ok_0 is Insert && r->Ok_0->Insert_0.table_name == self.table_name
                && insert_pairs_view(r->Ok_0->Insert_0.pairs@) == insert_modifications(self.modifications@),
            existing_row_count > 1 ==> r == Err::<ReplaceAction<DB>, ExecuteError>(
                ExecuteError::Crud(CrudError { kind: CrudErrorKind::MultipleRowsWouldBeUpdated }),
            ),
            existing_row_count != 0 && existing_row_count <= 1 ==> r is Ok && (update_modifications(self.modifications@).len()
                == 0 <==> r->Ok_0 is Nothing),
            existing_row_count != 0 && existing_row_count <= 1 && r is Ok && r->Ok_0 is Update ==> {
                let u = r->Ok_0->Update_0;
                &&& u.table_name == self.table_name
                &&& set_pairs_view(u.set_pairs@) == update_modifications(self.modifications@)
                &&& forall|i: int| 0 <= i < u.set_pairs@.len() ==> (#[trigger] u.set_pairs@[i]).0.table_name is None
                &&& u.where_clause == Some(self.key_where)
            },
    {
        let ReplacePlan { count_query: _, table_name, modifications, key_where } = self;
        if existing_row_count > 1 {
            return Err(ExecuteError::Crud(CrudError::new(CrudErrorKind::MultipleRowsWouldBeUpdated)));
        }
        if existing_row_count == 0 {
            return Ok(ReplaceAction::Insert(Insert { table_name, pairs: insert_pairs(modifications) }));
        }
        let set_pairs = update_pairs(modifications);
        if set_pairs.len() == 0 {
            Ok(ReplaceAction::Nothing)
        } else {
            Ok(ReplaceAction::Update(Update { table_name, set_pairs, where_clause: Some(key_where) }))
        }
    }
}

} // verus!
