use ursid_sqlx::clause::group_by::GroupBy;
use ursid_sqlx::clause::order_by::OrderBy;
use ursid_sqlx::clause::sql_from::SqlFrom;
use ursid_sqlx::clause::sql_in::In;
use ursid_sqlx::clause::sql_join::TableReferenceKind;
use ursid_sqlx::clause::where_like::{SqlOn, Where, WhereLikeBuilder, WhereLikeKind};
use ursid_sqlx::crud::replace::ReplaceAction;
use ursid_sqlx::crud::{delete_rows, insert_row, replace_row, update_rows};
use ursid_sqlx::expression::{ColumnReference, SqlExpression, TableReference};
use ursid_sqlx::function;
use ursid_sqlx::function::{abs, coalesce3, day_diff, lower, max, min, minute_diff};
use ursid_sqlx::helper::BuilderHelper;
use ursid_sqlx::statement::select::Select;
use ursid_sqlx::statement::update::UpdateBuilder;
use ursid_sqlx::{
    CrudErrorKind, Database, ExecuteError, IntoRawSql, IntoSqlValue, MySql, Postgres, QueryError, Sql, SyntaxError,
    SyntaxErrorKind, Value, ValueLogicalKind, ValueStorage,
};

fn compare<DB: Database>(sql: &Sql<DB>, text: &str, values: &[Option<Value<DB>>]) {
    assert_eq!(sql.query(), text);
    assert_eq!(sql.params(), values);
}

#[test]
fn select_example_with_fixed_placeholder() -> Result<(), SyntaxError> {
    let sql: Sql<MySql> = Select::build("some_table")
        .select_column("col1")
        .select_column_with_alias("col2", "foo")
        .where_column_equal_to("one", 1i32)
        .finalize()?
        .into_sql();
    compare(&sql, "select `col1`, `col2` as `foo` from `some_table` where `one`=?", &[1i32.into_sql_value()]);
    Ok(())
}

#[test]
fn empty_select_list_fails() {
    let r = Select::<MySql>::build("t").select_columns(Vec::<&str>::new()).finalize();
    assert_eq!(r.unwrap_err().kind, SyntaxErrorKind::MissingSelectPredicates);
}

#[test]
fn empty_group_by_fails() {
    let r = GroupBy::<MySql>::from_columns(vec![]);
    assert_eq!(r.unwrap_err().kind, SyntaxErrorKind::MissingGroupByPredicates);
    let s = Select::<Postgres>::build("t").select_column("a").group_by(vec![]).finalize();
    assert_eq!(s.unwrap_err().kind, SyntaxErrorKind::MissingGroupByPredicates);
}

#[test]
fn empty_order_by_fails() {
    let r = OrderBy::<MySql>::build().limit(5, 0).finalize();
    assert_eq!(r.unwrap_err().kind, SyntaxErrorKind::MissingOrderByPredicates);
    let s = Select::<Postgres>::build("t").select_column("a").order_by(vec![]).finalize();
    assert_eq!(s.unwrap_err().kind, SyntaxErrorKind::MissingOrderByPredicates);
}

#[test]
fn empty_where_fails() {
    let b: WhereLikeBuilder<MySql, true, false> = WhereLikeBuilder { kind: WhereLikeKind::Where, predicates: vec![] };
    assert_eq!(b.finalize().unwrap_err().kind, SyntaxErrorKind::MissingWherePredicates);
    let h: WhereLikeBuilder<MySql, true, false> = WhereLikeBuilder { kind: WhereLikeKind::Having, predicates: vec![] };
    let s = Select::<MySql>::build("t").select_column("a").with_group_by_clause(
        GroupBy::build().group_by_column("a").finalize().unwrap(),
    );
    let s = ursid_sqlx::statement::select::SelectBuilder::<MySql, true, true, true, false, false> {
        from_clause: s.from_clause,
        select_columns: s.select_columns,
        where_clause_builder: None,
        group_by_clause: s.group_by_clause,
        having_clause_builder: Some(h),
        order_by_clause: None,
    };
    assert_eq!(s.finalize().unwrap_err().kind, SyntaxErrorKind::MissingWherePredicates);
}

#[test]
fn empty_update_fails() {
    let u: UpdateBuilder<Postgres, true> = UpdateBuilder { table_name: "t".to_string(), set_pairs: vec![], where_clause_builder: None };
    assert_eq!(u.finalize().unwrap_err().kind, SyntaxErrorKind::MissingUpdatePredicates);
}

#[test]
fn empty_in_list_is_false_never_empty_parens() -> Result<(), SyntaxError> {
    let sql: Sql<MySql> = Where::build().column_in("foo", In::from_values(Vec::<i32>::new())).finalize()?.into_sql();
    compare(&sql, "where `foo` in (select null where 1 = 0)", &[]);
    let sql: Sql<Postgres> = Where::build().column_not_in("foo", In::build().finalize()).finalize()?.into_sql();
    compare(&sql, r#"where not "foo"in (select null where 1 = 0)"#, &[]);
    Ok(())
}

#[test]
fn not_in_values_and_combinators() -> Result<(), SyntaxError> {
    let sql: Sql<Postgres> = Where::build()
        .column_not_in("a", In::build().value(1i32).value(2i32).finalize())
        .or_column_in("b", In::build().values(vec!["x", "y"]).finalize())
        .and_column_not_equal_to("c", 3i64)
        .or_column_is_null("d", true)
        .and_column_is_null("e", false)
        .finalize()?
        .into_sql();
    compare(
        &sql,
        r#"where not "a"in ($1,$2) or "b" in ($3,$4) and "c" <> $5 or "d" is null and "e" is not null"#,
        &[1i32.into_sql_value(), 2i32.into_sql_value(), "x".into_sql_value(), "y".into_sql_value(), 3i64.into_sql_value()],
    );
    Ok(())
}

#[test]
fn absent_value_renders_is_null() -> Result<(), SyntaxError> {
    let sql: Sql<MySql> = Where::build()
        .column_equal_to("a", Option::<i32>::None)
        .and_column_not_equal_to("b", Option::<i32>::None)
        .finalize()?
        .into_sql();
    compare(&sql, "where `a` is null and `b` is not null", &[]);
    let sql: Sql<Postgres> = Where::build_with_join()
        .column_not_equal_to("t", "b", Option::<&str>::None)
        .or_column_equal_to("t", "a", Option::<&str>::None)
        .finalize()?
        .into_sql();
    compare(&sql, r#"where "t"."b" is not null or "t"."a" is null"#, &[]);
    let eq: Sql<MySql> = ColumnReference::new("c").into_sql().equal_to(Sql::value(Option::<u8>::None)).into_sql();
    compare(&eq, "`c` is null", &[]);
    let gt: Sql<MySql> = ColumnReference::new("c").into_sql().greater_than(Sql::value(Option::<u8>::None)).into_sql();
    compare(&gt, "`c` > null", &[]);
    Ok(())
}

#[test]
fn positional_placeholders_are_gap_free() {
    let sql: Sql<Postgres> = Sql::raw("a ").append(Sql::value(1i32)).raw_append(", ").append(Sql::value(2i32));
    compare(&sql, "a $1, $2", &[1i32.into_sql_value(), 2i32.into_sql_value()]);
    assert_eq!(sql.placeholder_counter, 2);
    let outer: Sql<Postgres> = Sql::raw("x ").append(Sql::value(0i32)).raw_append(" ").append(sql);
    compare(&outer, "x $1 a $2, $3", &[0i32.into_sql_value(), 1i32.into_sql_value(), 2i32.into_sql_value()]);
    assert_eq!(outer.placeholder_counter, 3);
}

#[test]
fn positional_markers_with_several_digits_are_renumbered() {
    let sql: Sql<Postgres> = Sql::raw("").raw_append("$12x $ $$7 $");
    assert_eq!(sql.query(), "$1x $ $$2 $");
    assert_eq!(sql.placeholder_counter, 2);
}

#[test]
fn fixed_placeholder_dialect_does_not_rewrite() {
    let sql: Sql<MySql> = Sql::raw("a ").raw_append("$5 ").append(Sql::value(7u16));
    compare(&sql, "a $5 ?", &[7u16.into_sql_value()]);
    assert_eq!(sql.placeholder_counter, 0);
}

#[test]
fn identifiers_double_their_quote() {
    let m: Sql<MySql> = ColumnReference::new("a`b").into_sql();
    assert_eq!(m.query(), "`a``b`");
    let p: Sql<Postgres> = TableReference::new("a\"b").into_sql();
    assert_eq!(p.query(), "\"a\"\"b\"");
    let q: Sql<Postgres> = ColumnReference::new("é`").into_sql();
    assert_eq!(q.query(), "\"é`\"");
}

#[test]
fn null_fragment_detection() {
    assert!(Sql::<MySql>::is_null(&Sql::raw("NuLl")));
    assert!(!Sql::<MySql>::is_null(&Sql::raw(" null ")));
    assert!(Sql::<MySql>::is_null(&Sql::raw("null")));
    assert!(!Sql::<MySql>::is_null(&Sql::raw("nul")));
    assert!(!Sql::<MySql>::is_null(&Sql::value(1i32)));
    assert!(Sql::<Postgres>::is_null(&Sql::value(Option::<i32>::None)));
}

#[test]
fn dialect_value_storage() {
    let b: Option<Value<MySql>> = true.into_sql_value();
    assert_eq!(b.clone().unwrap().storage_kind, ValueStorage::U8(1));
    assert_eq!(b.unwrap().logical_kind, ValueLogicalKind::Bool);
    let b: Option<Value<Postgres>> = false.into_sql_value();
    assert_eq!(b.unwrap().storage_kind, ValueStorage::I16(0));
    let v: Option<Value<Postgres>> = 200u8.into_sql_value();
    assert_eq!(v.unwrap().storage_kind, ValueStorage::I16(200));
    let v: Option<Value<Postgres>> = 4_000_000_000u32.into_sql_value();
    assert_eq!(v.unwrap().storage_kind, ValueStorage::I64(4_000_000_000));
    let v: Option<Value<MySql>> = 4_000_000_000u32.into_sql_value();
    assert_eq!(v.unwrap().storage_kind, ValueStorage::U32(4_000_000_000));
    let v: Option<Value<Postgres>> = 60000u16.into_sql_value();
    assert_eq!(v.unwrap().storage_kind, ValueStorage::I32(60000));
    let v: Option<Value<Postgres>> = (-5i8).into_sql_value();
    assert_eq!(v.unwrap().storage_kind, ValueStorage::I16(-5));
    let v: Option<Value<MySql>> = 'z'.into_sql_value();
    assert_eq!(v.unwrap().storage_kind, ValueStorage::Text("z".to_string()));
    let v: Option<Value<MySql>> = vec![1u8, 2u8].into_sql_value();
    assert_eq!(v.unwrap().storage_kind, ValueStorage::Bytes(vec![1, 2]));
    let v: Option<Value<MySql>> = String::from("s").into_sql_value();
    assert_eq!(v.unwrap().logical_kind, ValueLogicalKind::Text);
    let v: Option<Value<MySql>> = Option::<i16>::None.into_sql_value();
    assert!(v.is_none());
}

#[test]
fn date_difference_per_dialect() {
    let m: Sql<MySql> = day_diff(ColumnReference::new("a").into_sql(), ColumnReference::new("b").into_sql()).into_sql();
    assert_eq!(m.query(), "timestampdiff(DAY,`a`,`b`)");
    let m: Sql<MySql> = minute_diff(Sql::value("2000-01-01"), ColumnReference::new("b").into_sql()).into_sql();
    compare(&m, "timestampdiff(MINUTE,?,`b`)", &["2000-01-01".into_sql_value()]);
    let p: Sql<Postgres> = day_diff(ColumnReference::new("a").into_sql(), ColumnReference::new("b").into_sql()).into_sql();
    assert_eq!(p.query(), r#"date_part('day',"b"::timestamp - "a"::timestamp)"#);
    let p: Sql<Postgres> = minute_diff(Sql::value(1i32), Sql::value(2i32)).into_sql();
    assert_eq!(
        p.query(),
        "(date_part('day',$1::timestamp - $2::timestamp) * 24 * 60 + date_part('hour',$3::timestamp - $4::timestamp) * 60 + date_part('minute',$5::timestamp - $6::timestamp))"
    );
    assert_eq!(p.params().len(), 6);
}

#[test]
fn functions_render_their_arguments() {
    let s: Sql<MySql> = coalesce3(Sql::raw("a"), Sql::raw("b"), Sql::value(1i32)).into_sql();
    assert_eq!(s.query(), "coalesce(a, b, ?)");
    let s: Sql<Postgres> = function::concat(Sql::value("USER-"), Sql::raw("x")).into_sql();
    assert_eq!(s.query(), "concat($1, x)");
    let s: Sql<MySql> = function::concat3(Sql::raw("a"), Sql::raw("b"), Sql::raw("c")).into_sql();
    assert_eq!(s.query(), "concat(a, b, c)");
    let s: Sql<MySql> = min(Sql::raw("a")).into_sql().raw_append(" ").append(max(Sql::raw("b")).into_sql());
    assert_eq!(s.query(), "min(a) max(b)");
    let s: Sql<MySql> = abs(lower(Sql::raw("a")).into_sql()).into_sql();
    assert_eq!(s.query(), "abs(lower(a))");
    let s: Sql<MySql> = Sql::raw("a").wrap_in_not().into_sql().or("b".into_raw_sql()).into_sql();
    assert_eq!(s.query(), "not a or b");
    let s: Sql<MySql> = Sql::raw("a").is_null().into_sql();
    assert_eq!(s.query(), "a is null");
}

#[test]
fn joins_of_each_kind() -> Result<(), SyntaxError> {
    let sql: Sql<MySql> = SqlFrom::build(TableReferenceKind::table("a"), "x")
        .left_join(TableReferenceKind::table("b"), "y", SqlOn::from_fk("y", "a_id", "x", "id")?)
        .right_join(TableReferenceKind::table("c"), "z", SqlOn::from_fk("z", "b_id", "y", "id")?)
        .finalize()?
        .into_sql();
    assert_eq!(
        sql.query(),
        "from `a` `x` left join `b` `y` on `y`.`a_id` = `x`.`id` right join `c` `z` on `z`.`b_id` = `y`.`id`"
    );
    Ok(())
}

#[test]
fn insert_delete_and_update_rows() -> Result<(), SyntaxError> {
    let i = insert_row::<Postgres>("t").column("a", 1i32).column("b", Option::<i32>::None).prepare()?;
    assert_eq!(i.query(), r#"insert into "t" ("a","b") values ($1,null)"#);
    assert_eq!(i.params().unwrap(), &[1i32.into_sql_value()]);
    let d = delete_rows::<MySql>("t").where_column_equal_to("a", 1i32).prepare()?;
    assert_eq!(d.query(), "delete from `t` where `a`=?");
    let u = update_rows::<MySql>("t").update_column("a", 2i32).where_column_equal_to("b", 3i32).prepare()?;
    assert_eq!(u.query(), "update `t` set `a`=? where `b`=?");
    let h = MySql.build_sql().statement().select("t").select_column("a").finalize_and_freeze()?;
    assert_eq!(h.query(), "select `a` from `t`");
    Ok(())
}

#[test]
fn frozen_sql_is_used_once() {
    let mut f = Sql::<MySql>::raw("x").append(Sql::value(1i32)).freeze();
    assert_eq!(f.take_values().unwrap(), vec![1i32.into_sql_value()]);
    assert_eq!(f.take_values().unwrap_err(), QueryError::new());
    assert!(f.params().is_none());
    assert_eq!(f.query(), "x?");
}

fn replace_builder() -> ursid_sqlx::crud::replace::ReplaceBuilder<Postgres, true, true> {
    replace_row::<Postgres>("t")
        .key_columns(vec!["id"])
        .replace_column("name", "n")
        .insert_column("id", 7i32)
        .update_column("seen", 3i32)
}

#[test]
fn replace_plans_the_existence_check() {
    let plan = replace_builder().plan().unwrap();
    assert_eq!(plan.count_query.query(), r#"select count(*) as "cnt" from "t" where "id"=$1"#);
    assert_eq!(plan.count_query.params().unwrap(), &[7i32.into_sql_value()]);
}

#[test]
fn replace_without_keys_fails() {
    let r = replace_row::<MySql>("t").key_columns(vec![]).update_column("a", 1i32).plan();
    match r {
        Err(ExecuteError::Crud(e)) => assert_eq!(e.kind, CrudErrorKind::MissingKeyColumns),
        _ => panic!("expected a missing key error"),
    }
}

#[test]
fn replace_inserts_when_no_row_exists() {
    let plan = replace_builder().plan().unwrap();
    match plan.after_count(0).unwrap() {
        ReplaceAction::Insert(i) => {
            let sql = i.into_sql();
            assert_eq!(sql.query(), r#"insert into "t" ("name","id") values ($1,$2)"#);
            assert_eq!(sql.params(), &["n".into_sql_value(), 7i32.into_sql_value()]);
        },
        _ => panic!("expected an insert"),
    }
}

#[test]
fn replace_updates_when_one_row_exists() {
    let plan = replace_builder().plan().unwrap();
    match plan.after_count(1).unwrap() {
        ReplaceAction::Update(u) => {
            let sql = u.into_sql();
            assert_eq!(sql.query(), r#"update "t" set "name"=$1,"seen"=$2 where "id"=$3"#);
            assert_eq!(sql.params(), &["n".into_sql_value(), 3i32.into_sql_value(), 7i32.into_sql_value()]);
        },
        _ => panic!("expected an update"),
    }
}

#[test]
fn replace_with_nothing_to_update_writes_nothing() {
    let plan = replace_row::<MySql>("t").key_columns(vec!["id"]).insert_column("id", 1i32).plan().unwrap();
    assert!(matches!(plan.after_count(1).unwrap(), ReplaceAction::Nothing));
}

#[test]
fn replace_refuses_several_rows() {
    let plan = replace_builder().plan().unwrap();
    match plan.after_count(2) {
        Err(ExecuteError::Crud(e)) => assert_eq!(e.kind(), &CrudErrorKind::MultipleRowsWouldBeUpdated),
        _ => panic!("expected the multiple rows error"),
    }
}

#[test]
fn key_without_modification_is_null() {
    let plan = replace_row::<MySql>("t").key_columns(vec!["k"]).update_column("a", 1i32).plan().unwrap();
    assert_eq!(plan.count_query.query(), "select count(*) as `cnt` from `t` where `k` is null");
}

#[test]
fn error_messages() {
    let e = SyntaxError::new(SyntaxErrorKind::MissingGroupByPredicates, String::new());
    assert_eq!(e.message(), "SQL syntax error: SQL GROUP BY statement must specify at least one column/expression");
    let e = SyntaxError::new(SyntaxErrorKind::Other, "select".to_string());
    assert_eq!(e.message(), "SQL syntax error: Other: Near \"select\"");
    assert_eq!(e.sql(), "select");
    assert_eq!(e.kind(), &SyntaxErrorKind::Other);
    let c = ursid_sqlx::CrudError::new(CrudErrorKind::MissingKeyColumns);
    assert_eq!(c.message(), "CRUD error: At least one key column is required");
    assert_eq!(CrudErrorKind::MultipleRowsWouldBeUpdated.message(), "Multiple rows would be updated");
    assert_eq!(QueryError::new().message(), "FrozenSql has already been consumed, and cannot be used to build another query");
    assert_eq!(ExecuteError::Query(QueryError::new()).message(), "SQL execute error");
}

#[test]
fn frozen_clone_keeps_unconsumed_values() {
    let f = Sql::<Postgres>::raw("a ").append(Sql::value(5i64)).freeze();
    let mut g = f.clone();
    assert_eq!(g.query(), "a $1");
    assert_eq!(g.take_values().unwrap(), vec![5i64.into_sql_value()]);
    let h = g.clone();
    assert!(h.params().is_none());
    assert_eq!(f.params().unwrap(), &[5i64.into_sql_value()]);
}

#[test]
fn replace_validation() {
    let ok = replace_row::<MySql>("t").key_columns(vec!["id"]).update_column("a", 1i32);
    assert!(ok.validate().is_ok());
    let missing = replace_row::<MySql>("t").key_columns(vec![]).replace_column("a", 1i32);
    assert!(missing.validate().is_err());
}

#[test]
fn every_expression_type_compares_and_combines() {
    let s: Sql<MySql> = ColumnReference::new("a").equal_to(Sql::value(1i32)).and(
        ursid_sqlx::function::count(Sql::raw("*")).greater_than(Sql::value(2i32)).into_sql(),
    ).into_sql();
    compare(&s, "`a` = ? and count(*) > ?", &[1i32.into_sql_value(), 2i32.into_sql_value()]);
    let s: Sql<Postgres> = ursid_sqlx::expression::TableAndColumnReference::new("t", "c")
        .less_than(Sql::value(3i32))
        .wrap_in_parenthesis()
        .wrap_in_not()
        .into_sql();
    compare(&s, r#"not ("t"."c" < $1)"#, &[3i32.into_sql_value()]);
    let s: Sql<MySql> = ursid_sqlx::function::current_datetime().is_not_null().into_sql();
    assert_eq!(s.query(), "current_timestamp() is not null");
}

#[test]
fn clones_render_the_same() -> Result<(), SyntaxError> {
    let select: Select<Postgres> = Select::build("t")
        .select_column("a")
        .select_expression(Sql::value(vec![1u8, 2u8]), "b")
        .where_column_equal_to("c", 1i32)
        .with_group_by_clause(GroupBy::build().group_by_column("a").finalize()?)
        .with_having_clause(ursid_sqlx::clause::where_like::Having::build().column_in("d", In::from_values(vec![2i32])).finalize()?)
        .with_order_by_clause(OrderBy::build().order_by_column_desc("a").limit(3, 1).finalize()?)
        .finalize()?;
    let copy = select.clone();
    let a = select.into_sql();
    let b = copy.into_sql();
    assert_eq!(a.query(), b.query());
    assert_eq!(a.params(), b.params());
    assert_eq!(
        a.query(),
        r#"select "a", $1 as "b" from "t" where "c"=$2 group by "a" having "d" in ($3) order by "a" desc limit $4 offset $5"#
    );
    let u = ursid_sqlx::statement::update::Update::<MySql>::build("t").update_column("x", 1i32).where_column_equal_to("y", 2i32).finalize()?;
    assert_eq!(u.clone().into_sql().query(), u.into_sql().query());
    let i = ursid_sqlx::statement::insert::Insert::<MySql>::build("t").column("x", 'c').finalize()?;
    assert_eq!(i.clone().into_sql().params(), i.into_sql().params());
    let d = ursid_sqlx::statement::delete::Delete::<MySql>::build("t").where_column_equal_to("y", 2i32).finalize()?;
    assert_eq!(d.clone().into_sql().query(), "delete from `t` where `y`=?");
    let f: SqlFrom<MySql> = SqlFrom::build(TableReferenceKind::table("a"), "x")
        .inner_join(TableReferenceKind::table("b"), "y", SqlOn::from_fk("y", "a_id", "x", "id")?)
        .finalize()?;
    assert_eq!(f.clone().into_sql().query(), f.into_sql().query());
    Ok(())
}
