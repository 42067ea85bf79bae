use ursid_sqlx::clause::group_by::GroupBy;
use ursid_sqlx::clause::order_by::OrderBy;
use ursid_sqlx::clause::sql_from::SqlFrom;
use ursid_sqlx::clause::sql_in::In;
use ursid_sqlx::clause::sql_join::TableReferenceKind;
use ursid_sqlx::clause::where_like::{Having, SqlOn, Where};
use ursid_sqlx::expression::{SqlExpression, TableAndColumnReference};
use ursid_sqlx::function::{coalesce, current_datetime};
use ursid_sqlx::statement::select::Select;
use ursid_sqlx::{Database, IntoRawSql, IntoSqlValue, MySql, Postgres, Sql, SyntaxError, Value};

fn compare<DB: Database>(sql: &Sql<DB>, text: &str, values: &[Option<Value<DB>>]) -> Result<(), SyntaxError> {
    assert_eq!(sql.query(), text);
    assert_eq!(sql.params(), values);
    Ok(())
}

fn group_by_case<DB: Database>(text: &str, values: &[Option<Value<DB>>]) -> Result<(), SyntaxError> {
    let sql: Sql<DB> = GroupBy::build()
        .group_by_column("foo")
        .group_by_column("bar")
        .group_by_expression("coalesce(a, b)".into_raw_sql())
        .finalize()?
        .into_sql();
    compare(&sql, text, values)
}

#[test]
fn group_by_postgres() -> Result<(), SyntaxError> {
    group_by_case::<Postgres>(r#"group by "foo", "bar", coalesce(a, b)"#, &[])
}

#[test]
fn group_by_mysql() -> Result<(), SyntaxError> {
    group_by_case::<MySql>("group by `foo`, `bar`, coalesce(a, b)", &[])
}

fn having_case<DB: Database>(text: &str, values: &[Option<Value<DB>>]) -> Result<(), SyntaxError> {
    let sql: Sql<DB> = Having::build().column_equal_to("foo", 1i32).finalize()?.into_sql();
    compare(&sql, text, values)
}

#[test]
fn having_postgres() -> Result<(), SyntaxError> {
    having_case::<Postgres>(r#"having "foo"=$1"#, &[1i32.into_sql_value()])
}

#[test]
fn having_mysql() -> Result<(), SyntaxError> {
    having_case::<MySql>("having `foo`=?", &[1i32.into_sql_value()])
}

fn order_by_case<DB: Database>(text: &str, values: &[Option<Value<DB>>]) -> Result<(), SyntaxError> {
    let sql: Sql<DB> = OrderBy::build()
        .order_by_column_asc("foo")
        .order_by_column_desc("bar")
        .order_by_expression("coalesce(a, b) desc".into_raw_sql())
        .limit(10, 200)
        .finalize()?
        .into_sql();
    compare(&sql, text, values)
}

#[test]
fn order_by_postgres() -> Result<(), SyntaxError> {
    order_by_case::<Postgres>(
        r#"order by "foo" asc, "bar" desc, coalesce(a, b) desc limit $1 offset $2"#,
        &[10u32.into_sql_value(), 200u32.into_sql_value()],
    )
}

#[test]
fn order_by_mysql() -> Result<(), SyntaxError> {
    order_by_case::<MySql>(
        "order by `foo` asc, `bar` desc, coalesce(a, b) desc limit ? offset ?",
        &[10u32.into_sql_value(), 200u32.into_sql_value()],
    )
}

fn join_case<DB: Database>(text: &str, values: &[Option<Value<DB>>]) -> Result<(), SyntaxError> {
    let sql: Sql<DB> = SqlFrom::build(TableReferenceKind::table("some_table"), "st")
        .inner_join(TableReferenceKind::table("another_table"), "at", SqlOn::from_fk("st", "fk_id", "at", "id")?)
        .finalize()?
        .into_sql();
    compare(&sql, text, values)
}

#[test]
fn join_postgres() -> Result<(), SyntaxError> {
    join_case::<Postgres>(r#"from "some_table" "st" inner join "another_table" "at" on "st"."fk_id" = "at"."id""#, &[])
}

#[test]
fn join_mysql() -> Result<(), SyntaxError> {
    join_case::<MySql>("from `some_table` `st` inner join `another_table` `at` on `st`.`fk_id` = `at`.`id`", &[])
}

fn join_with_subquery_case<DB: Database>(text: &str, values: &[Option<Value<DB>>]) -> Result<(), SyntaxError> {
    let sql: Sql<DB> = SqlFrom::build(TableReferenceKind::table("some_table"), "st")
        .inner_join(
            TableReferenceKind::subquery(
                Select::build("another_table").select_column("id").where_column_equal_to("id", 1i32).finalize()?,
            ),
            "at",
            SqlOn::build().fk("st", "fk_id", "at", "id").finalize()?,
        )
        .finalize()?
        .into_sql();
    compare(&sql, text, values)
}

#[test]
fn join_with_subquery_postgres() -> Result<(), SyntaxError> {
    join_with_subquery_case::<Postgres>(
        r#"from "some_table" "st" inner join (select "id" from "another_table" where "id"=$1) "at" on "st"."fk_id" = "at"."id""#,
        &[1i32.into_sql_value()],
    )
}

#[test]
fn join_with_subquery_mysql() -> Result<(), SyntaxError> {
    join_with_subquery_case::<MySql>(
        "from `some_table` `st` inner join (select `id` from `another_table` where `id`=?) `at` on `st`.`fk_id` = `at`.`id`",
        &[1i32.into_sql_value()],
    )
}

fn single_table_case<DB: Database>(text: &str, values: &[Option<Value<DB>>]) -> Result<(), SyntaxError> {
    let sql: Sql<DB> = SqlFrom::build(TableReferenceKind::table("some_table"), "st").finalize()?.into_sql();
    compare(&sql, text, values)
}

#[test]
fn single_table_postgres() -> Result<(), SyntaxError> {
    single_table_case::<Postgres>(r#"from "some_table" "st""#, &[])
}

#[test]
fn single_table_mysql() -> Result<(), SyntaxError> {
    single_table_case::<MySql>("from `some_table` `st`", &[])
}

fn column_case<DB: Database>(text: &str, values: &[Option<Value<DB>>]) -> Result<(), SyntaxError> {
    let sql: Sql<DB> = Where::build()
        .column_equal_to("one", 1i32)
        .and_column_equal_to("two", 2i32)
        .and_column_equal_to("three", 3i32)
        .finalize()?
        .into_sql();
    compare(&sql, text, values)
}

#[test]
fn column_postgres() -> Result<(), SyntaxError> {
    column_case::<Postgres>(
        r#"where "one"=$1 and "two"=$2 and "three"=$3"#,
        &[1i32.into_sql_value(), 2i32.into_sql_value(), 3i32.into_sql_value()],
    )
}

#[test]
fn column_mysql() -> Result<(), SyntaxError> {
    column_case::<MySql>(
        "where `one`=? and `two`=? and `three`=?",
        &[1i32.into_sql_value(), 2i32.into_sql_value(), 3i32.into_sql_value()],
    )
}

fn where_expression_case<DB: Database>(text: &str, values: &[Option<Value<DB>>]) -> Result<(), SyntaxError> {
    let sql: Sql<DB> = Where::build()
        .expression(
            coalesce(TableAndColumnReference::new("tbl", "col").into_sql(), Sql::value(123i32))
                .into_sql()
                .greater_than(Sql::value(456i32))
                .into_sql(),
        )
        .or_expression(
            TableAndColumnReference::new("tbl", "col2")
                .into_sql()
                .less_than_equal_to(current_datetime().into_sql())
                .into_sql(),
        )
        .finalize()?
        .into_sql();
    compare(&sql, text, values)
}

#[test]
fn expression_postgres() -> Result<(), SyntaxError> {
    where_expression_case::<Postgres>(
        r#"where coalesce("tbl"."col", $1) > $2 or "tbl"."col2" <= current_timestamp()"#,
        &[123i32.into_sql_value(), 456i32.into_sql_value()],
    )
}

#[test]
fn expression_mysql() -> Result<(), SyntaxError> {
    where_expression_case::<MySql>(
        r#"where coalesce(`tbl`.`col`, ?) > ? or `tbl`.`col2` <= current_timestamp()"#,
        &[123i32.into_sql_value(), 456i32.into_sql_value()],
    )
}

fn where_full_case<DB: Database>(text: &str, values: &[Option<Value<DB>>]) -> Result<(), SyntaxError> {
    let sql: Sql<DB> = Where::build()
        .column_equal_to("one", 1i32)
        .and_column_equal_to("two", 2i32)
        .and_column_equal_to("three", 3i32)
        .and_column_in("foo", In::from_values(vec![4i32, 5i32, 6i32]))
        .and_column_in("bar", In::from_values(vec![7i32, 8i32, 9i32]))
        .and_column_equal_to("four", "10")
        .or_group(Where::build().column_equal_to("five", 11i32).finalize()?)
        .finalize()?
        .into_sql();
    compare(&sql, text, values)
}

fn full_values<DB: Database>() -> Vec<Option<Value<DB>>> {
    vec![
        1i32.into_sql_value(),
        2i32.into_sql_value(),
        3i32.into_sql_value(),
        4i32.into_sql_value(),
        5i32.into_sql_value(),
        6i32.into_sql_value(),
        7i32.into_sql_value(),
        8i32.into_sql_value(),
        9i32.into_sql_value(),
        "10".into_sql_value(),
        11i32.into_sql_value(),
    ]
}

#[test]
fn full_postgres() -> Result<(), SyntaxError> {
    where_full_case::<Postgres>(
        r#"where "one"=$1 and "two"=$2 and "three"=$3 and "foo" in ($4,$5,$6) and "bar" in ($7,$8,$9) and "four"=$10 or ("five"=$11)"#,
        &full_values::<Postgres>(),
    )
}

#[test]
fn full_mysql() -> Result<(), SyntaxError> {
    where_full_case::<MySql>(
        "where `one`=? and `two`=? and `three`=? and `foo` in (?,?,?) and `bar` in (?,?,?) and `four`=? or (`five`=?)",
        &full_values::<MySql>(),
    )
}

fn in_subquery_case<DB: Database>(text: &str, values: &[Option<Value<DB>>]) -> Result<(), SyntaxError> {
    let sql: Sql<DB> = Where::build()
        .column_in("bar_id", In::from_select_statement(Select::build("bar").select_column("id").finalize()?))
        .finalize()?
        .into_sql();
    compare(&sql, text, values)
}

#[test]
fn in_subquery_postgres() -> Result<(), SyntaxError> {
    in_subquery_case::<Postgres>(r#"where "bar_id" in (select "id" from "bar")"#, &[])
}

#[test]
fn in_subquery_mysql() -> Result<(), SyntaxError> {
    in_subquery_case::<MySql>("where `bar_id` in (select `id` from `bar`)", &[])
}

fn in_values_case<DB: Database>(text: &str, values: &[Option<Value<DB>>]) -> Result<(), SyntaxError> {
    let sql: Sql<DB> = Where::build().column_in("foo", In::from_values(vec![1i32, 2i32, 3i32])).finalize()?.into_sql();
    compare(&sql, text, values)
}

#[test]
fn in_values_postgres() -> Result<(), SyntaxError> {
    in_values_case::<Postgres>(
        r#"where "foo" in ($1,$2,$3)"#,
        &[1i32.into_sql_value(), 2i32.into_sql_value(), 3i32.into_sql_value()],
    )
}

#[test]
fn in_values_mysql() -> Result<(), SyntaxError> {
    in_values_case::<MySql>(
        "where `foo` in (?,?,?)",
        &[1i32.into_sql_value(), 2i32.into_sql_value(), 3i32.into_sql_value()],
    )
}
