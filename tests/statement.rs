use ursid_sqlx::clause::group_by::GroupBy;
use ursid_sqlx::clause::order_by::OrderBy;
use ursid_sqlx::clause::sql_from::SqlFrom;
use ursid_sqlx::clause::sql_join::TableReferenceKind;
use ursid_sqlx::clause::where_like::{Having, SqlOn, Where};
use ursid_sqlx::expression::{ColumnReference, Parenthesis, SqlExpression};
use ursid_sqlx::function::count;
use ursid_sqlx::statement::delete::Delete;
use ursid_sqlx::statement::select::Select;
use ursid_sqlx::statement::update::Update;
use ursid_sqlx::{Database, IntoSqlValue, MySql, Postgres, Sql, SyntaxError, Value};

fn compare<DB: Database>(sql: &Sql<DB>, text: &str, values: &[Option<Value<DB>>]) -> Result<(), SyntaxError> {
    assert_eq!(sql.query(), text);
    assert_eq!(sql.params(), values);
    Ok(())
}

fn delete_case<DB: Database>(text: &str, values: &[Option<Value<DB>>]) -> Result<(), SyntaxError> {
    let sql: Sql<DB> = Delete::build("some_table")
        .with_where_clause(Where::build().column_equal_to("col1", 1i32).or_column_equal_to("col2", 2i32).finalize()?)
        .finalize()?
        .into_sql();
    compare(&sql, text, values)
}

#[test]
fn delete_postgres() -> Result<(), SyntaxError> {
    delete_case::<Postgres>(
        r#"delete from "some_table" where "col1"=$1 or "col2"=$2"#,
        &[1i32.into_sql_value(), 2i32.into_sql_value()],
    )
}

#[test]
fn delete_mysql() -> Result<(), SyntaxError> {
    delete_case::<MySql>(
        "delete from `some_table` where `col1`=? or `col2`=?",
        &[1i32.into_sql_value(), 2i32.into_sql_value()],
    )
}

fn update_case<DB: Database>(text: &str, values: &[Option<Value<DB>>]) -> Result<(), SyntaxError> {
    let sql: Sql<DB> = Update::build("some_table")
        .update_column("one", 1i32)
        .update_column("two", 2i32)
        .where_column_equal_to("10", 10i32)
        .where_column_equal_to("11", 11i32)
        .finalize()?
        .into_sql();
    compare(&sql, text, values)
}

#[test]
fn update_postgres() -> Result<(), SyntaxError> {
    update_case::<Postgres>(
        r#"update "some_table" set "one"=$1,"two"=$2 where "10"=$3 and "11"=$4"#,
        &[1i32.into_sql_value(), 2i32.into_sql_value(), 10i32.into_sql_value(), 11i32.into_sql_value()],
    )
}

#[test]
fn update_mysql() -> Result<(), SyntaxError> {
    update_case::<MySql>(
        "update `some_table` set `one`=?,`two`=? where `10`=? and `11`=?",
        &[1i32.into_sql_value(), 2i32.into_sql_value(), 10i32.into_sql_value(), 11i32.into_sql_value()],
    )
}

fn basic_case<DB: Database>(text: &str, values: &[Option<Value<DB>>]) -> Result<(), SyntaxError> {
    let sql: Sql<DB> = Select::build("some_table")
        .select_column("col1")
        .select_column_with_alias("col2", "foo")
        .where_column_equal_to("one", 1i32)
        .finalize()?
        .into_sql();
    compare(&sql, text, values)
}

#[test]
fn basic_postgres() -> Result<(), SyntaxError> {
    basic_case::<Postgres>(r#"select "col1", "col2" as "foo" from "some_table" where "one"=$1"#, &[1i32.into_sql_value()])
}

#[test]
fn basic_mysql() -> Result<(), SyntaxError> {
    basic_case::<MySql>("select `col1`, `col2` as `foo` from `some_table` where `one`=?", &[1i32.into_sql_value()])
}

fn select_expression_case<DB: Database>(text: &str, values: &[Option<Value<DB>>]) -> Result<(), SyntaxError> {
    let sql: Sql<DB> = Select::build("some_table")
        .select_column("col1")
        .select_expression(
            Parenthesis::new(
                Select::build("another_table")
                    .select_column("foo")
                    .where_column_equal_to("id", 123i32)
                    .finalize()?
                    .into_sql(),
            )
            .into_sql(),
            "some_alias",
        )
        .where_column_equal_to("one", 1i32)
        .finalize()?
        .into_sql();
    compare(&sql, text, values)
}

#[test]
fn select_expression_postgres() -> Result<(), SyntaxError> {
    select_expression_case::<Postgres>(
        r#"select "col1", (select "foo" from "another_table" where "id"=$1) as "some_alias" from "some_table" where "one"=$2"#,
        &[123i32.into_sql_value(), 1i32.into_sql_value()],
    )
}

#[test]
fn select_expression_mysql() -> Result<(), SyntaxError> {
    select_expression_case::<MySql>(
        "select `col1`, (select `foo` from `another_table` where `id`=?) as `some_alias` from `some_table` where `one`=?",
        &[123i32.into_sql_value(), 1i32.into_sql_value()],
    )
}

fn select_full_case<DB: Database>(text: &str, values: &[Option<Value<DB>>]) -> Result<(), SyntaxError> {
    let sql: Sql<DB> = Select::build("some_table")
        .select_column("col1")
        .select_expression(count(ColumnReference::new("col2").into_sql()).into_sql(), "some_total")
        .where_column_equal_to("foo_id", 1i32)
        .where_clause(|clause| clause.column_equal_to("foo555", "bar555"))
        .with_group_by_clause(GroupBy::build().group_by_column("col1").finalize()?)
        .with_having_clause(
            Having::build()
                .expression(
                    count(ColumnReference::new("col2").into_sql())
                        .into_sql()
                        .greater_than_equal_to(Sql::value(5i32))
                        .into_sql(),
                )
                .finalize()?,
        )
        .with_order_by_clause(OrderBy::build().order_by_column_desc("some_total").finalize()?)
        .finalize()?
        .into_sql();
    compare(&sql, text, values)
}

#[test]
fn select_full_postgres() -> Result<(), SyntaxError> {
    select_full_case::<Postgres>(
        r#"select "col1", count("col2") as "some_total" from "some_table" where "foo_id"=$1 and "foo555"=$2 group by "col1" having count("col2") >= $3 order by "some_total" desc"#,
        &[1i32.into_sql_value(), "bar555".into_sql_value(), 5i32.into_sql_value()],
    )
}

#[test]
fn select_full_mysql() -> Result<(), SyntaxError> {
    select_full_case::<MySql>(
        "select `col1`, count(`col2`) as `some_total` \
        from `some_table` \
        where `foo_id`=? \
        and `foo555`=? \
        group by `col1` \
        having count(`col2`) >= ? \
        order by `some_total` desc",
        &[1i32.into_sql_value(), "bar555".into_sql_value(), 5i32.into_sql_value()],
    )
}

fn select_group_by_case<DB: Database>(text: &str, values: &[Option<Value<DB>>]) -> Result<(), SyntaxError> {
    let sql: Sql<DB> = Select::build("some_table")
        .select_column("col1")
        .with_group_by_clause(GroupBy::build().group_by_column("col2").finalize()?)
        .with_having_clause(Having::build().column_equal_to("foo", 1u32).finalize()?)
        .finalize()?
        .into_sql();
    compare(&sql, text, values)
}

#[test]
fn select_group_by_postgres() -> Result<(), SyntaxError> {
    select_group_by_case::<Postgres>(
        r#"select "col1" from "some_table" group by "col2" having "foo"=$1"#,
        &[1u32.into_sql_value()],
    )
}

#[test]
fn select_group_by_mysql() -> Result<(), SyntaxError> {
    select_group_by_case::<MySql>("select `col1` from `some_table` group by `col2` having `foo`=?", &[1u32.into_sql_value()])
}

fn select_join_case<DB: Database>(text: &str, values: &[Option<Value<DB>>]) -> Result<(), SyntaxError> {
    let sql: Sql<DB> = Select::build_with_join(
        SqlFrom::build(TableReferenceKind::table("table1"), "t1")
            .inner_join(TableReferenceKind::table("table2"), "t2", SqlOn::from_fk("t2", "fk_t1_id", "t1", "id")?)
            .finalize()?,
    )
    .select_column("t1", "col1")
    .select_columns(vec![("t2", "col2")])
    .where_column_equal_to("t1", "col1", 1i32)
    .with_where_clause(
        Where::build_with_join().column_equal_to("t1", "col2", 2i32).and_column_equal_to("t2", "col1", 3i32).finalize()?,
    )
    .finalize()?
    .into_sql();
    compare(&sql, text, values)
}

#[test]
fn select_join_postgres() -> Result<(), SyntaxError> {
    select_join_case::<Postgres>(
        r#"select "t1"."col1", "t2"."col2" from "table1" "t1" inner join "table2" "t2" on "t2"."fk_t1_id" = "t1"."id" where "t1"."col1"=$1 and "t1"."col2"=$2 and "t2"."col1"=$3"#,
        &[1i32.into_sql_value(), 2i32.into_sql_value(), 3i32.into_sql_value()],
    )
}

#[test]
fn select_join_mysql() -> Result<(), SyntaxError> {
    select_join_case::<MySql>(
        "select `t1`.`col1`, `t2`.`col2` from `table1` `t1` inner join `table2` `t2` on `t2`.`fk_t1_id` = `t1`.`id` where `t1`.`col1`=? and `t1`.`col2`=? and `t2`.`col1`=?",
        &[1i32.into_sql_value(), 2i32.into_sql_value(), 3i32.into_sql_value()],
    )
}

fn select_order_by_case<DB: Database>(text: &str, values: &[Option<Value<DB>>]) -> Result<(), SyntaxError> {
    let sql: Sql<DB> = Select::build("some_table")
        .select_column("col1")
        .with_order_by_clause(OrderBy::build().order_by_column_asc("col2").finalize()?)
        .finalize()?
        .into_sql();
    compare(&sql, text, values)
}

#[test]
fn select_order_by_postgres() -> Result<(), SyntaxError> {
    select_order_by_case::<Postgres>(r#"select "col1" from "some_table" order by "col2" asc"#, &[])
}

#[test]
fn select_order_by_mysql() -> Result<(), SyntaxError> {
    select_order_by_case::<MySql>("select `col1` from `some_table` order by `col2` asc", &[])
}

fn order_by_iter_case<DB: Database>(text: &str, values: &[Option<Value<DB>>]) -> Result<(), SyntaxError> {
    let sql: Sql<DB> = Select::build("foo").select_column("col1").order_by(vec![("col1", false)]).finalize()?.into_sql();
    compare(&sql, text, values)
}

#[test]
fn order_by_iter_postgres() -> Result<(), SyntaxError> {
    order_by_iter_case::<Postgres>(r#"select "col1" from "foo" order by "col1" desc"#, &[])
}

#[test]
fn order_by_iter_mysql() -> Result<(), SyntaxError> {
    order_by_iter_case::<MySql>("select `col1` from `foo` order by `col1` desc", &[])
}

fn order_by_iter_with_join_case<DB: Database>(text: &str, values: &[Option<Value<DB>>]) -> Result<(), SyntaxError> {
    let sql: Sql<DB> = Select::build_with_join(SqlFrom::build(TableReferenceKind::table("foo"), "f").finalize()?)
        .select_column("f", "col1")
        .order_by(vec![("f", "col1", true)])
        .finalize()?
        .into_sql();
    compare(&sql, text, values)
}

#[test]
fn order_by_iter_with_join_postgres() -> Result<(), SyntaxError> {
    order_by_iter_with_join_case::<Postgres>(r#"select "f"."col1" from "foo" "f" order by "f"."col1" asc"#, &[])
}

#[test]
fn order_by_iter_with_join_mysql() -> Result<(), SyntaxError> {
    order_by_iter_with_join_case::<MySql>("select `f`.`col1` from `foo` `f` order by `f`.`col1` asc", &[])
}
