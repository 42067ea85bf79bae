use ursid_sqlx::expression::{SqlExpression, TableAndColumnReference};
use ursid_sqlx::function::{coalesce, current_datetime};
use ursid_sqlx::statement::select::Select;
use ursid_sqlx::{Database, IntoSqlValue, MySql, Postgres, Sql, SyntaxError, Value};

fn compare<DB: Database>(sql: &Sql<DB>, text: &str, values: &[Option<Value<DB>>]) -> Result<(), SyntaxError> {
    assert_eq!(sql.query(), text);
    assert_eq!(sql.params(), values);
    Ok(())
}

fn combined<DB: Database>() -> Result<Sql<DB>, SyntaxError> {
    Ok(coalesce(TableAndColumnReference::new("tbl", "created_datetime").into_sql(), current_datetime().into_sql())
        .into_sql()
        .greater_than(Sql::value("2000-01-01"))
        .into_sql()
        .and(
            Select::build("tbl")
                .select_column("view_count")
                .finalize()?
                .into_sql()
                .wrap_in_parenthesis()
                .into_sql()
                .less_than(Sql::value(123i32))
                .into_sql(),
        )
        .into_sql()
        .and(TableAndColumnReference::new("tbl", "status").into_sql().not_equal_to(Sql::value(Option::<u32>::None)).into_sql())
        .into_sql()
        .and(TableAndColumnReference::new("tbl", "status").into_sql().is_not_null().into_sql())
        .into_sql())
}

#[test]
fn mod_postgres() -> Result<(), SyntaxError> {
    compare::<Postgres>(
        &combined()?,
        r#"coalesce("tbl"."created_datetime", current_timestamp()) > $1 and (select "view_count" from "tbl") < $2 and "tbl"."status" is not null and "tbl"."status" is not null"#,
        &["2000-01-01".into_sql_value(), 123i32.into_sql_value()],
    )
}

#[test]
fn mod_mysql() -> Result<(), SyntaxError> {
    compare::<MySql>(
        &combined()?,
        "coalesce(`tbl`.`created_datetime`, current_timestamp()) > ? and (select `view_count` from `tbl`) < ? and `tbl`.`status` is not null and `tbl`.`status` is not null",
        &["2000-01-01".into_sql_value(), 123i32.into_sql_value()],
    )
}
