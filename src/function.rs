use vstd::prelude::*;
use core::marker::PhantomData;
use crate::dialect::{Database, Dialect};
use crate::expression::{SqlExpression, then_raw, wrapped};
use crate::sql::{Sql, SqlView, append_separated, cat, raw_view, sep_fold, sql_views};

verus! {

/// `current_timestamp()`.
#[derive(Debug)]
pub struct CurrentDatetime<DB: Database> {
    pub db: PhantomData<DB>,
}

pub fn current_datetime<DB: Database>() -> (r: CurrentDatetime<DB>) {
    CurrentDatetime { db: PhantomData }
}

impl<DB: Database> CurrentDatetime<DB> {
    pub fn into_sql(self) -> (r: Sql<DB>)
        ensures
            r@ == raw_view("current_timestamp()"@),
    {
        Sql::raw("current_timestamp()")
    }
}

/// The unit in which a date difference is counted.
#[derive(Clone, Copy, Debug, PartialEq, Eq, Structural)]
pub enum DateDiffInterval {
    Day,
    Minute,
}

/// The difference between two datetimes, in days or in minutes.
#[derive(Debug)]
pub struct DateDiff<DB: Database> {
    pub interval: DateDiffInterval,
    pub datetime1: Sql<DB>,
    pub datetime2: Sql<DB>,
}

pub fn day_diff<DB: Database>(datetime1: Sql<DB>, datetime2: Sql<DB>) -> (r: DateDiff<DB>)
    ensures
        r.interval == DateDiffInterval::Day,
        r.datetime1@ == datetime1@,
        r.datetime2@ == datetime2@,
{
    DateDiff { interval: DateDiffInterval::Day, datetime1, datetime2 }
}

pub fn minute_diff<DB: Database>(datetime1: Sql<DB>, datetime2: Sql<DB>) -> (r: DateDiff<DB>)
    ensures
        r.interval == DateDiffInterval::Minute,
        r.datetime1@ == datetime1@,
        r.datetime2@ == datetime2@,
{
    DateDiff { interval: DateDiffInterval::Minute, datetime1, datetime2 }
}

/// `date_part('<part>',<b>::timestamp - <a>::timestamp)` appended to `acc`, with the
/// opening text `open`.
pub open spec fn date_part_onto<DB: Database>(acc: SqlView, open: Seq<char>, a: SqlView, b: SqlView, close: Seq<char>) -> SqlView {
    then_raw::<DB>(cat::<DB>(then_raw::<DB>(cat::<DB>(then_raw::<DB>(acc, open), b), "::timestamp - "@), a), close)
}

/// The rendering of a date difference: MySQL counts with `timestampdiff`, PostgreSQL
/// combines `date_part` calls on the difference of the two timestamps.
pub open spec fn date_diff_view<DB: Database>(interval: DateDiffInterval, a: SqlView, b: SqlView) -> SqlView {
    match DB::dialect_spec() {
        Dialect::MySql => then_raw::<DB>(
            cat::<DB>(
                then_raw::<DB>(
                    cat::<DB>(
                        then_raw::<DB>(
                            then_raw::<DB>(
                                raw_view("timestampdiff("@),
                                if interval == DateDiffInterval::Day { "DAY"@ } else { "MINUTE"@ },
                            ),
                            ","@,
                        ),
                        a,
                    ),
                    ","@,
                ),
                b,
            ),
            ")"@,
        ),
        Dialect::Postgres => if interval == DateDiffInterval::Day {
            date_part_onto::<DB>(raw_view(seq![]), "date_part('day',"@, a, b, "::timestamp)"@)
        } else {
            date_part_onto::<DB>(
                date_part_onto::<DB>(
                    date_part_onto::<DB>(raw_view(seq![]), "(date_part('day',"@, a, b, "::timestamp) * 24 * 60"@),
                    " + date_part('hour',"@,
                    a,
                    b,
                    "::timestamp) * 60"@,
                ),
                " + date_part('minute',"@,
                a,
                b,
                "::timestamp))"@,
            )
        },
    }
}

fn date_part_append<DB: Database>(acc: Sql<DB>, open: &str, a: Sql<DB>, b: Sql<DB>, close: &str) -> (r: Sql<DB>)
    ensures
        r@ == date_part_onto::<DB>(acc@, open@, a@, b@, close@),
{
    acc.raw_append(open).append(b).raw_append("::timestamp - ").append(a).raw_append(close)
}

impl<DB: Database> DateDiff<DB> {
    pub fn into_sql(self) -> (r: Sql<DB>)
        ensures
            r@ == date_diff_view::<DB>(self.interval, self.datetime1@, self.datetime2@),
    {
        let DateDiff { interval, datetime1, datetime2 } = self;
        match DB::dialect() {
            Dialect::MySql => {
                let unit = match interval {
                    DateDiffInterval::Day => "DAY",
                    DateDiffInterval::Minute => "MINUTE",
                };
                Sql::raw("timestampdiff(").raw_append(unit).raw_append(",").append(datetime1).raw_append(
                    ",",
                ).append(datetime2).raw_append(")")
            },
            Dialect::Postgres => {
                let start = Sql::raw("");
                proof {
                    reveal_strlit("");
                }
                match interval {
                    DateDiffInterval::Day => date_part_append(
                        start,
                        "date_part('day',",
                        datetime1,
                        datetime2,
                        "::timestamp)",
                    ),
                    DateDiffInterval::Minute => {
                        let days = date_part_append(
                            start,
                            "(date_part('day',",
                            datetime1.clone(),
                            datetime2.clone(),
                            "::timestamp) * 24 * 60",
                        );
                        let hours = date_part_append(
                            days,
                            " + date_part('hour',",
                            datetime1.clone(),
                            datetime2.clone(),
                            "::timestamp) * 60",
                        );
                        date_part_append(hours, " + date_part('minute',", datetime1, datetime2, "::timestamp))")
                    },
                }
            },
        }
    }
}

/// `lower(<value>)`.
#[derive(Debug)]
pub struct Lower<DB: Database> {
    pub value: Sql<DB>,
}

pub fn lower<DB: Database>(value: Sql<DB>) -> (r: Lower<DB>)
    ensures
        r.value@ == value@,
{
    Lower { value }
}

impl<DB: Database> Lower<DB> {
    pub fn into_sql(self) -> (r: Sql<DB>)
        ensures
            r@ == wrapped::<DB>("lower("@, self.value@, ")"@),
    {
        Sql::raw("lower(").append(self.value).raw_append(")")
    }
}

/// `coalesce(<arg>, <arg>, ...)`.
#[derive(Debug)]
pub struct Coalesce<DB: Database> {
    pub args: Vec<Sql<DB>>,
}

/// `concat(<arg>, <arg>, ...)`.
#[derive(Debug)]
pub struct Concat<DB: Database> {
    pub args: Vec<Sql<DB>>,
}

/// `<name>(` then the arguments separated by `, `, then `)`.
pub open spec fn call_view<DB: Database>(name: Seq<char>, args: Seq<SqlView>) -> SqlView {
    then_raw::<DB>(sep_fold::<DB>(raw_view(name + "("@), args, ", "@), ")"@)
}

fn two<DB: Database>(a: Sql<DB>, b: Sql<DB>) -> (r: Vec<Sql<DB>>)
    ensures
        sql_views(r@) == seq![a@, b@],
{
    let mut v = Vec::new();
    v.push(a);
    v.push(b);
    assert(sql_views(v@) =~= seq![a@, b@]);
    v
}

fn three<DB: Database>(a: Sql<DB>, b: Sql<DB>, c: Sql<DB>) -> (r: Vec<Sql<DB>>)
    ensures
        sql_views(r@) == seq![a@, b@, c@],
{
    let mut v = Vec::new();
    v.push(a);
    v.push(b);
    v.push(c);
    assert(sql_views(v@) =~= seq![a@, b@, c@]);
    v
}

pub fn coalesce<DB: Database>(value1: Sql<DB>, value2: Sql<DB>) -> (r: Coalesce<DB>)
    ensures
        sql_views(r.args@) == seq![value1@, value2@],
{
    Coalesce { args: two(value1, value2) }
}

pub fn coalesce3<DB: Database>(value1: Sql<DB>, value2: Sql<DB>, value3: Sql<DB>) -> (r: Coalesce<DB>)
    ensures
        sql_views(r.args@) == seq![value1@, value2@, value3@],
{
    Coalesce { args: three(value1, value2, value3) }
}

pub fn concat<DB: Database>(value1: Sql<DB>, value2: Sql<DB>) -> (r: Concat<DB>)
    ensures
        sql_views(r.args@) == seq![value1@, value2@],
{
    Concat { args: two(value1, value2) }
}

pub fn concat3<DB: Database>(value1: Sql<DB>, value2: Sql<DB>, value3: Sql<DB>) -> (r: Concat<DB>)
    ensures
        sql_views(r.args@) == seq![value1@, value2@, value3@],
{
    Concat { args: three(value1, value2, value3) }
}

impl<DB: Database> Coalesce<DB> {
    pub fn into_sql(self) -> (r: Sql<DB>)
        ensures
            r@ == call_view::<DB>("coalesce"@, sql_views(self.args@)),
    {
        proof {
            assert("coalesce"@ + "("@ =~= "coalesce("@) by {
                reveal_strlit("coalesce");
                reveal_strlit("(");
                reveal_strlit("coalesce(");
            }
        }
        append_separated(Sql::raw("coalesce("), self.args, ", ").raw_append(")")
    }
}

impl<DB: Database> Concat<DB> {
    pub fn into_sql(self) -> (r: Sql<DB>)
        ensures
            r@ == call_view::<DB>("concat"@, sql_views(self.args@)),
    {
        proof {
            assert("concat"@ + "("@ =~= "concat("@) by {
                reveal_strlit("concat");
                reveal_strlit("(");
                reveal_strlit("concat(");
            }
        }
        append_separated(Sql::raw("concat("), self.args, ", ").raw_append(")")
    }
}

/// `count(<expr>)`.
#[derive(Debug)]
pub struct Count<DB: Database> {
    pub expr: Sql<DB>,
}

/// `min(<expr>)`.
#[derive(Debug)]
pub struct Min<DB: Database> {
    pub expr: Sql<DB>,
}

/// `max(<expr>)`.
#[derive(Debug)]
pub struct Max<DB: Database> {
    pub expr: Sql<DB>,
}

/// `abs(<expr>)`.
#[derive(Debug)]
pub struct Abs<DB: Database> {
    pub expr: Sql<DB>,
}

pub fn count<DB: Database>(expr: Sql<DB>) -> (r: Count<DB>)
    ensures
        r.expr@ == expr@,
{
    Count { expr }
}

pub fn min<DB: Database>(expr: Sql<DB>) -> (r: Min<DB>)
    ensures
        r.expr@ == expr@,
{
    Min { expr }
}

pub fn max<DB: Database>(expr: Sql<DB>) -> (r: Max<DB>)
    ensures
        r.expr@ == expr@,
{
    Max { expr }
}

pub fn abs<DB: Database>(expr: Sql<DB>) -> (r: Abs<DB>)
    ensures
        r.expr@ == expr@,
{
    Abs { expr }
}

impl<DB: Database> Count<DB> {
    pub fn into_sql(self) -> (r: Sql<DB>)
        ensures
            r@ == wrapped::<DB>("count("@, self.expr@, ")"@),
    {
        Sql::raw("count(").append(self.expr).raw_append(")")
    }
}

impl<DB: Database> Min<DB> {
    pub fn into_sql(self) -> (r: Sql<DB>)
        ensures
            r@ == wrapped::<DB>("min("@, self.expr@, ")"@),
    {
        Sql::raw("min(").append(self.expr).raw_append(")")
    }
}

impl<DB: Database> Max<DB> {
    pub fn into_sql(self) -> (r: Sql<DB>)
        ensures
            r@ == wrapped::<DB>("max("@, self.expr@, ")"@),
    {
        Sql::raw("max(").append(self.expr).raw_append(")")
    }
}

impl<DB: Database> Abs<DB> {
    pub fn into_sql(self) -> (r: Sql<DB>)
        ensures
            r@ == wrapped::<DB>("abs("@, self.expr@, ")"@),
    {
        Sql::raw("abs(").append(self.expr).raw_append(")")
    }
}

impl<DB: Database> SqlExpression<DB> for CurrentDatetime<DB> {
    open spec fn expr_view(&self) -> SqlView {
        raw_view("current_timestamp()"@)
    }

    fn into_expression(self) -> (r: Sql<DB>) {
        CurrentDatetime::into_sql(self)
    }
}

impl<DB: Database> SqlExpression<DB> for DateDiff<DB> {
    open spec fn expr_view(&self) -> SqlView {
        date_diff_view::<DB>(self.interval, self.datetime1@, self.datetime2@)
    }

    fn into_expression(self) -> (r: Sql<DB>) {
        DateDiff::into_sql(self)
    }
}

impl<DB: Database> SqlExpression<DB> for Lower<DB> {
    open spec fn expr_view(&self) -> SqlView {
        wrapped::<DB>("lower("@, self.value@, ")"@)
    }

    fn into_expression(self) -> (r: Sql<DB>) {
        Lower::into_sql(self)
    }
}

impl<DB: Database> SqlExpression<DB> for Coalesce<DB> {
    open spec fn expr_view(&self) -> SqlView {
        call_view::<DB>("coalesce"@, sql_views(self.args@))
    }

    fn into_expression(self) -> (r: Sql<DB>) {
        Coalesce::into_sql(self)
    }
}

impl<DB: Database> SqlExpression<DB> for Concat<DB> {
    open spec fn expr_view(&self) -> SqlView {
        call_view::<DB>("concat"@, sql_views(self.args@))
    }

    fn into_expression(self) -> (r: Sql<DB>) {
        Concat::into_sql(self)
    }
}

impl<DB: Database> SqlExpression<DB> for Count<DB> {
    open spec fn expr_view(&self) -> SqlView {
        wrapped::<DB>("count("@, self.expr@, ")"@)
    }

    fn into_expression(self) -> (r: Sql<DB>) {
        Count::into_sql(self)
    }
}

impl<DB: Database> SqlExpression<DB> for Min<DB> {
    open spec fn expr_view(&self) -> SqlView {
        wrapped::<DB>("min("@, self.expr@, ")"@)
    }

    fn into_expression(self) -> (r: Sql<DB>) {
        Min::into_sql(self)
    }
}

impl<DB: Database> SqlExpression<DB> for Max<DB> {
    open spec fn expr_view(&self) -> SqlView {
        wrapped::<DB>("max("@, self.expr@, ")"@)
    }

    fn into_expression(self) -> (r: Sql<DB>) {
        Max::into_sql(self)
    }
}

impl<DB: Database> SqlExpression<DB> for Abs<DB> {
    open spec fn expr_view(&self) -> SqlView {
        wrapped::<DB>("abs("@, self.expr@, ")"@)
    }

    fn into_expression(self) -> (r: Sql<DB>) {
        Abs::into_sql(self)
    }
}

} // verus!
