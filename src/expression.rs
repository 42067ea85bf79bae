use vstd::prelude::*;
use vstd::string::*;
use core::marker::PhantomData;
use crate::dialect::{Database, Dialect};
use crate::sql::{Sql, SqlView, cat, raw_view, quoted, quote_identifier, is_null_word};

verus! {

/// A fragment that stands for SQL NULL (see `Sql::is_null`).
pub open spec fn null_fragment(v: SqlView) -> bool {
    is_null_word(v.text) && v.values.len() == 0
}

/// `a` followed by the literal text `t`.
pub open spec fn then_raw<DB: Database>(a: SqlView, t: Seq<char>) -> SqlView {
    cat::<DB>(a, raw_view(t))
}

/// `prefix`, then `x`, then `suffix`.
pub open spec fn wrapped<DB: Database>(prefix: Seq<char>, x: SqlView, suffix: Seq<char>) -> SqlView {
    then_raw::<DB>(cat::<DB>(raw_view(prefix), x), suffix)
}

/// A column named without its table.
#[derive(Debug)]
pub struct ColumnReference<DB: Database> {
    pub column_name: String,
    pub db: PhantomData<DB>,
}

/// A table name.
#[derive(Debug)]
pub struct TableReference<DB: Database> {
    pub table_name: String,
    pub db: PhantomData<DB>,
}

/// A column qualified by its table.
#[derive(Debug)]
pub struct TableAndColumnReference<DB: Database> {
    pub table_name: String,
    pub column_name: String,
    pub db: PhantomData<DB>,
}

/// The fragment of a qualified column: both names quoted, joined by a dot.
pub open spec fn qualified_view<DB: Database>(table: Seq<char>, column: Seq<char>) -> SqlView {
    raw_view(quoted(DB::dialect_spec(), table) + "."@ + quoted(DB::dialect_spec(), column))
}

/// The fragment of a single quoted identifier.
pub open spec fn identifier_view<DB: Database>(name: Seq<char>) -> SqlView {
    raw_view(quoted(DB::dialect_spec(), name))
}

impl<DB: Database> ColumnReference<DB> {
    pub fn new(column_name: &str) -> (r: Self)
        ensures
            r.column_name@ == column_name@,
    {
        ColumnReference { column_name: String::from_str(column_name), db: PhantomData }
    }

    pub fn with_table(table_name: &str, column_name: &str) -> (r: TableAndColumnReference<DB>)
        ensures
            r.table_name@ == table_name@,
            r.column_name@ == column_name@,
    {
        TableAndColumnReference::new(table_name, column_name)
    }

    pub fn into_sql(self) -> (r: Sql<DB>)
        ensures
            r@ == identifier_view::<DB>(self.column_name@),
    {
        Sql::raw(quote_identifier::<DB>(self.column_name.as_str()).as_str())
    }
}

impl<DB: Database> TableReference<DB> {
    pub fn new(table_name: &str) -> (r: Self)
        ensures
            r.table_name@ == table_name@,
    {
        TableReference { table_name: String::from_str(table_name), db: PhantomData }
    }

    pub fn into_sql(self) -> (r: Sql<DB>)
        ensures
            r@ == identifier_view::<DB>(self.table_name@),
    {
        Sql::raw(quote_identifier::<DB>(self.table_name.as_str()).as_str())
    }
}

impl<DB: Database> TableAndColumnReference<DB> {
    pub fn new(table_name: &str, column_name: &str) -> (r: Self)
        ensures
            r.table_name@ == table_name@,
            r.column_name@ == column_name@,
    {
        TableAndColumnReference {
            table_name: String::from_str(table_name),
            column_name: String::from_str(column_name),
            db: PhantomData,
        }
    }

    pub fn into_sql(self) -> (r: Sql<DB>)
        ensures
            r@ == qualified_view::<DB>(self.table_name@, self.column_name@),
    {
        let mut text = quote_identifier::<DB>(self.table_name.as_str());
        text.append(".");
        let column = quote_identifier::<DB>(self.column_name.as_str());
        text.append(column.as_str());
        Sql::raw(text.as_str())
    }
}

/// A comparison operator.
#[derive(Clone, Copy, Debug, PartialEq, Eq, Structural)]
pub enum ComparisonOp {
    GreaterThan,
    GreaterThanEqualTo,
    LessThan,
    LessThanEqualTo,
    EqualTo,
    NotEqualTo,
}

pub open spec fn comparison_text(op: ComparisonOp) -> Seq<char> {
    match op {
        ComparisonOp::GreaterThan => ">"@,
        ComparisonOp::GreaterThanEqualTo => ">="@,
        ComparisonOp::LessThan => "<"@,
        ComparisonOp::LessThanEqualTo => "<="@,
        ComparisonOp::EqualTo => "="@,
        ComparisonOp::NotEqualTo => "<>"@,
    }
}

impl ComparisonOp {
    pub fn text(self) -> (r: &'static str)
        ensures
            r@ == comparison_text(self),
    {
        match self {
            ComparisonOp::GreaterThan => ">",
            ComparisonOp::GreaterThanEqualTo => ">=",
            ComparisonOp::LessThan => "<",
            ComparisonOp::LessThanEqualTo => "<=",
            ComparisonOp::EqualTo => "=",
            ComparisonOp::NotEqualTo => "<>",
        }
    }
}

/// `lhs <op> rhs`.
pub open spec fn comparison_plain<DB: Database>(lhs: SqlView, op: ComparisonOp, rhs: SqlView) -> SqlView {
    cat::<DB>(then_raw::<DB>(then_raw::<DB>(then_raw::<DB>(lhs, " "@), comparison_text(op)), " "@), rhs)
}

/// The rendering of a comparison: equality with a null fragment becomes `is null`,
/// inequality with one `is not null`; anything else is `lhs <op> rhs`.
pub open spec fn comparison_view<DB: Database>(lhs: SqlView, op: ComparisonOp, rhs: SqlView) -> SqlView {
    if null_fragment(rhs) && op == ComparisonOp::EqualTo {
        then_raw::<DB>(lhs, " is null"@)
    } else if null_fragment(rhs) && op == ComparisonOp::NotEqualTo {
        then_raw::<DB>(lhs, " is not null"@)
    } else {
        comparison_plain::<DB>(lhs, op, rhs)
    }
}

/// A comparison of two expressions.
#[derive(Debug)]
pub struct ComparisonCombo<DB: Database> {
    pub lhs: Sql<DB>,
    pub op: ComparisonOp,
    pub rhs: Sql<DB>,
}

impl<DB: Database> ComparisonCombo<DB> {
    pub fn into_sql(self) -> (r: Sql<DB>)
        ensures
            r@ == comparison_view::<DB>(self.lhs@, self.op, self.rhs@),
    {
        let ComparisonCombo { lhs, op, rhs } = self;
        if Sql::is_null(&rhs) {
            match op {
                ComparisonOp::EqualTo => {
                    return lhs.raw_append(" is null");
                },
                ComparisonOp::NotEqualTo => {
                    return lhs.raw_append(" is not null");
                },
                _ => {},
            }
        }
        lhs.raw_append(" ").raw_append(op.text()).raw_append(" ").append(rhs)
    }
}

/// A logical combinator.
#[derive(Clone, Copy, Debug, PartialEq, Eq, Structural)]
pub enum LogicalOp {
    And,
    Or,
}

pub open spec fn logical_text(op: LogicalOp) -> Seq<char> {
    match op {
        LogicalOp::And => "and"@,
        LogicalOp::Or => "or"@,
    }
}

impl LogicalOp {
    pub fn text(self) -> (r: &'static str)
        ensures
            r@ == logical_text(self),
    {
        match self {
            LogicalOp::And => "and",
            LogicalOp::Or => "or",
        }
    }
}

/// `lhs and rhs` or `lhs or rhs`.
#[derive(Debug)]
pub struct LogicalCombo<DB: Database> {
    pub lhs: Sql<DB>,
    pub op: LogicalOp,
    pub rhs: Sql<DB>,
}

pub open spec fn logical_view<DB: Database>(lhs: SqlView, op: LogicalOp, rhs: SqlView) -> SqlView {
    cat::<DB>(then_raw::<DB>(then_raw::<DB>(then_raw::<DB>(lhs, " "@), logical_text(op)), " "@), rhs)
}

impl<DB: Database> LogicalCombo<DB> {
    pub fn into_sql(self) -> (r: Sql<DB>)
        ensures
            r@ == logical_view::<DB>(self.lhs@, self.op, self.rhs@),
    {
        let LogicalCombo { lhs, op, rhs } = self;
        lhs.raw_append(" ").raw_append(op.text()).raw_append(" ").append(rhs)
    }
}

/// `not <expr>`.
#[derive(Debug)]
pub struct LogicalNot<DB: Database> {
    pub content: Sql<DB>,
}

impl<DB: Database> LogicalNot<DB> {
    pub fn new(expr: Sql<DB>) -> (r: Self)
        ensures
            r.content@ == expr@,
    {
        LogicalNot { content: expr }
    }

    pub fn into_sql(self) -> (r: Sql<DB>)
        ensures
            r@ == cat::<DB>(raw_view("not "@), self.content@),
    {
        Sql::raw("not ").append(self.content)
    }
}

/// `<expr> is null` or `<expr> is not null`.
#[derive(Debug)]
pub struct IsNull<DB: Database> {
    pub lhs: Sql<DB>,
    pub not: bool,
}

impl<DB: Database> IsNull<DB> {
    pub fn into_sql(self) -> (r: Sql<DB>)
        ensures
            r@ == then_raw::<DB>(self.lhs@, if self.not { " is not null"@ } else { " is null"@ }),
    {
        if self.not {
            self.lhs.raw_append(" is not null")
        } else {
            self.lhs.raw_append(" is null")
        }
    }
}

/// `(<expr>)`.
#[derive(Debug)]
pub struct Parenthesis<DB: Database> {
    pub content: Sql<DB>,
}

impl<DB: Database> Parenthesis<DB> {
    pub fn new(expr: Sql<DB>) -> (r: Self)
        ensures
            r.content@ == expr@,
    {
        Parenthesis { content: expr }
    }

    pub fn into_sql(self) -> (r: Sql<DB>)
        ensures
            r@ == wrapped::<DB>("("@, self.content@, ")"@),
    {
        Sql::raw("(").append(self.content).raw_append(")")
    }
}

/// The expression vocabulary shared by every fragment: comparisons, logical
/// combinators, null tests, negation and parenthesisation.
pub trait SqlExpression<DB: Database>: Sized {
    spec fn expr_view(&self) -> SqlView;

    fn into_expression(self) -> (r: Sql<DB>)
        ensures
            r@ == self.expr_view(),
    ;

    fn greater_than(self, rhs: Sql<DB>) -> (r: ComparisonCombo<DB>)
        ensures
            r.lhs@ == self.expr_view(),
            r.op == ComparisonOp::GreaterThan,
            r.rhs@ == rhs@,
    {
        ComparisonCombo { lhs: self.into_expression(), op: ComparisonOp::GreaterThan, rhs }
    }

    fn greater_than_equal_to(self, rhs: Sql<DB>) -> (r: ComparisonCombo<DB>)
        ensures
            r.lhs@ == self.expr_view(),
            r.op == ComparisonOp::GreaterThanEqualTo,
            r.rhs@ == rhs@,
    {
        ComparisonCombo { lhs: self.into_expression(), op: ComparisonOp::GreaterThanEqualTo, rhs }
    }

    fn less_than(self, rhs: Sql<DB>) -> (r: ComparisonCombo<DB>)
        ensures
            r.lhs@ == self.expr_view(),
            r.op == ComparisonOp::LessThan,
            r.rhs@ == rhs@,
    {
        ComparisonCombo { lhs: self.into_expression(), op: ComparisonOp::LessThan, rhs }
    }

    fn less_than_equal_to(self, rhs: Sql<DB>) -> (r: ComparisonCombo<DB>)
        ensures
            r.lhs@ == self.expr_view(),
            r.op == ComparisonOp::LessThanEqualTo,
            r.rhs@ == rhs@,
    {
        ComparisonCombo { lhs: self.into_expression(), op: ComparisonOp::LessThanEqualTo, rhs }
    }

    fn equal_to(self, rhs: Sql<DB>) -> (r: ComparisonCombo<DB>)
        ensures
            r.lhs@ == self.expr_view(),
            r.op == ComparisonOp::EqualTo,
            r.rhs@ == rhs@,
    {
        ComparisonCombo { lhs: self.into_expression(), op: ComparisonOp::EqualTo, rhs }
    }

    fn not_equal_to(self, rhs: Sql<DB>) -> (r: ComparisonCombo<DB>)
        ensures
            r.lhs@ == self.expr_view(),
            r.op == ComparisonOp::NotEqualTo,
            r.rhs@ == rhs@,
    {
        ComparisonCombo { lhs: self.into_expression(), op: ComparisonOp::NotEqualTo, rhs }
    }

    fn and(self, rhs: Sql<DB>) -> (r: LogicalCombo<DB>)
        ensures
            r.lhs@ == self.expr_view(),
            r.op == LogicalOp::And,
            r.rhs@ == rhs@,
    {
        LogicalCombo { lhs: self.into_expression(), op: LogicalOp::And, rhs }
    }

    fn or(self, rhs: Sql<DB>) -> (r: LogicalCombo<DB>)
        ensures
            r.lhs@ == self.expr_view(),
            r.op == LogicalOp::Or,
            r.rhs@ == rhs@,
    {
        LogicalCombo { lhs: self.into_expression(), op: LogicalOp::Or, rhs }
    }

    fn is_null(self) -> (r: IsNull<DB>)
        ensures
            r.lhs@ == self.expr_view(),
            !r.not,
    {
        IsNull { lhs: self.into_expression(), not: false }
    }

    fn is_not_null(self) -> (r: IsNull<DB>)
        ensures
            r.lhs@ == self.expr_view(),
            r.not,
    {
        IsNull { lhs: self.into_expression(), not: true }
    }

    fn wrap_in_parenthesis(self) -> (r: Parenthesis<DB>)
        ensures
            r.content@ == self.expr_view(),
    {
        Parenthesis { content: self.into_expression() }
    }

    fn wrap_in_not(self) -> (r: LogicalNot<DB>)
        ensures
            r.content@ == self.expr_view(),
    {
        LogicalNot { content: self.into_expression() }
    }
}

impl<DB: Database> SqlExpression<DB> for Sql<DB> {
    open spec fn expr_view(&self) -> SqlView {
        self@
    }

    fn into_expression(self) -> (r: Sql<DB>) {
        self
    }
}

impl<DB: Database> SqlExpression<DB> for ColumnReference<DB> {
    open spec fn expr_view(&self) -> SqlView {
        identifier_view::<DB>(self.column_name@)
    }

    fn into_expression(self) -> (r: Sql<DB>) {
        ColumnReference::into_sql(self)
    }
}

impl<DB: Database> SqlExpression<DB> for TableReference<DB> {
    open spec fn expr_view(&self) -> SqlView {
        identifier_view::<DB>(self.table_name@)
    }

    fn into_expression(self) -> (r: Sql<DB>) {
        TableReference::into_sql(self)
    }
}

impl<DB: Database> SqlExpression<DB> for TableAndColumnReference<DB> {
    open spec fn expr_view(&self) -> SqlView {
        qualified_view::<DB>(self.table_name@, self.column_name@)
    }

    fn into_expression(self) -> (r: Sql<DB>) {
        TableAndColumnReference::into_sql(self)
    }
}

impl<DB: Database> SqlExpression<DB> for ComparisonCombo<DB> {
    open spec fn expr_view(&self) -> SqlView {
        comparison_view::<DB>(self.lhs@, self.op, self.rhs@)
    }

    fn into_expression(self) -> (r: Sql<DB>) {
        ComparisonCombo::into_sql(self)
    }
}

impl<DB: Database> SqlExpression<DB> for LogicalCombo<DB> {
    open spec fn expr_view(&self) -> SqlView {
        logical_view::<DB>(self.lhs@, self.op, self.rhs@)
    }

    fn into_expression(self) -> (r: Sql<DB>) {
        LogicalCombo::into_sql(self)
    }
}

impl<DB: Database> SqlExpression<DB> for LogicalNot<DB> {
    open spec fn expr_view(&self) -> SqlView {
        cat::<DB>(raw_view("not "@), self.content@)
    }

    fn into_expression(self) -> (r: Sql<DB>) {
        LogicalNot::into_sql(self)
    }
}

impl<DB: Database> SqlExpression<DB> for IsNull<DB> {
    open spec fn expr_view(&self) -> SqlView {
        then_raw::<DB>(self.lhs@, if self.not { " is not null"@ } else { " is null"@ })
    }

    fn into_expression(self) -> (r: Sql<DB>) {
        IsNull::into_sql(self)
    }
}

impl<DB: Database> SqlExpression<DB> for Parenthesis<DB> {
    open spec fn expr_view(&self) -> SqlView {
        wrapped::<DB>("("@, self.content@, ")"@)
    }

    fn into_expression(self) -> (r: Sql<DB>) {
        Parenthesis::into_sql(self)
    }
}

} // verus!
