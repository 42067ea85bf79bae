use vstd::prelude::*;
use vstd::string::*;

verus! {

/// The clause that a structural error is about.
#[derive(Clone, Copy, Debug, PartialEq, Eq, Structural)]
pub enum SyntaxErrorKind {
    MissingSelectPredicates,
    MissingOrderByPredicates,
    MissingGroupByPredicates,
    MissingWherePredicates,
    MissingUpdatePredicates,
    Other,
}

pub open spec fn syntax_kind_text(k: SyntaxErrorKind) -> Seq<char> {
    match k {
        SyntaxErrorKind::MissingSelectPredicates => "SQL SELECT statement must specify at least one column/expression for retrieval"@,
        SyntaxErrorKind::MissingOrderByPredicates => "SQL ORDER BY statement must specify at least one column/expression"@,
        SyntaxErrorKind::MissingGroupByPredicates => "SQL GROUP BY statement must specify at least one column/expression"@,
        SyntaxErrorKind::MissingWherePredicates => "SQL WHERE clause must specify at least one predicate"@,
        SyntaxErrorKind::MissingUpdatePredicates => "SQL UPDATE statement must specify at least one column to set"@,
        SyntaxErrorKind::Other => "Other"@,
    }
}

impl SyntaxErrorKind {
    /// The description of the error kind.
    pub fn message(&self) -> (r: &'static str)
        ensures
            r@ == syntax_kind_text(*self),
    {
        match self {
            SyntaxErrorKind::MissingSelectPredicates => "SQL SELECT statement must specify at least one column/expression for retrieval",
            SyntaxErrorKind::MissingOrderByPredicates => "SQL ORDER BY statement must specify at least one column/expression",
            SyntaxErrorKind::MissingGroupByPredicates => "SQL GROUP BY statement must specify at least one column/expression",
            SyntaxErrorKind::MissingWherePredicates => "SQL WHERE clause must specify at least one predicate",
            SyntaxErrorKind::MissingUpdatePredicates => "SQL UPDATE statement must specify at least one column to set",
            SyntaxErrorKind::Other => "Other",
        }
    }
}

/// A statement or clause that was finalized without an entry it requires.
#[derive(Clone, Debug, PartialEq, Eq)]
pub struct SyntaxError {
    pub kind: SyntaxErrorKind,
    pub sql: String,
}

impl SyntaxError {
    pub fn new(kind: SyntaxErrorKind, sql: String) -> (r: Self)
        ensures
            r.kind == kind,
            r.sql@ == sql@,
    {
        SyntaxError { kind, sql }
    }

    pub fn kind(&self) -> (r: &SyntaxErrorKind)
        ensures
            *r == self.kind,
    {
        &self.kind
    }

    pub fn sql(&self) -> (r: &str)
        ensures
            r@ == self.sql@,
    {
        self.sql.as_str()
    }

    /// The description of the error, with the text near which it was found when known.
    pub fn message(&self) -> (r: String)
        ensures
            self.sql@.len() == 0 ==> r@ == "SQL syntax error: "@ + syntax_kind_text(self.kind),
            self.sql@.len() > 0 ==> r@ == "SQL syntax error: "@ + syntax_kind_text(self.kind) + ": Near \""@ + self.sql@
                + "\""@,
    {
        let mut msg = String::from_str("SQL syntax error: ");
        msg.append(self.kind.message());
        if self.sql.as_str().unicode_len() > 0 {
            msg.append(": Near \"");
            msg.append(self.sql.as_str());
            msg.append("\"");
        }
        msg
    }
}

/// A frozen fragment was handed to execution after its values were consumed.
#[derive(Clone, Copy, Debug, PartialEq, Eq, Structural)]
pub struct QueryError {}

impl QueryError {
    pub fn new() -> (r: Self) {
        QueryError {  }
    }

    pub fn message(&self) -> (r: &'static str)
        ensures
            r@ == "FrozenSql has already been consumed, and cannot be used to build another query"@,
    {
        "FrozenSql has already been consumed, and cannot be used to build another query"
    }
}

#[derive(Clone, Copy, Debug, PartialEq, Eq, Structural)]
pub enum CrudErrorKind {
    MultipleRowsWouldBeUpdated,
    MissingKeyColumns,
}

pub open spec fn crud_kind_text(k: CrudErrorKind) -> Seq<char> {
    match k {
        CrudErrorKind::MultipleRowsWouldBeUpdated => "Multiple rows would be updated"@,
        CrudErrorKind::MissingKeyColumns => "At least one key column is required"@,
    }
}

impl CrudErrorKind {
    pub fn message(&self) -> (r: &'static str)
        ensures
            r@ == crud_kind_text(*self),
    {
        match self {
            CrudErrorKind::MultipleRowsWouldBeUpdated => "Multiple rows would be updated",
            CrudErrorKind::MissingKeyColumns => "At least one key column is required",
        }
    }
}

/// A row-level operation broke its policy.
#[derive(Clone, Copy, Debug, PartialEq, Eq, Structural)]
pub struct CrudError {
    pub kind: CrudErrorKind,
}

impl CrudError {
    pub fn new(kind: CrudErrorKind) -> (r: Self)
        ensures
            r.kind == kind,
    {
        CrudError { kind }
    }

    pub fn kind(&self) -> (r: &CrudErrorKind)
        ensures
            *r == self.kind,
    {
        &self.kind
    }

    pub fn message(&self) -> (r: String)
        ensures
            r@ == "CRUD error: "@ + crud_kind_text(self.kind),
    {
        let mut msg = String::from_str("CRUD error: ");
        msg.append(self.kind.message());
        msg
    }
}

/// Every failure of an execution: the library's own errors, and the driver's, which
/// is carried as its message.
#[derive(Clone, Debug, PartialEq, Eq)]
pub enum ExecuteError {
    Syntax(SyntaxError),
    Query(QueryError),
    Crud(CrudError),
    Driver(String),
}

impl ExecuteError {
    pub fn message(&self) -> (r: &'static str)
        ensures
            r@ == "SQL execute error"@,
    {
        "SQL execute error"
    }
}

} // verus!
