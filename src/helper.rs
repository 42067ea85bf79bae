use vstd::prelude::*;
use core::marker::PhantomData;
use crate::clause::sql_from::SqlFrom;
use crate::clause::where_like::{Where, WhereLikeBuilder, WhereLikeKind};
use crate::crud;
use crate::dialect::{Database, MySql, Postgres};
use crate::statement::delete::{Delete, DeleteBuilder};
use crate::statement::insert::{Insert, InsertBuilder};
use crate::statement::select::{Select, SelectBuilder};
use crate::statement::update::{Update, UpdateBuilder};
use crate::clause::sql_from::single_table;

verus! {

/// Entry points to the builders of one backend, which fix the dialect for inference.
pub trait BuilderHelper<DB: Database> {
    fn build_sql(&self) -> (r: SqlHelper<DB>) {
        SqlHelper { database: PhantomData }
    }

    fn build_crud(&self) -> (r: CrudHelper<DB>) {
        CrudHelper { database: PhantomData }
    }
}

impl BuilderHelper<MySql> for MySql {

}

impl BuilderHelper<Postgres> for Postgres {

}

pub struct SqlHelper<DB: Database> {
    pub database: PhantomData<DB>,
}

pub struct SqlStatementHelper<DB: Database> {
    pub database: PhantomData<DB>,
}

pub struct SqlClauseHelper<DB: Database> {
    pub database: PhantomData<DB>,
}

pub struct CrudHelper<DB: Database> {
    pub database: PhantomData<DB>,
}

impl<DB: Database> SqlHelper<DB> {
    pub fn statement(&self) -> (r: SqlStatementHelper<DB>) {
        SqlStatementHelper { database: PhantomData }
    }

    pub fn clause(&self) -> (r: SqlClauseHelper<DB>) {
        SqlClauseHelper { database: PhantomData }
    }
}

impl<DB: Database> SqlStatementHelper<DB> {
    pub fn select(&self, table_name: &str) -> (r: SelectBuilder<DB, false, false, false, false, false>)
        ensures
            single_table(r.from_clause, table_name@),
            r.select_columns@.len() == 0,
            r.where_clause_builder is None,
            r.group_by_clause is None,
            r.having_clause_builder is None,
            r.order_by_clause is None,
    {
        Select::build(table_name)
    }

    pub fn select_with_join(&self, from_clause: SqlFrom<DB>) -> (r: SelectBuilder<DB, false, false, false, false, true>)
        ensures
            r.from_clause == from_clause,
            r.select_columns@.len() == 0,
            r.where_clause_builder is None,
            r.group_by_clause is None,
            r.having_clause_builder is None,
            r.order_by_clause is None,
    {
        Select::build_with_join(from_clause)
    }

    pub fn insert(&self, table_name: &str) -> (r: InsertBuilder<DB>)
        ensures
            r.table_name@ == table_name@,
            r.pairs@.len() == 0,
    {
        Insert::build(table_name)
    }

    pub fn update(&self, table_name: &str) -> (r: UpdateBuilder<DB, false>)
        ensures
            r.table_name@ == table_name@,
            r.set_pairs@.len() == 0,
            r.where_clause_builder is None,
    {
        Update::build(table_name)
    }

    pub fn delete(&self, table_name: &str) -> (r: DeleteBuilder<DB>)
        ensures
            r.table_name@ == table_name@,
            r.where_clause_builder is None,
    {
        Delete::build(table_name)
    }
}

impl<DB: Database> SqlClauseHelper<DB> {
    pub fn sql_where(&self) -> (r: WhereLikeBuilder<DB, false, false>)
        ensures
            r.kind == WhereLikeKind::Where,
            r.predicates@.len() == 0,
    {
        Where::build()
    }

    pub fn sql_where_with_join(&self) -> (r: WhereLikeBuilder<DB, false, true>)
        ensures
            r.kind == WhereLikeKind::Where,
            r.predicates@.len() == 0,
    {
        Where::build_with_join()
    }
}

impl<DB: Database> CrudHelper<DB> {
    pub fn insert_row(&self, table_name: &str) -> (r: crud::insert::InsertBuilder<DB>)
        ensures
            r.statement.table_name@ == table_name@,
            r.statement.pairs@.len() == 0,
    {
        crud::insert_row(table_name)
    }

    pub fn update_rows(&self, table_name: &str) -> (r: crud::update::UpdateBuilder<DB, false>)
        ensures
            r.statement.table_name@ == table_name@,
            r.statement.set_pairs@.len() == 0,
            r.statement.where_clause_builder is None,
    {
        crud::update_rows(table_name)
    }

    pub fn replace_row(&self, table_name: &str) -> (r: crud::replace::ReplaceBuilder<DB, false, false>)
        ensures
            r.table_name@ == table_name@,
            r.modifications@.len() == 0,
            r.keys@.len() == 0,
    {
        crud::replace_row(table_name)
    }

    pub fn delete_rows(&self, table_name: &str) -> (r: crud::delete::DeleteBuilder<DB>)
        ensures
            r.statement.table_name@ == table_name@,
            r.statement.where_clause_builder is None,
    {
        crud::delete_rows(table_name)
    }
}

} // verus!
