use vstd::prelude::*;
use vstd::string::*;
use core::marker::PhantomData;
use crate::dialect::{Database, Dialect};
use crate::sql::push_char;

verus! {

/// The dialect-independent kind of a bound value.
#[derive(Clone, Copy, Debug, PartialEq, Eq, Structural)]
pub enum ValueLogicalKind {
    Bool,
    U8,
    U16,
    U32,
    I8,
    I16,
    I32,
    I64,
    Text,
    Bytes,
}

/// The representation that a dialect sends to the driver for a bound value.
#[derive(Debug, PartialEq, Eq)]
pub enum ValueStorage {
    U8(u8),
    U16(u16),
    U32(u32),
    I8(i8),
    I16(i16),
    I32(i32),
    I64(i64),
    Text(String),
    Bytes(Vec<u8>),
}

/// A bound value: its logical kind and the storage chosen by the dialect of `DB`.
#[derive(Debug, PartialEq, Eq)]
pub struct Value<DB: Database> {
    pub logical_kind: ValueLogicalKind,
    pub storage_kind: ValueStorage,
    pub db: PhantomData<DB>,
}

/// What a storage holds, with text and bytes as sequences.
pub ghost enum StorageView {
    U8(u8),
    U16(u16),
    U32(u32),
    I8(i8),
    I16(i16),
    I32(i32),
    I64(i64),
    Text(Seq<char>),
    Bytes(Seq<u8>),
}

/// What a bound value holds.
pub ghost struct ValueView {
    pub logical_kind: ValueLogicalKind,
    pub storage: StorageView,
}

impl View for ValueStorage {
    type V = StorageView;

    open spec fn view(&self) -> StorageView {
        match self {
            ValueStorage::U8(v) => StorageView::U8(*v),
            ValueStorage::U16(v) => StorageView::U16(*v),
            ValueStorage::U32(v) => StorageView::U32(*v),
            ValueStorage::I8(v) => StorageView::I8(*v),
            ValueStorage::I16(v) => StorageView::I16(*v),
            ValueStorage::I32(v) => StorageView::I32(*v),
            ValueStorage::I64(v) => StorageView::I64(*v),
            ValueStorage::Text(s) => StorageView::Text(s@),
            ValueStorage::Bytes(b) => StorageView::Bytes(b@),
        }
    }
}

impl<DB: Database> View for Value<DB> {
    type V = ValueView;

    open spec fn view(&self) -> ValueView {
        ValueView { logical_kind: self.logical_kind, storage: self.storage_kind@ }
    }
}

pub open spec fn opt_view<DB: Database>(v: Option<Value<DB>>) -> Option<ValueView> {
    match v {
        Some(x) => Some(x@),
        None => None,
    }
}

/// The views of a list of optional values.
pub open spec fn values_view<DB: Database>(s: Seq<Option<Value<DB>>>) -> Seq<Option<ValueView>> {
    s.map_values(|v: Option<Value<DB>>| opt_view(v))
}

pub proof fn lemma_values_view_add<DB: Database>(a: Seq<Option<Value<DB>>>, b: Seq<Option<Value<DB>>>)
    ensures
        values_view(a + b) == values_view(a) + values_view(b),
{
    assert(values_view(a + b) =~= values_view(a) + values_view(b));
}

impl<DB: Database> Value<DB> {
    pub fn new(logical_kind: ValueLogicalKind, storage_kind: ValueStorage) -> (r: Self)
        ensures
            r.logical_kind == logical_kind,
            r.storage_kind == storage_kind,
    {
        Value { logical_kind, storage_kind, db: PhantomData }
    }
}

impl Clone for ValueStorage {
    fn clone(&self) -> (r: Self)
        ensures
            r@ == self@,
    {
        match self {
            ValueStorage::U8(v) => ValueStorage::U8(*v),
            ValueStorage::U16(v) => ValueStorage::U16(*v),
            ValueStorage::U32(v) => ValueStorage::U32(*v),
            ValueStorage::I8(v) => ValueStorage::I8(*v),
            ValueStorage::I16(v) => ValueStorage::I16(*v),
            ValueStorage::I32(v) => ValueStorage::I32(*v),
            ValueStorage::I64(v) => ValueStorage::I64(*v),
            ValueStorage::Text(s) => ValueStorage::Text(s.clone()),
            ValueStorage::Bytes(b) => {
                let c = b.clone();
                assert(c@ =~= b@);
                ValueStorage::Bytes(c)
            },
        }
    }
}

impl<DB: Database> Clone for Value<DB> {
    fn clone(&self) -> (r: Self)
        ensures
            r@ == self@,
    {
        Value { logical_kind: self.logical_kind, storage_kind: self.storage_kind.clone(), db: PhantomData }
    }
}

/// The view of a value of the given kind and storage.
pub open spec fn value_of(kind: ValueLogicalKind, storage: StorageView) -> Option<ValueView> {
    Some(ValueView { logical_kind: kind, storage })
}

/// Storage of a boolean: MySQL keeps it as the smallest unsigned integer, PostgreSQL
/// as the smallest signed one.
pub open spec fn bool_storage(d: Dialect, v: bool) -> StorageView {
    match d {
        Dialect::MySql => StorageView::U8(if v { 1 } else { 0 }),
        Dialect::Postgres => StorageView::I16(if v { 1 } else { 0 }),
    }
}

/// Storage of a `u8`: PostgreSQL has no unsigned types and widens it.
pub open spec fn u8_storage(d: Dialect, v: u8) -> StorageView {
    match d {
        Dialect::MySql => StorageView::U8(v),
        Dialect::Postgres => StorageView::I16(v as i16),
    }
}

pub open spec fn u16_storage(d: Dialect, v: u16) -> StorageView {
    match d {
        Dialect::MySql => StorageView::U16(v),
        Dialect::Postgres => StorageView::I32(v as i32),
    }
}

pub open spec fn u32_storage(d: Dialect, v: u32) -> StorageView {
    match d {
        Dialect::MySql => StorageView::U32(v),
        Dialect::Postgres => StorageView::I64(v as i64),
    }
}

pub open spec fn i8_storage(d: Dialect, v: i8) -> StorageView {
    match d {
        Dialect::MySql => StorageView::I8(v),
        Dialect::Postgres => StorageView::I16(v as i16),
    }
}

fn make<DB: Database>(kind: ValueLogicalKind, storage: ValueStorage) -> (r: Option<Value<DB>>)
    ensures
        opt_view(r) == value_of(kind, storage@),
{
    Some(Value { logical_kind: kind, storage_kind: storage, db: PhantomData })
}

/// Conversion of a plain value into the bound value of dialect `DB`.
pub trait IntoSqlValue<DB: Database>: Sized {
    /// The view of the value that `self` converts to.
    spec fn sql_value_view(&self) -> Option<ValueView>;

    fn into_sql_value(self) -> (r: Option<Value<DB>>)
        ensures
            opt_view(r) == self.sql_value_view(),
    ;
}

impl<DB: Database> IntoSqlValue<DB> for bool {
    open spec fn sql_value_view(&self) -> Option<ValueView> {
        value_of(ValueLogicalKind::Bool, bool_storage(DB::dialect_spec(), *self))
    }

    fn into_sql_value(self) -> (r: Option<Value<DB>>) {
        let s = match DB::dialect() {
            Dialect::MySql => ValueStorage::U8(if self { 1 } else { 0 }),
            Dialect::Postgres => ValueStorage::I16(if self { 1 } else { 0 }),
        };
        make(ValueLogicalKind::Bool, s)
    }
}

impl<DB: Database> IntoSqlValue<DB> for u8 {
    open spec fn sql_value_view(&self) -> Option<ValueView> {
        value_of(ValueLogicalKind::U8, u8_storage(DB::dialect_spec(), *self))
    }

    fn into_sql_value(self) -> (r: Option<Value<DB>>) {
        let s = match DB::dialect() {
            Dialect::MySql => ValueStorage::U8(self),
            Dialect::Postgres => ValueStorage::I16(self as i16),
        };
        make(ValueLogicalKind::U8, s)
    }
}

impl<DB: Database> IntoSqlValue<DB> for u16 {
    open spec fn sql_value_view(&self) -> Option<ValueView> {
        value_of(ValueLogicalKind::U16, u16_storage(DB::dialect_spec(), *self))
    }

    fn into_sql_value(self) -> (r: Option<Value<DB>>) {
        let s = match DB::dialect() {
            Dialect::MySql => ValueStorage::U16(self),
            Dialect::Postgres => ValueStorage::I32(self as i32),
        };
        make(ValueLogicalKind::U16, s)
    }
}

impl<DB: Database> IntoSqlValue<DB> for u32 {
    open spec fn sql_value_view(&self) -> Option<ValueView> {
        value_of(ValueLogicalKind::U32, u32_storage(DB::dialect_spec(), *self))
    }

    fn into_sql_value(self) -> (r: Option<Value<DB>>) {
        let s = match DB::dialect() {
            Dialect::MySql => ValueStorage::U32(self),
            Dialect::Postgres => ValueStorage::I64(self as i64),
        };
        make(ValueLogicalKind::U32, s)
    }
}

impl<DB: Database> IntoSqlValue<DB> for i8 {
    open spec fn sql_value_view(&self) -> Option<ValueView> {
        value_of(ValueLogicalKind::I8, i8_storage(DB::dialect_spec(), *self))
    }

    fn into_sql_value(self) -> (r: Option<Value<DB>>) {
        let s = match DB::dialect() {
            Dialect::MySql => ValueStorage::I8(self),
            Dialect::Postgres => ValueStorage::I16(self as i16),
        };
        make(ValueLogicalKind::I8, s)
    }
}

impl<DB: Database> IntoSqlValue<DB> for i16 {
    open spec fn sql_value_view(&self) -> Option<ValueView> {
        value_of(ValueLogicalKind::I16, StorageView::I16(*self))
    }

    fn into_sql_value(self) -> (r: Option<Value<DB>>) {
        make(ValueLogicalKind::I16, ValueStorage::I16(self))
    }
}

impl<DB: Database> IntoSqlValue<DB> for i32 {
    open spec fn sql_value_view(&self) -> Option<ValueView> {
        value_of(ValueLogicalKind::I32, StorageView::I32(*self))
    }

    fn into_sql_value(self) -> (r: Option<Value<DB>>) {
        make(ValueLogicalKind::I32, ValueStorage::I32(self))
    }
}

impl<DB: Database> IntoSqlValue<DB> for i64 {
    open spec fn sql_value_view(&self) -> Option<ValueView> {
        value_of(ValueLogicalKind::I64, StorageView::I64(*self))
    }

    fn into_sql_value(self) -> (r: Option<Value<DB>>) {
        make(ValueLogicalKind::I64, ValueStorage::I64(self))
    }
}

impl<DB: Database> IntoSqlValue<DB> for char {
    open spec fn sql_value_view(&self) -> Option<ValueView> {
        value_of(ValueLogicalKind::Text, StorageView::Text(seq![*self]))
    }

    fn into_sql_value(self) -> (r: Option<Value<DB>>) {
        let mut s = String::new();
        push_char(&mut s, self);
        assert(s@ =~= seq![self]);
        make(ValueLogicalKind::Text, ValueStorage::Text(s))
    }
}

impl<'a, DB: Database> IntoSqlValue<DB> for &'a str {
    open spec fn sql_value_view(&self) -> Option<ValueView> {
        value_of(ValueLogicalKind::Text, StorageView::Text(self@))
    }

    fn into_sql_value(self) -> (r: Option<Value<DB>>) {
        make(ValueLogicalKind::Text, ValueStorage::Text(String::from_str(self)))
    }
}

impl<DB: Database> IntoSqlValue<DB> for String {
    open spec fn sql_value_view(&self) -> Option<ValueView> {
        value_of(ValueLogicalKind::Text, StorageView::Text(self@))
    }

    fn into_sql_value(self) -> (r: Option<Value<DB>>) {
        make(ValueLogicalKind::Text, ValueStorage::Text(self))
    }
}

impl<DB: Database> IntoSqlValue<DB> for Vec<u8> {
    open spec fn sql_value_view(&self) -> Option<ValueView> {
        value_of(ValueLogicalKind::Bytes, StorageView::Bytes(self@))
    }

    fn into_sql_value(self) -> (r: Option<Value<DB>>) {
        make(ValueLogicalKind::Bytes, ValueStorage::Bytes(self))
    }
}

impl<DB: Database> IntoSqlValue<DB> for Value<DB> {
    open spec fn sql_value_view(&self) -> Option<ValueView> {
        Some(self@)
    }

    fn into_sql_value(self) -> (r: Option<Value<DB>>) {
        Some(self)
    }
}

impl<DB: Database, T: IntoSqlValue<DB>> IntoSqlValue<DB> for Option<T> {
    open spec fn sql_value_view(&self) -> Option<ValueView> {
        match self {
            None => None,
            Some(t) => t.sql_value_view(),
        }
    }

    fn into_sql_value(self) -> (r: Option<Value<DB>>) {
        match self {
            None => None,
            Some(t) => t.into_sql_value(),
        }
    }
}

} // verus!
