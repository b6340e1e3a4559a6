//! The columnar type model: data types, fields and schemas as plain values.
//!
//! The model holds what the compatibility rules read: the shape of each type,
//! the nesting of element and member fields, and each field's name. Nested
//! parts are shared behind `Arc`, so that copying a type or a field copies no
//! tree.

use std::sync::Arc;
use vstd::prelude::*;

verus! {

/// The resolution of a time-based type.
#[derive(Clone, Copy, Debug, PartialEq, Eq, Structural)]
pub enum TimeUnit {
    Second,
    Millisecond,
    Microsecond,
    Nanosecond,
}

/// The layout of a calendar interval.
#[derive(Clone, Copy, Debug, PartialEq, Eq, Structural)]
pub enum IntervalUnit {
    YearMonth,
    DayTime,
    MonthDayNano,
}

/// The layout of a union type.
#[derive(Clone, Copy, Debug, PartialEq, Eq, Structural)]
pub enum UnionMode {
    Sparse,
    Dense,
}

/// A columnar data type.
#[derive(Debug, PartialEq, Eq)]
pub enum DataType {
    Null,
    Boolean,
    Int8,
    Int16,
    Int32,
    Int64,
    UInt8,
    UInt16,
    UInt32,
    UInt64,
    Float16,
    Float32,
    Float64,
    /// A timestamp with an optional time zone.
    Timestamp(TimeUnit, Option<String>),
    Date32,
    Date64,
    Time32(TimeUnit),
    Time64(TimeUnit),
    Duration(TimeUnit),
    Interval(IntervalUnit),
    Binary,
    /// Binary values of one fixed width.
    FixedSizeBinary(i32),
    LargeBinary,
    BinaryView,
    Utf8,
    LargeUtf8,
    Utf8View,
    /// A list of values of the element field's type.
    List(Arc<Field>),
    ListView(Arc<Field>),
    /// A list of a fixed number of values of the element field's type.
    FixedSizeList(Arc<Field>, i32),
    LargeList(Arc<Field>),
    LargeListView(Arc<Field>),
    /// A record of member fields.
    Struct(Arc<Vec<Arc<Field>>>),
    /// A tagged union of member fields.
    Union(Arc<Vec<(i8, Arc<Field>)>>, UnionMode),
    /// Values of the second type encoded by keys of the first.
    Dictionary(Arc<DataType>, Arc<DataType>),
    /// A decimal with a precision and a scale.
    Decimal32(u8, i8),
    Decimal64(u8, i8),
    Decimal128(u8, i8),
    Decimal256(u8, i8),
    /// A map of key-value entries; the flag says whether keys are sorted.
    MapOf(Arc<Field>, bool),
    RunEndEncoded(Arc<Field>, Arc<Field>),
}

/// A named column or member with its type.
#[derive(Debug, PartialEq, Eq)]
pub struct Field {
    pub name: String,
    pub data_type: DataType,
    pub nullable: bool,
}

/// An ordered sequence of fields.
#[derive(Debug, PartialEq, Eq)]
pub struct Schema {
    pub fields: Vec<Arc<Field>>,
}

/// A second handle to the value behind `handle`. Wraps `Arc::clone`, which
/// copies the pointer and leaves the shared value as it is.
#[verifier::external_body]
pub(crate) fn share<T>(handle: &Arc<T>) -> (r: Arc<T>)
    ensures
        r == *handle,
{
    Arc::clone(handle)
}

impl Clone for DataType {
    /// A copy of the type that shares its nested parts.
    fn clone(&self) -> (r: DataType)
        ensures
            r == *self,
    {
        match self {
            DataType::Null => DataType::Null,
            DataType::Boolean => DataType::Boolean,
            DataType::Int8 => DataType::Int8,
            DataType::Int16 => DataType::Int16,
            DataType::Int32 => DataType::Int32,
            DataType::Int64 => DataType::Int64,
            DataType::UInt8 => DataType::UInt8,
            DataType::UInt16 => DataType::UInt16,
            DataType::UInt32 => DataType::UInt32,
            DataType::UInt64 => DataType::UInt64,
            DataType::Float16 => DataType::Float16,
            DataType::Float32 => DataType::Float32,
            DataType::Float64 => DataType::Float64,
            DataType::Timestamp(unit, zone) => {
                let zone = match zone {
                    Some(name) => Some(name.clone()),
                    None => None,
                };
                DataType::Timestamp(*unit, zone)
            },
            DataType::Date32 => DataType::Date32,
            DataType::Date64 => DataType::Date64,
            DataType::Time32(unit) => DataType::Time32(*unit),
            DataType::Time64(unit) => DataType::Time64(*unit),
            DataType::Duration(unit) => DataType::Duration(*unit),
            DataType::Interval(unit) => DataType::Interval(*unit),
            DataType::Binary => DataType::Binary,
            DataType::FixedSizeBinary(width) => DataType::FixedSizeBinary(*width),
            DataType::LargeBinary => DataType::LargeBinary,
            DataType::BinaryView => DataType::BinaryView,
            DataType::Utf8 => DataType::Utf8,
            DataType::LargeUtf8 => DataType::LargeUtf8,
            DataType::Utf8View => DataType::Utf8View,
            DataType::List(element) => DataType::List(share(element)),
            DataType::ListView(element) => DataType::ListView(share(element)),
            DataType::FixedSizeList(element, size) => DataType::FixedSizeList(
                share(element),
                *size,
            ),
            DataType::LargeList(element) => DataType::LargeList(share(element)),
            DataType::LargeListView(element) => DataType::LargeListView(share(element)),
            DataType::Struct(members) => DataType::Struct(share(members)),
            DataType::Union(members, mode) => DataType::Union(share(members), *mode),
            DataType::Dictionary(key, value) => DataType::Dictionary(share(key), share(value)),
            DataType::Decimal32(precision, scale) => DataType::Decimal32(*precision, *scale),
            DataType::Decimal64(precision, scale) => DataType::Decimal64(*precision, *scale),
            DataType::Decimal128(precision, scale) => DataType::Decimal128(*precision, *scale),
            DataType::Decimal256(precision, scale) => DataType::Decimal256(*precision, *scale),
            DataType::MapOf(entries, sorted) => DataType::MapOf(share(entries), *sorted),
            DataType::RunEndEncoded(run_ends, values) => DataType::RunEndEncoded(
                share(run_ends),
                share(values),
            ),
        }
    }
}

impl Clone for Field {
    /// A copy of the field that shares the nested parts of its type.
    fn clone(&self) -> (r: Field)
        ensures
            r == *self,
    {
        Field { name: self.name.clone(), data_type: self.data_type.clone(), nullable: self.nullable }
    }
}

impl Field {
    /// A field with the given name, type and nullability.
    pub fn new(name: &str, data_type: DataType, nullable: bool) -> (r: Field)
        ensures
            r.name@ == name@,
            r.data_type == data_type,
            r.nullable == nullable,
    {
        Field { name: name.to_owned(), data_type, nullable }
    }

    /// The field's name.
    pub fn name(&self) -> (r: &String)
        ensures
            *r == self.name,
    {
        &self.name
    }

    /// The field's type.
    pub fn data_type(&self) -> (r: &DataType)
        ensures
            *r == self.data_type,
    {
        &self.data_type
    }

    /// Whether the field admits missing values.
    pub fn is_nullable(&self) -> (r: bool)
        ensures
            r == self.nullable,
    {
        self.nullable
    }
}

impl View for Schema {
    type V = Seq<Arc<Field>>;

    open spec fn view(&self) -> Seq<Arc<Field>> {
        self.fields@
    }
}

impl Schema {
    /// A schema of the given fields, in the given order.
    pub fn new(fields: Vec<Arc<Field>>) -> (r: Schema)
        ensures
            r@ == fields@,
    {
        Schema { fields }
    }

    /// The schema without any field.
    pub fn empty() -> (r: Schema)
        ensures
            r@ == Seq::<Arc<Field>>::empty(),
    {
        Schema { fields: Vec::new() }
    }

    /// The fields, in order.
    pub fn fields(&self) -> (r: &Vec<Arc<Field>>)
        ensures
            r@ == self@,
    {
        &self.fields
    }

    /// The number of fields.
    pub fn len(&self) -> (r: usize)
        ensures
            r == self@.len(),
    {
        self.fields.len()
    }
}

} // verus!
