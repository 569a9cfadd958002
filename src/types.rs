//! The two type systems: the engine's column types, the wire protocol's type
//! identifiers, and the map between them.
use vstd::prelude::*;

use crate::error::QueryError;
use crate::text::str_eq;
use vstd::string::StringExecFns;

verus! {

/// A column type of the embedded engine, as far as the adaptation reads it.
/// Timestamp and time types are told apart by kind only, not by unit or zone.
#[derive(Debug)]
pub enum EngineType {
    Null,
    Boolean,
    Int8,
    UInt8,
    Int16,
    UInt16,
    Int32,
    UInt32,
    Int64,
    UInt64,
    Timestamp,
    Time32,
    Time64,
    Date32,
    Date64,
    Binary,
    Float32,
    Float64,
    Utf8,
    /// A list whose items have the element type.
    List(Box<EngineType>),
    /// Any other engine type, by its name.
    Other(String),
}

/// A type identifier of the wire protocol.
#[derive(Debug, Clone, Copy, PartialEq, Eq, Structural)]
pub enum WireType {
    Unknown,
    Bool,
    Char,
    Int2,
    Int4,
    Int8,
    Timestamp,
    Time,
    Date,
    Bytea,
    Float4,
    Float8,
    Varchar,
    Text,
    BoolArray,
    CharArray,
    Int2Array,
    Int4Array,
    Int8Array,
    TimestampArray,
    TimeArray,
    DateArray,
    ByteaArray,
    Float4Array,
    Float8Array,
    VarcharArray,
    /// Any other protocol type, by its object identifier.
    Other(u32),
}

/// How the values of one result column travel: as text or in binary form.
#[derive(Debug, Clone, Copy, PartialEq, Eq, Structural)]
pub enum FieldFormat {
    Text,
    Binary,
}

/// Metadata of one result column: its name, wire type and format.
#[derive(Debug)]
pub struct ColumnInfo {
    pub name: String,
    pub wire_type: WireType,
    pub format: FieldFormat,
}

/// The wire type of a non-list engine type that may also be a list element.
pub open spec fn scalar_wire_type(t: EngineType) -> Option<WireType> {
    match t {
        EngineType::Boolean => Some(WireType::Bool),
        EngineType::Int8 | EngineType::UInt8 => Some(WireType::Char),
        EngineType::Int16 | EngineType::UInt16 => Some(WireType::Int2),
        EngineType::Int32 | EngineType::UInt32 => Some(WireType::Int4),
        EngineType::Int64 | EngineType::UInt64 => Some(WireType::Int8),
        EngineType::Timestamp => Some(WireType::Timestamp),
        EngineType::Time32 | EngineType::Time64 => Some(WireType::Time),
        EngineType::Date32 | EngineType::Date64 => Some(WireType::Date),
        EngineType::Binary => Some(WireType::Bytea),
        EngineType::Float32 => Some(WireType::Float4),
        EngineType::Float64 => Some(WireType::Float8),
        EngineType::Utf8 => Some(WireType::Varchar),
        _ => None,
    }
}

/// The array wire type of lists with the given element type.
pub open spec fn array_wire_type(element: EngineType) -> Option<WireType> {
    match scalar_wire_type(element) {
        Some(WireType::Bool) => Some(WireType::BoolArray),
        Some(WireType::Char) => Some(WireType::CharArray),
        Some(WireType::Int2) => Some(WireType::Int2Array),
        Some(WireType::Int4) => Some(WireType::Int4Array),
        Some(WireType::Int8) => Some(WireType::Int8Array),
        Some(WireType::Timestamp) => Some(WireType::TimestampArray),
        Some(WireType::Time) => Some(WireType::TimeArray),
        Some(WireType::Date) => Some(WireType::DateArray),
        Some(WireType::Bytea) => Some(WireType::ByteaArray),
        Some(WireType::Float4) => Some(WireType::Float4Array),
        Some(WireType::Float8) => Some(WireType::Float8Array),
        Some(WireType::Varchar) => Some(WireType::VarcharArray),
        _ => None,
    }
}

/// The wire type that columns of engine type `t` are reported with.
pub open spec fn wire_type_of(t: EngineType) -> Option<WireType> {
    match t {
        EngineType::Null => Some(WireType::Unknown),
        EngineType::List(element) => array_wire_type(*element),
        _ => scalar_wire_type(t),
    }
}

/// The engine types that a list may hold.
pub open spec fn is_supported_element(t: EngineType) -> bool {
    ||| t is Boolean
    ||| t is Int8
    ||| t is UInt8
    ||| t is Int16
    ||| t is UInt16
    ||| t is Int32
    ||| t is UInt32
    ||| t is Int64
    ||| t is UInt64
    ||| t is Timestamp
    ||| t is Time32
    ||| t is Time64
    ||| t is Date32
    ||| t is Date64
    ||| t is Binary
    ||| t is Float32
    ||| t is Float64
    ||| t is Utf8
}

/// The engine types that a result column may have: the null type, the list
/// element types, and lists of those, one level deep.
pub open spec fn is_supported_type(t: EngineType) -> bool {
    ||| t is Null
    ||| is_supported_element(t)
    ||| (t matches EngineType::List(element) && is_supported_element(*element))
}

/// Every supported engine type has a wire type, and no other type has one.
pub proof fn lemma_wire_type_total(t: EngineType)
    ensures
        is_supported_type(t) <==> wire_type_of(t) is Some,
{
}

/// The error for an engine type without a wire type.
pub open spec fn unsupported_type_error(t: EngineType) -> QueryError {
    match t {
        EngineType::List(element) => QueryError::UnsupportedListDatatype(*element),
        _ => QueryError::UnsupportedDatatype(t),
    }
}

fn scalar_into_pg_type(t: &EngineType) -> (r: Option<WireType>)
    ensures
        r == scalar_wire_type(*t),
{
    match t {
        EngineType::Boolean => Some(WireType::Bool),
        EngineType::Int8 | EngineType::UInt8 => Some(WireType::Char),
        EngineType::Int16 | EngineType::UInt16 => Some(WireType::Int2),
        EngineType::Int32 | EngineType::UInt32 => Some(WireType::Int4),
        EngineType::Int64 | EngineType::UInt64 => Some(WireType::Int8),
        EngineType::Timestamp => Some(WireType::Timestamp),
        EngineType::Time32 | EngineType::Time64 => Some(WireType::Time),
        EngineType::Date32 | EngineType::Date64 => Some(WireType::Date),
        EngineType::Binary => Some(WireType::Bytea),
        EngineType::Float32 => Some(WireType::Float4),
        EngineType::Float64 => Some(WireType::Float8),
        EngineType::Utf8 => Some(WireType::Varchar),
        _ => None,
    }
}

fn copy_engine_type(t: &EngineType) -> (r: EngineType)
    ensures
        r == *t,
    decreases t,
{
    match t {
        EngineType::Null => EngineType::Null,
        EngineType::Boolean => EngineType::Boolean,
        EngineType::Int8 => EngineType::Int8,
        EngineType::UInt8 => EngineType::UInt8,
        EngineType::Int16 => EngineType::Int16,
        EngineType::UInt16 => EngineType::UInt16,
        EngineType::Int32 => EngineType::Int32,
        EngineType::UInt32 => EngineType::UInt32,
        EngineType::Int64 => EngineType::Int64,
        EngineType::UInt64 => EngineType::UInt64,
        EngineType::Timestamp => EngineType::Timestamp,
        EngineType::Time32 => EngineType::Time32,
        EngineType::Time64 => EngineType::Time64,
        EngineType::Date32 => EngineType::Date32,
        EngineType::Date64 => EngineType::Date64,
        EngineType::Binary => EngineType::Binary,
        EngineType::Float32 => EngineType::Float32,
        EngineType::Float64 => EngineType::Float64,
        EngineType::Utf8 => EngineType::Utf8,
        EngineType::List(element) => EngineType::List(Box::new(copy_engine_type(element))),
        EngineType::Other(name) => EngineType::Other(name.clone()),
    }
}

/// The wire type for columns of engine type `df_type`. Fails, naming the
/// offending type, for a type outside the supported set; for a list, the
/// offending type is its element type.
pub fn into_pg_type(df_type: &EngineType) -> (r: Result<WireType, QueryError>)
    ensures
        match wire_type_of(*df_type) {
            Some(w) => r == Ok::<WireType, QueryError>(w),
            None => r == Err::<WireType, QueryError>(unsupported_type_error(*df_type)),
        },
{
    match df_type {
        EngineType::Null => Ok(WireType::Unknown),
        EngineType::List(element) => {
            let w = match scalar_into_pg_type(element) {
                Some(WireType::Bool) => Some(WireType::BoolArray),
                Some(WireType::Char) => Some(WireType::CharArray),
                Some(WireType::Int2) => Some(WireType::Int2Array),
                Some(WireType::Int4) => Some(WireType::Int4Array),
                Some(WireType::Int8) => Some(WireType::Int8Array),
                Some(WireType::Timestamp) => Some(WireType::TimestampArray),
                Some(WireType::Time) => Some(WireType::TimeArray),
                Some(WireType::Date) => Some(WireType::DateArray),
                Some(WireType::Bytea) => Some(WireType::ByteaArray),
                Some(WireType::Float4) => Some(WireType::Float4Array),
                Some(WireType::Float8) => Some(WireType::Float8Array),
                Some(WireType::Varchar) => Some(WireType::VarcharArray),
                _ => None,
            };
            match w {
                Some(w) => Ok(w),
                None => Err(QueryError::UnsupportedListDatatype(copy_engine_type(element))),
            }
        },
        _ => match scalar_into_pg_type(df_type) {
            Some(w) => Ok(w),
            None => Err(QueryError::UnsupportedDatatype(copy_engine_type(df_type))),
        },
    }
}

/// The engine type that an introspection result names `name`, for the fixed
/// vocabulary of type names.
pub open spec fn engine_type_named(name: Seq<char>) -> Option<EngineType> {
    if name == "BIGINT"@ {
        Some(EngineType::Int64)
    } else if name == "BLOB"@ {
        Some(EngineType::Binary)
    } else if name == "BOOLEAN"@ {
        Some(EngineType::Boolean)
    } else if name == "DATE"@ {
        Some(EngineType::Date32)
    } else if name == "DOUBLE"@ {
        Some(EngineType::Float64)
    } else if name == "FLOAT"@ {
        Some(EngineType::Float32)
    } else if name == "INTEGER"@ {
        Some(EngineType::Int32)
    } else if name == "SMALLINT"@ {
        Some(EngineType::Int16)
    } else if name == "TINYINT"@ {
        Some(EngineType::Int8)
    } else if name == "VARCHAR"@ {
        Some(EngineType::Utf8)
    } else {
        None
    }
}

/// The engine type named `df_type` in an introspection result; fails with the
/// name for one outside the vocabulary.
pub fn into_arrow_type(df_type: &str) -> (r: Result<EngineType, QueryError>)
    ensures
        match engine_type_named(df_type@) {
            Some(t) => r == Ok::<EngineType, QueryError>(t),
            None => r matches Err(QueryError::UnsupportedTypeName(n)) && n@ == df_type@,
        },
{
    if str_eq(df_type, "BIGINT") {
        Ok(EngineType::Int64)
    } else if str_eq(df_type, "BLOB") {
        Ok(EngineType::Binary)
    } else if str_eq(df_type, "BOOLEAN") {
        Ok(EngineType::Boolean)
    } else if str_eq(df_type, "DATE") {
        Ok(EngineType::Date32)
    } else if str_eq(df_type, "DOUBLE") {
        Ok(EngineType::Float64)
    } else if str_eq(df_type, "FLOAT") {
        Ok(EngineType::Float32)
    } else if str_eq(df_type, "INTEGER") {
        Ok(EngineType::Int32)
    } else if str_eq(df_type, "SMALLINT") {
        Ok(EngineType::Int16)
    } else if str_eq(df_type, "TINYINT") {
        Ok(EngineType::Int8)
    } else if str_eq(df_type, "VARCHAR") {
        Ok(EngineType::Utf8)
    } else {
        Err(QueryError::UnsupportedTypeName(String::from_str(df_type)))
    }
}

} // verus!
