//! Column metadata: from a prepared statement's columns, from the rows of an
//! introspection query, or from the dispatch rule itself.
use vstd::prelude::*;
use vstd::string::StringExecFns;

use crate::dispatch::{DescribeType, ExecuteRule, ExecuteType};
use crate::error::QueryError;
use crate::types::{
    ColumnInfo,
    EngineType,
    FieldFormat,
    engine_type_named,
    into_arrow_type,
    into_pg_type,
    unsupported_type_error,
    wire_type_of,
};

verus! {

/// A result column of a prepared statement: its name and engine type, and
/// the format the client asked for.
#[derive(Debug)]
pub struct ResultColumn {
    pub name: String,
    pub engine_type: EngineType,
    pub format: FieldFormat,
}

/// `info` describes the column `col`.
pub open spec fn describes_column(col: ResultColumn, info: ColumnInfo) -> bool {
    &&& info.name@ == col.name@
    &&& wire_type_of(col.engine_type) == Some(info.wire_type)
    &&& info.format == col.format
}

/// The column metadata of a prepared statement's result, column by column.
/// Fails, naming the type, at the first column whose engine type has no wire type.
pub fn row_desc_from_stmt(columns: &Vec<ResultColumn>) -> (r: Result<Vec<ColumnInfo>, QueryError>)
    ensures
        (forall|i: int| 0 <= i < columns@.len() ==> wire_type_of(#[trigger] columns@[i].engine_type) is Some)
            <==> r is Ok,
        r is Ok ==> r->Ok_0@.len() == columns@.len() && forall|i: int|
            0 <= i < columns@.len() ==> describes_column(#[trigger] columns@[i], r->Ok_0@[i]),
        r is Err ==> exists|k: int|
            0 <= k < columns@.len() && (forall|j: int|
                0 <= j < k ==> wire_type_of(#[trigger] columns@[j].engine_type) is Some)
                && wire_type_of(columns@[k].engine_type) is None && r->Err_0
                == unsupported_type_error(columns@[k].engine_type),
{
    let mut out: Vec<ColumnInfo> = Vec::new();
    let mut i: usize = 0;
    while i < columns.len()
        invariant
            i <= columns@.len(),
            out@.len() == i,
            forall|j: int| 0 <= j < i ==> wire_type_of(#[trigger] columns@[j].engine_type) is Some,
            forall|j: int| 0 <= j < i ==> describes_column(#[trigger] columns@[j], out@[j]),
        decreases columns@.len() - i,
    {
        let col = &columns[i];
        match into_pg_type(&col.engine_type) {
            Ok(w) => {
                out.push(ColumnInfo { name: col.name.clone(), wire_type: w, format: col.format });
            },
            Err(e) => {
                return Err(e);
            },
        }
        i = i + 1;
    }
    Ok(out)
}

/// One row of an introspection result: a column's name and its type name.
#[derive(Debug)]
pub struct DescribedColumn {
    pub column_name: String,
    pub column_type: String,
}

/// The wire type of columns whose introspected type name is `name`.
pub open spec fn wire_type_named(name: Seq<char>) -> Option<crate::types::WireType> {
    match engine_type_named(name) {
        Some(t) => wire_type_of(t),
        None => None,
    }
}

/// Folds the rows of an introspection query into column metadata, in text
/// format. Fails at the first type name outside the vocabulary.
pub fn get_field_infos_from_describe(rows: &Vec<DescribedColumn>) -> (r: Result<
    Vec<ColumnInfo>,
    QueryError,
>)
    ensures
        (forall|i: int| 0 <= i < rows@.len() ==> wire_type_named(#[trigger] rows@[i].column_type@) is Some)
            <==> r is Ok,
        r is Ok ==> r->Ok_0@.len() == rows@.len() && forall|i: int|
            0 <= i < rows@.len() ==> {
                let info = #[trigger] r->Ok_0@[i];
                &&& info.name@ == rows@[i].column_name@
                &&& wire_type_named(rows@[i].column_type@) == Some(info.wire_type)
                &&& info.format == FieldFormat::Text
            },
        r is Err ==> exists|k: int|
            0 <= k < rows@.len() && (forall|j: int|
                0 <= j < k ==> wire_type_named(#[trigger] rows@[j].column_type@) is Some)
                && wire_type_named(rows@[k].column_type@) is None && (r->Err_0 matches QueryError::UnsupportedTypeName(n)
                && n@ == rows@[k].column_type@),
{
    let mut out: Vec<ColumnInfo> = Vec::new();
    let mut i: usize = 0;
    while i < rows.len()
        invariant
            i <= rows@.len(),
            out@.len() == i,
            forall|j: int| 0 <= j < i ==> wire_type_named(#[trigger] rows@[j].column_type@) is Some,
            forall|j: int|
                0 <= j < i ==> {
                    let info = #[trigger] out@[j];
                    &&& info.name@ == rows@[j].column_name@
                    &&& wire_type_named(rows@[j].column_type@) == Some(info.wire_type)
                    &&& info.format == FieldFormat::Text
                },
        decreases rows@.len() - i,
    {
        let row = &rows[i];
        let engine_type = match into_arrow_type(row.column_type.as_str()) {
            Ok(t) => t,
            Err(e) => {
                return Err(e);
            },
        };
        match into_pg_type(&engine_type) {
            Ok(w) => {
                out.push(
                    ColumnInfo { name: row.column_name.clone(), wire_type: w, format: FieldFormat::Text },
                );
            },
            Err(e) => {
                return Err(e);
            },
        }
        i = i + 1;
    }
    Ok(out)
}

/// How a describe request for a statement is answered.
#[derive(Debug)]
pub enum DescribePlan {
    /// With these columns, known from the dispatch rule.
    Fixed(Vec<ColumnInfo>),
    /// By running this introspection query on the engine and folding its rows.
    Introspect(String),
    /// With no columns: the statement produces no rows.
    NoColumns,
}

fn copy_columns(columns: &Vec<ColumnInfo>) -> (r: Vec<ColumnInfo>)
    ensures
        r@.len() == columns@.len(),
        forall|i: int|
            0 <= i < columns@.len() ==> (#[trigger] r@[i]).name@ == columns@[i].name@
                && r@[i].wire_type == columns@[i].wire_type && r@[i].format == columns@[i].format,
{
    let mut out: Vec<ColumnInfo> = Vec::new();
    let mut i: usize = 0;
    while i < columns.len()
        invariant
            i <= columns@.len(),
            out@.len() == i,
            forall|j: int|
                0 <= j < i ==> (#[trigger] out@[j]).name@ == columns@[j].name@ && out@[j].wire_type
                    == columns@[j].wire_type && out@[j].format == columns@[j].format,
        decreases columns@.len() - i,
    {
        let c = &columns[i];
        out.push(ColumnInfo { name: c.name.clone(), wire_type: c.wire_type, format: c.format });
        i = i + 1;
    }
    out
}

/// The introspection query for `statement`.
pub open spec fn introspection_query(statement: Seq<char>) -> Seq<char> {
    "DESCRIBE "@ + statement
}

/// How to describe `statement`, which `rule` classified: with the rule's
/// own columns, by introspection, or with no columns for a statement that
/// reports a row count.
pub fn describe_plan(rule: &ExecuteRule, statement: &str) -> (r: DescribePlan)
    ensures
        match rule.execute_type {
            ExecuteType::Query(DescribeType::Const(columns)) => r matches DescribePlan::Fixed(c)
                && c@.len() == columns@.len() && forall|i: int|
                0 <= i < columns@.len() ==> (#[trigger] c@[i]).name@ == columns@[i].name@
                    && c@[i].wire_type == columns@[i].wire_type && c@[i].format
                    == columns@[i].format,
            ExecuteType::Query(DescribeType::Dynamic) => r matches DescribePlan::Introspect(q) && q@
                == introspection_query(statement@),
            ExecuteType::Execute => r is NoColumns,
        },
{
    match &rule.execute_type {
        ExecuteType::Query(DescribeType::Const(columns)) => DescribePlan::Fixed(copy_columns(columns)),
        ExecuteType::Query(DescribeType::Dynamic) => {
            let q = String::from_str("DESCRIBE ").concat(statement);
            DescribePlan::Introspect(q)
        },
        ExecuteType::Execute => DescribePlan::NoColumns,
    }
}

} // verus!
