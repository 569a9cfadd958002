//! Parameter binding: which native type each declared parameter of a bound
//! statement is decoded into before it is handed to the engine.
use vstd::prelude::*;

use crate::error::QueryError;
use crate::types::WireType;

verus! {

/// The native types a parameter can be bound as.
#[derive(Debug, Clone, Copy, PartialEq, Eq, Structural)]
pub enum ParamKind {
    Bool,
    Int2,
    Int4,
    Int8,
    Text,
    Float4,
    Float8,
}

/// The native type for parameters declared with wire type `t`.
pub open spec fn param_kind_of(t: WireType) -> Option<ParamKind> {
    match t {
        WireType::Bool => Some(ParamKind::Bool),
        WireType::Int2 => Some(ParamKind::Int2),
        WireType::Int4 => Some(ParamKind::Int4),
        WireType::Int8 => Some(ParamKind::Int8),
        WireType::Text | WireType::Varchar => Some(ParamKind::Text),
        WireType::Float4 => Some(ParamKind::Float4),
        WireType::Float8 => Some(ParamKind::Float8),
        _ => None,
    }
}

/// The native type for parameters declared with wire type `t`, where it is
/// one of the small set this binder decodes.
pub fn param_kind(t: WireType) -> (r: Option<ParamKind>)
    ensures
        r == param_kind_of(t),
{
    match t {
        WireType::Bool => Some(ParamKind::Bool),
        WireType::Int2 => Some(ParamKind::Int2),
        WireType::Int4 => Some(ParamKind::Int4),
        WireType::Int8 => Some(ParamKind::Int8),
        WireType::Text | WireType::Varchar => Some(ParamKind::Text),
        WireType::Float4 => Some(ParamKind::Float4),
        WireType::Float8 => Some(ParamKind::Float8),
        _ => None,
    }
}

/// Position `i` of a statement with declared types `declared` can be bound.
pub open spec fn is_bindable(declared: Seq<WireType>, i: int) -> bool {
    i < declared.len() && param_kind_of(declared[i]) is Some
}

/// The error for position `i`, which cannot be bound.
pub open spec fn param_error(declared: Seq<WireType>, i: int) -> QueryError {
    if i < declared.len() {
        QueryError::UnsupportedParameterType(declared[i])
    } else {
        QueryError::UndeclaredParameter(i as usize)
    }
}

/// The native type of each of the `count` parameters of a portal, by
/// position, from the statement's declared wire types. Fails at the first
/// position whose type is missing or outside the set.
pub fn get_params(declared: &Vec<WireType>, count: usize) -> (r: Result<Vec<ParamKind>, QueryError>)
    ensures
        (forall|i: int| 0 <= i < count ==> #[trigger] is_bindable(declared@, i)) <==> r is Ok,
        r is Ok ==> r->Ok_0@.len() == count && forall|i: int|
            0 <= i < count ==> Some(#[trigger] r->Ok_0@[i]) == param_kind_of(declared@[i]),
        r is Err ==> exists|k: int|
            0 <= k < count && (forall|j: int| 0 <= j < k ==> #[trigger] is_bindable(declared@, j))
                && !is_bindable(declared@, k) && r->Err_0 == param_error(declared@, k),
{
    let mut out: Vec<ParamKind> = Vec::with_capacity(count);
    let mut i: usize = 0;
    while i < count
        invariant
            i <= count,
            out@.len() == i,
            forall|j: int| 0 <= j < i ==> #[trigger] is_bindable(declared@, j),
            forall|j: int| 0 <= j < i ==> Some(#[trigger] out@[j]) == param_kind_of(declared@[j]),
        decreases count - i,
    {
        if i >= declared.len() {
            assert(!is_bindable(declared@, i as int));
            return Err(QueryError::UndeclaredParameter(i));
        }
        match param_kind(declared[i]) {
            Some(k) => {
                out.push(k);
            },
            None => {
                assert(!is_bindable(declared@, i as int));
                return Err(QueryError::UnsupportedParameterType(declared[i]));
            },
        }
        i = i + 1;
    }
    Ok(out)
}

} // verus!
