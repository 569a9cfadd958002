//! What can go wrong while a statement is adapted, executed or encoded.
use vstd::prelude::*;

use crate::types::{EngineType, WireType};

verus! {

/// A failure that fits no other kind, with its description.
#[derive(Debug)]
pub enum UnknownError {
    UnknownError(String),
}

/// Errors of the adaptation layer; each is reported to the client on the
/// request that caused it.
#[derive(Debug)]
pub enum QueryError {
    /// A result column of an engine type that has no wire type here.
    UnsupportedDatatype(EngineType),
    /// A list column whose element type has no array wire type here.
    UnsupportedListDatatype(EngineType),
    /// A type name in an introspection result outside the known vocabulary.
    UnsupportedTypeName(String),
    /// A declared parameter type that cannot be bound.
    UnsupportedParameterType(WireType),
    /// A parameter position for which the statement declares no type.
    UndeclaredParameter(usize),
    /// An engine value of a kind the row encoder does not carry, by its kind.
    UnsupportedValue(String),
    /// A date whose day offset lies outside the calendar range the date library covers.
    DateOutOfRange(i32),
}

/// Why a login is refused.
#[derive(Debug)]
pub enum AuthError {
    /// The client named no user.
    UserNameRequired,
    /// The client named a user other than the configured one.
    InvalidUsername(String),
}

/// The error handler of a session. Errors reach it after they have been
/// turned into protocol responses; it keeps no state.
#[derive(Debug)]
pub struct FatherDuckErrorHandler {}

impl FatherDuckErrorHandler {
    pub fn new() -> (r: FatherDuckErrorHandler)
        ensures
            r == (FatherDuckErrorHandler {}),
    {
        FatherDuckErrorHandler {  }
    }
}

} // verus!
