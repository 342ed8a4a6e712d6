//! The type tags and tagged runtime values that fields are bound to.

use vstd::prelude::*;

verus! {

/// The declared type of a schema field, and the type tag of a runtime value.
///
/// A binding table accepts a write only when the value's type is exactly
/// equal to the field's declared type: there is no widening and no coercion.
#[derive(Clone, Copy, Debug, PartialEq, Eq, Structural)]
pub enum Type {
    /// A boolean flag.
    Bool,
    /// A signed integer.
    Int,
    /// A raw byte string.
    Bytes,
}

/// A tagged runtime value supplied for a field just before a filter runs.
#[derive(Debug, PartialEq, Eq)]
pub enum LhsValue {
    /// A boolean flag.
    Bool(bool),
    /// A signed integer.
    Int(i64),
    /// A raw byte string.
    Bytes(Vec<u8>),
}

impl LhsValue {
    /// The type tag carried by this value.
    pub open spec fn spec_get_type(&self) -> Type {
        match self {
            LhsValue::Bool(_) => Type::Bool,
            LhsValue::Int(_) => Type::Int,
            LhsValue::Bytes(_) => Type::Bytes,
        }
    }

    /// Returns the type tag carried by this value.
    #[verifier::when_used_as_spec(spec_get_type)]
    pub fn get_type(&self) -> (t: Type)
        ensures
            t == self.spec_get_type(),
    {
        match self {
            LhsValue::Bool(_) => Type::Bool,
            LhsValue::Int(_) => Type::Int,
            LhsValue::Bytes(_) => Type::Bytes,
        }
    }
}

} // verus!
