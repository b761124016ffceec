//! Logical value types and the field types that resolve to them.

use vstd::prelude::*;

verus! {

/// The closed set of logical value types.
#[derive(Clone, Copy, Debug, PartialEq, Eq, Structural)]
pub enum EvalType {
    Int,
    Real,
    Decimal,
    Bytes,
    DateTime,
    Duration,
    Json,
}

/// The declared type of a column or of an expression's result.
#[derive(Clone, Copy, Debug, PartialEq, Eq, Structural)]
pub enum FieldTypeTp {
    Unspecified,
    Tiny,
    Short,
    Long,
    Float,
    Double,
    Null,
    Timestamp,
    LongLong,
    Int24,
    Date,
    Duration,
    DateTime,
    Year,
    NewDate,
    VarChar,
    Bit,
    Json,
    NewDecimal,
    Enum,
    SetOf,
    TinyBlob,
    MediumBlob,
    LongBlob,
    Blob,
    VarString,
    FixedString,
    Geometry,
}

/// The logical value type that holds values of a field type, if any does.
pub open spec fn eval_type_of(tp: FieldTypeTp) -> Option<EvalType> {
    match tp {
        FieldTypeTp::Tiny
        | FieldTypeTp::Short
        | FieldTypeTp::Int24
        | FieldTypeTp::Long
        | FieldTypeTp::LongLong
        | FieldTypeTp::Year => Some(EvalType::Int),
        FieldTypeTp::Float | FieldTypeTp::Double => Some(EvalType::Real),
        FieldTypeTp::NewDecimal => Some(EvalType::Decimal),
        FieldTypeTp::Timestamp | FieldTypeTp::Date | FieldTypeTp::DateTime => Some(
            EvalType::DateTime,
        ),
        FieldTypeTp::Duration => Some(EvalType::Duration),
        FieldTypeTp::Json => Some(EvalType::Json),
        FieldTypeTp::VarChar
        | FieldTypeTp::TinyBlob
        | FieldTypeTp::MediumBlob
        | FieldTypeTp::LongBlob
        | FieldTypeTp::Blob
        | FieldTypeTp::VarString
        | FieldTypeTp::FixedString => Some(EvalType::Bytes),
        _ => None,
    }
}

impl EvalType {
    /// Resolves a field type to its logical value type.
    ///
    /// Fails with [`Error::UnsupportedFieldType`] exactly on the field types
    /// that no logical value type holds.
    pub fn try_from_field_type(tp: FieldTypeTp) -> (r: Result<EvalType, crate::error::Error>)
        ensures
            match eval_type_of(tp) {
                Some(et) => r == Ok::<EvalType, crate::error::Error>(et),
                None => r == Err::<EvalType, crate::error::Error>(
                    crate::error::Error::UnsupportedFieldType(tp),
                ),
            },
    {
        if Self::is_integer(tp) {
            Ok(EvalType::Int)
        } else if Self::is_byte_string(tp) {
            Ok(EvalType::Bytes)
        } else {
            match tp {
                FieldTypeTp::Float | FieldTypeTp::Double => Ok(EvalType::Real),
                FieldTypeTp::NewDecimal => Ok(EvalType::Decimal),
                FieldTypeTp::Timestamp | FieldTypeTp::Date | FieldTypeTp::DateTime => Ok(
                    EvalType::DateTime,
                ),
                FieldTypeTp::Duration => Ok(EvalType::Duration),
                FieldTypeTp::Json => Ok(EvalType::Json),
                _ => Err(crate::error::Error::UnsupportedFieldType(tp)),
            }
        }
    }

    fn is_integer(tp: FieldTypeTp) -> (r: bool)
        ensures
            r == (eval_type_of(tp) == Some(EvalType::Int)),
    {
        matches!(
            tp,
            FieldTypeTp::Tiny
                | FieldTypeTp::Short
                | FieldTypeTp::Int24
                | FieldTypeTp::Long
                | FieldTypeTp::LongLong
                | FieldTypeTp::Year
        )
    }

    fn is_byte_string(tp: FieldTypeTp) -> (r: bool)
        ensures
            r == (eval_type_of(tp) == Some(EvalType::Bytes)),
    {
        matches!(
            tp,
            FieldTypeTp::VarChar
                | FieldTypeTp::TinyBlob
                | FieldTypeTp::MediumBlob
                | FieldTypeTp::LongBlob
                | FieldTypeTp::Blob
                | FieldTypeTp::VarString
                | FieldTypeTp::FixedString
        )
    }
}

} // verus!
