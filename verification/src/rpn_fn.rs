//! The table that resolves a scalar function's signature to the one
//! vectorized function that implements it.

use vstd::prelude::*;
use crate::error::Error;
use crate::eval_type::EvalType;
use crate::expr::{Expr, ScalarFuncSig};

verus! {

/// The identity of a vectorized function, with the logical value type it is
/// specialized to where it has one.
#[derive(Clone, Copy, Debug, PartialEq, Eq, Structural)]
pub enum RpnFn {
    IfNull(EvalType),
    IfCondition(EvalType),
    CaseWhen(EvalType),
    UncompressedLength,
    Md5,
    Sha1,
    Sha2,
    RandomBytes,
    JsonDepth,
    JsonType,
    JsonSet,
    JsonReplace,
    JsonInsert,
    JsonArray,
    JsonObject,
    JsonMerge,
    JsonUnquote,
    JsonExtract,
    JsonLength,
    JsonRemove,
    JsonKeys,
}

/// A resolved function: made once while an expression is built, then used
/// for every batch.
#[derive(Clone, Copy, Debug, PartialEq, Eq, Structural)]
pub struct RpnFnMeta {
    /// Which function this is.
    pub func: RpnFn,
}

/// The function that implements a signature, if this engine has one.
pub open spec fn rpn_fn_of(sig: ScalarFuncSig) -> Option<RpnFn> {
    match sig {
        ScalarFuncSig::IfNullInt => Some(RpnFn::IfNull(EvalType::Int)),
        ScalarFuncSig::IfNullReal => Some(RpnFn::IfNull(EvalType::Real)),
        ScalarFuncSig::IfNullString => Some(RpnFn::IfNull(EvalType::Bytes)),
        ScalarFuncSig::IfNullDecimal => Some(RpnFn::IfNull(EvalType::Decimal)),
        ScalarFuncSig::IfNullTime => Some(RpnFn::IfNull(EvalType::DateTime)),
        ScalarFuncSig::IfNullDuration => Some(RpnFn::IfNull(EvalType::Duration)),
        ScalarFuncSig::IfNullJson => Some(RpnFn::IfNull(EvalType::Json)),
        ScalarFuncSig::IfInt => Some(RpnFn::IfCondition(EvalType::Int)),
        ScalarFuncSig::IfReal => Some(RpnFn::IfCondition(EvalType::Real)),
        ScalarFuncSig::IfDecimal => Some(RpnFn::IfCondition(EvalType::Decimal)),
        ScalarFuncSig::IfTime => Some(RpnFn::IfCondition(EvalType::DateTime)),
        ScalarFuncSig::IfString => Some(RpnFn::IfCondition(EvalType::Bytes)),
        ScalarFuncSig::IfDuration => Some(RpnFn::IfCondition(EvalType::Duration)),
        ScalarFuncSig::IfJson => Some(RpnFn::IfCondition(EvalType::Json)),
        ScalarFuncSig::CaseWhenInt => Some(RpnFn::CaseWhen(EvalType::Int)),
        ScalarFuncSig::CaseWhenReal => Some(RpnFn::CaseWhen(EvalType::Real)),
        ScalarFuncSig::CaseWhenString => Some(RpnFn::CaseWhen(EvalType::Bytes)),
        ScalarFuncSig::CaseWhenDecimal => Some(RpnFn::CaseWhen(EvalType::Decimal)),
        ScalarFuncSig::CaseWhenTime => Some(RpnFn::CaseWhen(EvalType::DateTime)),
        ScalarFuncSig::CaseWhenDuration => Some(RpnFn::CaseWhen(EvalType::Duration)),
        ScalarFuncSig::CaseWhenJson => Some(RpnFn::CaseWhen(EvalType::Json)),
        ScalarFuncSig::UncompressedLength => Some(RpnFn::UncompressedLength),
        ScalarFuncSig::Md5 => Some(RpnFn::Md5),
        ScalarFuncSig::Sha1 => Some(RpnFn::Sha1),
        ScalarFuncSig::Sha2 => Some(RpnFn::Sha2),
        ScalarFuncSig::RandomBytes => Some(RpnFn::RandomBytes),
        ScalarFuncSig::JsonDepthSig => Some(RpnFn::JsonDepth),
        ScalarFuncSig::JsonTypeSig => Some(RpnFn::JsonType),
        ScalarFuncSig::JsonSetSig => Some(RpnFn::JsonSet),
        ScalarFuncSig::JsonReplaceSig => Some(RpnFn::JsonReplace),
        ScalarFuncSig::JsonInsertSig => Some(RpnFn::JsonInsert),
        ScalarFuncSig::JsonArraySig => Some(RpnFn::JsonArray),
        ScalarFuncSig::JsonObjectSig => Some(RpnFn::JsonObject),
        ScalarFuncSig::JsonMergeSig => Some(RpnFn::JsonMerge),
        ScalarFuncSig::JsonUnquoteSig => Some(RpnFn::JsonUnquote),
        ScalarFuncSig::JsonExtractSig => Some(RpnFn::JsonExtract),
        ScalarFuncSig::JsonLengthSig => Some(RpnFn::JsonLength),
        ScalarFuncSig::JsonRemoveSig => Some(RpnFn::JsonRemove),
        ScalarFuncSig::JsonKeysSig | ScalarFuncSig::JsonKeys2ArgsSig => Some(RpnFn::JsonKeys),
        ScalarFuncSig::Unspecified | ScalarFuncSig::Other(_) => None,
    }
}

/// The null-replacing function on values of type `tp`.
pub fn if_null_fn_meta(tp: EvalType) -> (r: RpnFnMeta)
    ensures
        r.func == RpnFn::IfNull(tp),
{
    RpnFnMeta { func: RpnFn::IfNull(tp) }
}

/// The two-way choice on values of type `tp`.
pub fn if_condition_fn_meta(tp: EvalType) -> (r: RpnFnMeta)
    ensures
        r.func == RpnFn::IfCondition(tp),
{
    RpnFnMeta { func: RpnFn::IfCondition(tp) }
}

/// The many-way choice on values of type `tp`.
pub fn case_when_fn_meta(tp: EvalType) -> (r: RpnFnMeta)
    ensures
        r.func == RpnFn::CaseWhen(tp),
{
    RpnFnMeta { func: RpnFn::CaseWhen(tp) }
}

/// Resolves the function that a scalar function node calls.
///
/// The node's signature alone decides. A signature without an entry in the
/// table fails with [`Error::UnsupportedSignature`], which names it: there is
/// no default entry.
pub fn map_expr_node_to_rpn_func(expr: &Expr) -> (r: Result<RpnFnMeta, Error>)
    ensures
        match rpn_fn_of(expr.sig) {
            Some(func) => r == Ok::<RpnFnMeta, Error>(RpnFnMeta { func }),
            None => r == Err::<RpnFnMeta, Error>(Error::UnsupportedSignature(expr.sig)),
        },
{
    let value = expr.sig;
    Ok(
        match value {
            ScalarFuncSig::IfNullInt => if_null_fn_meta(EvalType::Int),
            ScalarFuncSig::IfNullReal => if_null_fn_meta(EvalType::Real),
            ScalarFuncSig::IfNullString => if_null_fn_meta(EvalType::Bytes),
            ScalarFuncSig::IfNullDecimal => if_null_fn_meta(EvalType::Decimal),
            ScalarFuncSig::IfNullTime => if_null_fn_meta(EvalType::DateTime),
            ScalarFuncSig::IfNullDuration => if_null_fn_meta(EvalType::Duration),
            ScalarFuncSig::IfNullJson => if_null_fn_meta(EvalType::Json),
            ScalarFuncSig::IfInt => if_condition_fn_meta(EvalType::Int),
            ScalarFuncSig::IfReal => if_condition_fn_meta(EvalType::Real),
            ScalarFuncSig::IfDecimal => if_condition_fn_meta(EvalType::Decimal),
            ScalarFuncSig::IfTime => if_condition_fn_meta(EvalType::DateTime),
            ScalarFuncSig::IfString => if_condition_fn_meta(EvalType::Bytes),
            ScalarFuncSig::IfDuration => if_condition_fn_meta(EvalType::Duration),
            ScalarFuncSig::IfJson => if_condition_fn_meta(EvalType::Json),
            ScalarFuncSig::CaseWhenInt => case_when_fn_meta(EvalType::Int),
            ScalarFuncSig::CaseWhenReal => case_when_fn_meta(EvalType::Real),
            ScalarFuncSig::CaseWhenString => case_when_fn_meta(EvalType::Bytes),
            ScalarFuncSig::CaseWhenDecimal => case_when_fn_meta(EvalType::Decimal),
            ScalarFuncSig::CaseWhenTime => case_when_fn_meta(EvalType::DateTime),
            ScalarFuncSig::CaseWhenDuration => case_when_fn_meta(EvalType::Duration),
            ScalarFuncSig::CaseWhenJson => case_when_fn_meta(EvalType::Json),
            ScalarFuncSig::UncompressedLength => RpnFnMeta { func: RpnFn::UncompressedLength },
            ScalarFuncSig::Md5 => RpnFnMeta { func: RpnFn::Md5 },
            ScalarFuncSig::Sha1 => RpnFnMeta { func: RpnFn::Sha1 },
            ScalarFuncSig::Sha2 => RpnFnMeta { func: RpnFn::Sha2 },
            ScalarFuncSig::RandomBytes => RpnFnMeta { func: RpnFn::RandomBytes },
            ScalarFuncSig::JsonDepthSig => RpnFnMeta { func: RpnFn::JsonDepth },
            ScalarFuncSig::JsonTypeSig => RpnFnMeta { func: RpnFn::JsonType },
            ScalarFuncSig::JsonSetSig => RpnFnMeta { func: RpnFn::JsonSet },
            ScalarFuncSig::JsonReplaceSig => RpnFnMeta { func: RpnFn::JsonReplace },
            ScalarFuncSig::JsonInsertSig => RpnFnMeta { func: RpnFn::JsonInsert },
            ScalarFuncSig::JsonArraySig => RpnFnMeta { func: RpnFn::JsonArray },
            ScalarFuncSig::JsonObjectSig => RpnFnMeta { func: RpnFn::JsonObject },
            ScalarFuncSig::JsonMergeSig => RpnFnMeta { func: RpnFn::JsonMerge },
            ScalarFuncSig::JsonUnquoteSig => RpnFnMeta { func: RpnFn::JsonUnquote },
            ScalarFuncSig::JsonExtractSig => RpnFnMeta { func: RpnFn::JsonExtract },
            ScalarFuncSig::JsonLengthSig => RpnFnMeta { func: RpnFn::JsonLength },
            ScalarFuncSig::JsonRemoveSig => RpnFnMeta { func: RpnFn::JsonRemove },
            ScalarFuncSig::JsonKeysSig => RpnFnMeta { func: RpnFn::JsonKeys },
            ScalarFuncSig::JsonKeys2ArgsSig => RpnFnMeta { func: RpnFn::JsonKeys },
            _ => return Err(Error::UnsupportedSignature(value)),
        },
    )
}

/// Resolution is one to one, but for the two signatures of the key-listing
/// function on documents, which share one implementation. A signature known
/// only by number never resolves, nor does the signature of a node that
/// calls no function; every other signature does.
pub proof fn law_resolution_is_by_signature(a: ScalarFuncSig, b: ScalarFuncSig)
    ensures
        rpn_fn_of(a).is_none() <==> (a is Other || a is Unspecified),
        rpn_fn_of(a).is_some() && rpn_fn_of(a) == rpn_fn_of(b) && a != b ==> rpn_fn_of(a) == Some(
            RpnFn::JsonKeys,
        ),
{
}

} // verus!
