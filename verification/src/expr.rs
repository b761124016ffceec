//! Expression trees as the planner hands them over: plain data, not yet bound
//! to any implementation.

use vstd::prelude::*;
use crate::eval_type::FieldTypeTp;

verus! {

/// What kind of node an expression is.
#[derive(Clone, Copy, Debug, PartialEq, Eq, Structural)]
pub enum ExprType {
    Null,
    Int64,
    Uint64,
    Float32,
    Float64,
    Utf8,
    Bytes,
    MysqlBit,
    MysqlDecimal,
    MysqlDuration,
    MysqlEnum,
    MysqlHex,
    MysqlSet,
    MysqlTime,
    MysqlJson,
    ValueList,
    ColumnRef,
    Count,
    Sum,
    Avg,
    Min,
    Max,
    First,
    GroupConcat,
    AggBitAnd,
    AggBitOr,
    AggBitXor,
    Std,
    Stddev,
    VarPop,
    VarSamp,
    Variance,
    ScalarFunc,
}

/// The signature of a scalar function: which function, on which operand type.
///
/// The signatures that this engine knows by name are listed; any other is
/// carried by its number in `Other`.
#[derive(Clone, Copy, Debug, PartialEq, Eq, Structural)]
pub enum ScalarFuncSig {
    /// No function: the signature of a node that calls none.
    Unspecified,
    IfNullInt,
    IfNullReal,
    IfNullString,
    IfNullDecimal,
    IfNullTime,
    IfNullDuration,
    IfNullJson,
    IfInt,
    IfReal,
    IfDecimal,
    IfTime,
    IfString,
    IfDuration,
    IfJson,
    CaseWhenInt,
    CaseWhenReal,
    CaseWhenString,
    CaseWhenDecimal,
    CaseWhenTime,
    CaseWhenDuration,
    CaseWhenJson,
    UncompressedLength,
    Md5,
    Sha1,
    Sha2,
    RandomBytes,
    JsonDepthSig,
    JsonTypeSig,
    JsonSetSig,
    JsonReplaceSig,
    JsonInsertSig,
    JsonArraySig,
    JsonObjectSig,
    JsonMergeSig,
    JsonUnquoteSig,
    JsonExtractSig,
    JsonLengthSig,
    JsonRemoveSig,
    JsonKeysSig,
    JsonKeys2ArgsSig,
    Other(i32),
}

/// One node of an expression tree, with its operands.
#[derive(Debug)]
pub struct Expr {
    /// The kind of node.
    pub tp: ExprType,
    /// The function's signature, read where `tp` is `ScalarFunc`.
    pub sig: ScalarFuncSig,
    /// The declared type of the node's result.
    pub field_type: FieldTypeTp,
    /// The operands, in order.
    pub children: Vec<Expr>,
}

} // verus!
