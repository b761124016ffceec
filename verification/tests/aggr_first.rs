use vec_aggr::aggr_first::{AggrFnDefinitionParserFirst, AggrFnFirst, AggrFnStateFirst};
use vec_aggr::data_type::{DateTime, Decimal, Duration, Evaluable, Json, Real};
use vec_aggr::chunked_vec::ChunkedVecInt;
use vec_aggr::error::Error;
use vec_aggr::eval_type::{EvalType, FieldTypeTp};
use vec_aggr::expr::{Expr, ExprType, ScalarFuncSig};

fn column_ref(tp: FieldTypeTp) -> Expr {
    Expr { tp: ExprType::ColumnRef, sig: ScalarFuncSig::Unspecified, field_type: tp, children: Vec::new() }
}

fn aggr_first(out: FieldTypeTp, children: Vec<Expr>) -> Expr {
    Expr { tp: ExprType::First, sig: ScalarFuncSig::Unspecified, field_type: out, children }
}

#[test]
fn test_update() {
    let function = AggrFnFirst::new(EvalType::Int);
    let mut state = function.create_state::<i64>();

    let mut result: Vec<Option<i64>> = Vec::with_capacity(0);
    state.push_result(&mut result).unwrap();
    assert_eq!(result.as_slice(), &[None]);

    state.update(Some(&1)).unwrap();
    state.push_result(&mut result).unwrap();
    assert_eq!(result.as_slice(), &[None, Some(1)]);

    state.update(Some(&2)).unwrap();
    state.push_result(&mut result).unwrap();
    assert_eq!(result.as_slice(), &[None, Some(1), Some(1)]);
}

#[test]
fn test_update_repeat() {
    let function = AggrFnFirst::new(EvalType::Bytes);
    let mut state = function.create_state::<Vec<u8>>();

    let mut result: Vec<Option<Vec<u8>>> = Vec::with_capacity(0);

    state.update_repeat(Some(&vec![1u8]), 2).unwrap();
    state.push_result(&mut result).unwrap();
    assert_eq!(result.as_slice(), &[Some(vec![1])]);

    state.update_repeat(Some(&vec![2u8]), 3).unwrap();
    state.push_result(&mut result).unwrap();
    assert_eq!(result.as_slice(), &[Some(vec![1]), Some(vec![1])]);
}

#[test]
fn test_update_vector() {
    let function = AggrFnFirst::new(EvalType::Int);
    let mut state = function.create_state::<i64>();
    let mut result: Vec<Option<i64>> = Vec::with_capacity(0);

    state.update_vector(&Vec::<Option<i64>>::new(), &[]).unwrap();
    state.push_result(&mut result).unwrap();
    assert_eq!(result.as_slice(), &[None]);

    result.clear();
    state.update_vector(&vec![Some(1i64)], &[]).unwrap();
    state.push_result(&mut result).unwrap();
    assert_eq!(result.as_slice(), &[None]);

    result.clear();
    state.update_vector(&vec![None, Some(2i64)], &[0, 1]).unwrap();
    state.push_result(&mut result).unwrap();
    assert_eq!(result.as_slice(), &[None]);

    result.clear();
    state.update_vector(&vec![Some(1i64)], &[0]).unwrap();
    state.push_result(&mut result).unwrap();
    assert_eq!(result.as_slice(), &[None]);

    // Reset state
    let mut state = function.create_state::<i64>();

    result.clear();
    state.update_vector(&vec![None, Some(2i64)], &[1, 0]).unwrap();
    state.push_result(&mut result).unwrap();
    assert_eq!(result.as_slice(), &[Some(2)]);
}

#[test]
fn test_illegal_request() {
    // Expect LongLong but give Double
    let expr = aggr_first(FieldTypeTp::Double, vec![column_ref(FieldTypeTp::LongLong)]);
    AggrFnDefinitionParserFirst.check_supported(&expr).unwrap();

    let mut schema = vec![];
    let mut exp = vec![];
    AggrFnDefinitionParserFirst.parse(expr, &mut schema, &mut exp).unwrap_err();
}

#[test]
fn mismatch_names_the_declared_type_and_adds_nothing() {
    let expr = aggr_first(FieldTypeTp::Double, vec![column_ref(FieldTypeTp::LongLong)]);
    let mut schema = vec![FieldTypeTp::Tiny];
    let mut exp: Vec<Expr> = vec![];
    let err = AggrFnDefinitionParserFirst.parse(expr, &mut schema, &mut exp).unwrap_err();
    assert_eq!(err, Error::UnexpectedFieldType(FieldTypeTp::Double));
    assert_eq!(schema, vec![FieldTypeTp::Tiny]);
    assert!(exp.is_empty());
}

#[test]
fn unsupported_output_type_is_refused() {
    let expr = aggr_first(FieldTypeTp::Geometry, vec![column_ref(FieldTypeTp::LongLong)]);
    let mut schema = vec![];
    let mut exp: Vec<Expr> = vec![];
    let err = AggrFnDefinitionParserFirst.parse(expr, &mut schema, &mut exp).unwrap_err();
    assert_eq!(err, Error::UnsupportedFieldType(FieldTypeTp::Geometry));
    assert!(schema.is_empty());
    assert!(exp.is_empty());
}

#[test]
fn parse_builds_function_of_operand_type() {
    let expr = aggr_first(FieldTypeTp::LongLong, vec![column_ref(FieldTypeTp::Tiny)]);
    let mut schema = vec![];
    let mut exp: Vec<Expr> = vec![];
    let f = AggrFnDefinitionParserFirst.parse(expr, &mut schema, &mut exp).unwrap();
    assert_eq!(f.eval_type, EvalType::Int);
    assert_eq!(f.name(), "AggrFnFirst");
    assert_eq!(schema, vec![FieldTypeTp::LongLong]);
    assert_eq!(exp.len(), 1);
    assert_eq!(exp[0].tp, ExprType::ColumnRef);
    assert_eq!(exp[0].field_type, FieldTypeTp::Tiny);

    let expr = aggr_first(FieldTypeTp::VarChar, vec![column_ref(FieldTypeTp::Blob)]);
    let f = AggrFnDefinitionParserFirst.parse(expr, &mut schema, &mut exp).unwrap();
    assert_eq!(f.eval_type, EvalType::Bytes);
    assert_eq!(schema, vec![FieldTypeTp::LongLong, FieldTypeTp::VarChar]);
    assert_eq!(exp.len(), 2);
}

#[test]
fn arity_is_checked() {
    let none = aggr_first(FieldTypeTp::LongLong, vec![]);
    assert_eq!(AggrFnDefinitionParserFirst.check_supported(&none), Err(Error::Arity(0)));
    let two = aggr_first(
        FieldTypeTp::LongLong,
        vec![column_ref(FieldTypeTp::LongLong), column_ref(FieldTypeTp::LongLong)],
    );
    assert_eq!(AggrFnDefinitionParserFirst.check_supported(&two), Err(Error::Arity(2)));
    let one = aggr_first(FieldTypeTp::LongLong, vec![column_ref(FieldTypeTp::LongLong)]);
    assert_eq!(AggrFnDefinitionParserFirst.check_supported(&one), Ok(()));
}

#[test]
fn field_types_resolve() {
    assert_eq!(EvalType::try_from_field_type(FieldTypeTp::Year), Ok(EvalType::Int));
    assert_eq!(EvalType::try_from_field_type(FieldTypeTp::Int24), Ok(EvalType::Int));
    assert_eq!(EvalType::try_from_field_type(FieldTypeTp::Float), Ok(EvalType::Real));
    assert_eq!(EvalType::try_from_field_type(FieldTypeTp::Double), Ok(EvalType::Real));
    assert_eq!(EvalType::try_from_field_type(FieldTypeTp::NewDecimal), Ok(EvalType::Decimal));
    assert_eq!(EvalType::try_from_field_type(FieldTypeTp::Timestamp), Ok(EvalType::DateTime));
    assert_eq!(EvalType::try_from_field_type(FieldTypeTp::Date), Ok(EvalType::DateTime));
    assert_eq!(EvalType::try_from_field_type(FieldTypeTp::Duration), Ok(EvalType::Duration));
    assert_eq!(EvalType::try_from_field_type(FieldTypeTp::Json), Ok(EvalType::Json));
    assert_eq!(EvalType::try_from_field_type(FieldTypeTp::FixedString), Ok(EvalType::Bytes));
    assert_eq!(
        EvalType::try_from_field_type(FieldTypeTp::Null),
        Err(Error::UnsupportedFieldType(FieldTypeTp::Null))
    );
    assert_eq!(
        EvalType::try_from_field_type(FieldTypeTp::Bit),
        Err(Error::UnsupportedFieldType(FieldTypeTp::Bit))
    );
}

#[test]
fn first_null_settles_the_state() {
    let mut state = AggrFnStateFirst::<i64>::new();
    state.update(None).unwrap();
    state.update(Some(&5)).unwrap();
    state.update_repeat(Some(&6), 4).unwrap();
    state.update_vector(&vec![Some(7i64)], &[0]).unwrap();
    let mut result: Vec<Option<i64>> = Vec::new();
    state.push_result(&mut result).unwrap();
    assert_eq!(result, vec![None]);
}

#[test]
fn settled_value_survives_every_protocol() {
    let mut state = AggrFnStateFirst::<i64>::new();
    state.update_repeat(Some(&9), 1).unwrap();
    state.update(None).unwrap();
    state.update(Some(&5)).unwrap();
    state.update_repeat(None, 2).unwrap();
    state.update_vector(&vec![Some(7i64), None], &[1, 0]).unwrap();
    let mut result: Vec<Option<i64>> = vec![Some(100)];
    state.push_result(&mut result).unwrap();
    state.push_result(&mut result).unwrap();
    assert_eq!(result, vec![Some(100), Some(9), Some(9)]);
}

#[test]
fn vector_update_equals_single_updates_in_row_order() {
    let physical = vec![Some(10i64), None, Some(30), Some(40)];
    let rows = [2usize, 1, 0, 3];
    let mut by_vector = AggrFnStateFirst::<i64>::new();
    by_vector.update_vector(&physical, &rows).unwrap();
    let mut one_by_one = AggrFnStateFirst::<i64>::new();
    for r in rows.iter() {
        one_by_one.update(physical[*r].as_ref()).unwrap();
    }
    let mut a: Vec<Option<i64>> = Vec::new();
    let mut b: Vec<Option<i64>> = Vec::new();
    by_vector.push_result(&mut a).unwrap();
    one_by_one.push_result(&mut b).unwrap();
    assert_eq!(a, vec![Some(30)]);
    assert_eq!(a, b);
}

#[test]
fn repeated_update_equals_single_updates() {
    let mut repeated = AggrFnStateFirst::<Vec<u8>>::new();
    repeated.update_repeat(Some(&vec![4u8, 5]), 3).unwrap();
    let mut one_by_one = AggrFnStateFirst::<Vec<u8>>::new();
    for _ in 0..3 {
        one_by_one.update(Some(&vec![4u8, 5])).unwrap();
    }
    let mut a: Vec<Option<Vec<u8>>> = Vec::new();
    let mut b: Vec<Option<Vec<u8>>> = Vec::new();
    repeated.push_result(&mut a).unwrap();
    one_by_one.push_result(&mut b).unwrap();
    assert_eq!(a, vec![Some(vec![4u8, 5])]);
    assert_eq!(a, b);
}

#[test]
fn vector_update_reads_a_chunked_column() {
    let column = ChunkedVecInt::from_vec(vec![None, Some(2), Some(-3)]);
    let mut state = AggrFnStateFirst::<i64>::new();
    state.update_vector(&column, &[2, 0]).unwrap();
    let mut result: Vec<Option<i64>> = Vec::new();
    state.push_result(&mut result).unwrap();
    assert_eq!(result, vec![Some(-3)]);

    let mut state = AggrFnStateFirst::<i64>::new();
    state.update_vector(&column, &[0, 1]).unwrap();
    state.push_result(&mut result).unwrap();
    assert_eq!(result, vec![Some(-3), None]);
}

#[test]
fn value_types_carry_their_tag() {
    assert_eq!(<i64 as Evaluable>::eval_type(), EvalType::Int);
    assert_eq!(<Vec<u8> as Evaluable>::eval_type(), EvalType::Bytes);
    assert_eq!(vec![1u8, 2, 3].to_owned_value(), vec![1u8, 2, 3]);
    assert_eq!(7i64.to_owned_value(), 7);
}

#[test]
fn every_value_type_has_a_state() {
    assert_eq!(<Real as Evaluable>::eval_type(), EvalType::Real);
    assert_eq!(<Decimal as Evaluable>::eval_type(), EvalType::Decimal);
    assert_eq!(<DateTime as Evaluable>::eval_type(), EvalType::DateTime);
    assert_eq!(<Duration as Evaluable>::eval_type(), EvalType::Duration);
    assert_eq!(<Json as Evaluable>::eval_type(), EvalType::Json);

    let half = Real { bits: 0.5f64.to_bits() };
    let mut state = AggrFnFirst::new(EvalType::Real).create_state::<Real>();
    state.update_repeat(Some(&half), 2).unwrap();
    state.update(Some(&Real { bits: 1.5f64.to_bits() })).unwrap();
    let mut out: Vec<Option<Real>> = Vec::new();
    state.push_result(&mut out).unwrap();
    assert_eq!(out, vec![Some(half)]);
    assert_eq!(f64::from_bits(out[0].unwrap().bits), 0.5);

    let doc = Json { encoded: vec![1u8, 0, 7] };
    let mut state = AggrFnFirst::new(EvalType::Json).create_state::<Json>();
    state.update_vector(&vec![None, Some(doc.clone())], &[1]).unwrap();
    let mut out: Vec<Option<Json>> = Vec::new();
    state.push_result(&mut out).unwrap();
    assert_eq!(out, vec![Some(doc)]);

    let d = Decimal { encoded: vec![9u8, 9] };
    assert_eq!(d.to_owned_value(), d);
    assert_eq!(Duration { nanos: -5 }.to_owned_value(), Duration { nanos: -5 });
    assert_eq!(DateTime { packed: 77 }.to_owned_value(), DateTime { packed: 77 });
}

#[test]
fn results_go_into_a_chunked_column() {
    let mut out = ChunkedVecInt::new(2);
    let mut state = AggrFnStateFirst::<i64>::new();
    assert_eq!(state.push_result(&mut out), Ok(()));
    state.update(Some(&-17)).unwrap();
    assert_eq!(state.push_result(&mut out), Ok(()));
    state.update(Some(&4)).unwrap();
    assert_eq!(state.push_result(&mut out), Ok(()));
    assert_eq!(out.len(), 3);
    assert!(out.is_null(0));
    assert_eq!(out.get_ref(0), None);
    assert_eq!(out.get_ref(1), Some(-17));
    assert_eq!(out.get_ref(2), Some(-17));
}

#[test]
fn empty_selection_leaves_the_state_empty() {
    let mut state = AggrFnStateFirst::<i64>::new();
    state.update_vector(&vec![Some(1i64), Some(2)], &[]).unwrap();
    let mut out: Vec<Option<i64>> = Vec::new();
    state.push_result(&mut out).unwrap();
    assert_eq!(out, vec![None]);
    state.update(Some(&3)).unwrap();
    state.push_result(&mut out).unwrap();
    assert_eq!(out, vec![None, Some(3)]);
}

#[test]
fn parse_refuses_a_descriptor_without_operand() {
    let expr = aggr_first(FieldTypeTp::LongLong, vec![]);
    let mut schema = vec![FieldTypeTp::Double];
    let mut exp: Vec<Expr> = vec![column_ref(FieldTypeTp::Tiny)];
    let err = AggrFnDefinitionParserFirst.parse(expr, &mut schema, &mut exp).unwrap_err();
    assert_eq!(err, Error::Arity(0));
    assert_eq!(schema, vec![FieldTypeTp::Double]);
    assert_eq!(exp.len(), 1);
    assert_eq!(exp[0].field_type, FieldTypeTp::Tiny);
}

#[test]
fn parse_refuses_a_descriptor_with_two_operands() {
    let expr = aggr_first(
        FieldTypeTp::LongLong,
        vec![column_ref(FieldTypeTp::LongLong), column_ref(FieldTypeTp::Json)],
    );
    let mut schema: Vec<FieldTypeTp> = vec![];
    let mut exp: Vec<Expr> = vec![];
    let err = AggrFnDefinitionParserFirst.parse(expr, &mut schema, &mut exp).unwrap_err();
    assert_eq!(err, Error::Arity(2));
    assert!(schema.is_empty());
    assert!(exp.is_empty());
}

#[test]
fn arity_is_judged_before_types() {
    let expr = aggr_first(FieldTypeTp::Geometry, vec![]);
    let mut schema: Vec<FieldTypeTp> = vec![];
    let mut exp: Vec<Expr> = vec![];
    let err = AggrFnDefinitionParserFirst.parse(expr, &mut schema, &mut exp).unwrap_err();
    assert_eq!(err, Error::Arity(0));
}
