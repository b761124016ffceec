//! The FIRST aggregate function: a group's result is the first value that
//! reaches it, null included.
//!
//! A state starts empty and settles on its first update; every later update
//! leaves it as it is. Values reach a state one at a time, as one value
//! repeated, or as the rows that a selection picks from a column, and all
//! three ways agree with feeding the values one after the other.

use vstd::prelude::*;
use crate::data_type::{ref_view, value_view, ChunkedRows, Evaluable};
use crate::error::Error;
use crate::eval_type::{eval_type_of, EvalType, FieldTypeTp};
use crate::expr::{Expr, ExprType};

verus! {

/// The state after one update: an empty state (`None`) settles on the value,
/// a settled state stays.
pub open spec fn first_update<V>(state: Option<Option<V>>, value: Option<V>) -> Option<Option<V>> {
    match state {
        None => Some(value),
        Some(_) => state,
    }
}

/// The state after one update for each of `values`, in order.
pub open spec fn update_each<V>(state: Option<Option<V>>, values: Seq<Option<V>>) -> Option<
    Option<V>,
>
    decreases values.len(),
{
    if values.len() == 0 {
        state
    } else {
        first_update(update_each(state, values.drop_last()), values.last())
    }
}

/// The values that a list of row indices picks from a column, in the order
/// of the list.
pub open spec fn selected<V>(physical: Seq<Option<V>>, logical_rows: Seq<usize>) -> Seq<Option<V>> {
    Seq::new(logical_rows.len(), |i: int| physical[logical_rows[i] as int])
}

/// The state after the rows picked by `logical_rows` reached it: that of one
/// update with the first of them, since first arrival wins.
pub open spec fn vector_update<V>(
    state: Option<Option<V>>,
    physical: Seq<Option<V>>,
    logical_rows: Seq<usize>,
) -> Option<Option<V>> {
    if logical_rows.len() == 0 {
        state
    } else {
        first_update(state, physical[logical_rows[0] as int])
    }
}

/// What a state yields as its group's result: null while it is empty.
pub open spec fn first_result<V>(state: Option<Option<V>>) -> Option<V> {
    match state {
        Some(v) => v,
        None => None,
    }
}

/// The state of the FIRST aggregate function for one group.
#[derive(Debug)]
pub enum AggrFnStateFirst<T: Evaluable> {
    /// No value has arrived.
    Empty,
    /// The first value that arrived, which may be null.
    Valued(Option<T>),
}

impl<T: Evaluable> View for AggrFnStateFirst<T> {
    type V = Option<Option<T::V>>;

    /// `None` for an empty state, else the value it settled on.
    open spec fn view(&self) -> Option<Option<T::V>> {
        match self {
            AggrFnStateFirst::Empty => None,
            AggrFnStateFirst::Valued(v) => Some(value_view(*v)),
        }
    }
}

impl<T: Evaluable> AggrFnStateFirst<T> {
    /// The empty state.
    pub fn new() -> (r: Self)
        ensures
            r@ == None::<Option<T::V>>,
    {
        AggrFnStateFirst::Empty
    }

    fn is_unset(&self) -> (r: bool)
        ensures
            r == self@.is_none(),
    {
        match self {
            AggrFnStateFirst::Empty => true,
            AggrFnStateFirst::Valued(_) => false,
        }
    }

    /// Feeds one value, which may be null.
    pub fn update(&mut self, value: Option<&T>) -> (r: Result<(), Error>)
        ensures
            r.is_ok(),
            final(self)@ == first_update(old(self)@, ref_view(value)),
    {
        if self.is_unset() {
            let owned = match value {
                Some(x) => Some(x.to_owned_value()),
                None => None,
            };
            *self = AggrFnStateFirst::Valued(owned);
        }
        Ok(())
    }

    /// Feeds one value `repeat_times` times over.
    pub fn update_repeat(&mut self, value: Option<&T>, repeat_times: usize) -> (r: Result<
        (),
        Error,
    >)
        requires
            repeat_times > 0,
        ensures
            r.is_ok(),
            final(self)@ == first_update(old(self)@, ref_view(value)),
            final(self)@ == update_each(
                old(self)@,
                Seq::new(repeat_times as nat, |i: int| ref_view(value)),
            ),
    {
        proof {
            law_repeat_is_each(old(self)@, ref_view(value), repeat_times as nat);
        }
        self.update(value)
    }

    /// Feeds the rows of `physical_values` that `logical_rows` picks, in the
    /// order of that list.
    pub fn update_vector<C: ChunkedRows<T>>(
        &mut self,
        physical_values: &C,
        logical_rows: &[usize],
    ) -> (r: Result<(), Error>)
        requires
            physical_values.readable(),
            logical_rows@.len() > 0 ==> logical_rows@[0] < physical_values.rows().len(),
        ensures
            r.is_ok(),
            final(self)@ == vector_update(old(self)@, physical_values.rows(), logical_rows@),
            (forall|i: int|
                0 <= i < logical_rows@.len() ==> logical_rows@[i] < physical_values.rows().len())
                ==> final(self)@ == update_each(
                old(self)@,
                selected(physical_values.rows(), logical_rows@),
            ),
    {
        proof {
            if forall|i: int|
                0 <= i < logical_rows@.len() ==> logical_rows@[i] < physical_values.rows().len() {
                law_vector_is_each(old(self)@, physical_values.rows(), logical_rows@);
            }
        }
        if logical_rows.len() > 0 {
            let physical_index = logical_rows[0];
            let value = physical_values.get_option(physical_index);
            match &value {
                Some(x) => self.update(Some(x)),
                None => self.update(None),
            }
        } else {
            Ok(())
        }
    }

    /// Appends the group's result to the output column `target`: null while
    /// the state is empty, else a copy of the value it settled on. The state
    /// stays usable.
    ///
    /// Fails with [`Error::Encoding`], and appends nothing, exactly when the
    /// column has no room for one more row.
    pub fn push_result<C: ChunkedRows<T>>(&self, target: &mut C) -> (r: Result<(), Error>)
        requires
            old(target).readable(),
        ensures
            final(target).readable(),
            r.is_ok() <==> old(target).has_room(),
            r.is_ok() ==> final(target).rows() == old(target).rows().push(first_result(self@)),
            r.is_err() ==> r == Err::<(), Error>(Error::Encoding) && final(target).rows() == old(
                target,
            ).rows(),
    {
        let res = match self {
            AggrFnStateFirst::Valued(Some(v)) => Some(v.to_owned_value()),
            _ => None,
        };
        target.push_option(res)
    }
}

/// The FIRST aggregate function on values of one logical type.
#[derive(Debug)]
pub struct AggrFnFirst {
    /// The logical type of the operand, and so of the result.
    pub eval_type: EvalType,
}

impl AggrFnFirst {
    /// The function on values of type `eval_type`.
    pub fn new(eval_type: EvalType) -> (r: Self)
        ensures
            r.eval_type == eval_type,
    {
        AggrFnFirst { eval_type }
    }

    /// The name of the function.
    pub fn name(&self) -> (r: &'static str)
        ensures
            r@ == "AggrFnFirst"@,
    {
        "AggrFnFirst"
    }

    /// A fresh, empty state for one group. The value type asked for has to
    /// be the one that the function was made for.
    pub fn create_state<T: Evaluable>(&self) -> (r: AggrFnStateFirst<T>)
        requires
            T::spec_eval_type() == self.eval_type,
        ensures
            r@ == None::<Option<T::V>>,
    {
        AggrFnStateFirst::new()
    }
}

/// What parsing a FIRST descriptor comes to: the value type of the result,
/// or why the descriptor is refused. A descriptor that has not exactly one
/// operand is refused for its arity, before any type is looked at.
pub open spec fn parse_outcome(aggr_def: Expr) -> Result<EvalType, Error> {
    let out_ft = aggr_def.field_type;
    if aggr_def.children@.len() != 1 {
        Err(Error::Arity(aggr_def.children@.len() as usize))
    } else {
        match eval_type_of(out_ft) {
            None => Err(Error::UnsupportedFieldType(out_ft)),
            Some(out_et) => if Some(out_et) == eval_type_of(aggr_def.children@[0].field_type) {
                Ok(out_et)
            } else {
                Err(Error::UnexpectedFieldType(out_ft))
            },
        }
    }
}

/// The parser for descriptors of the FIRST aggregate function.
pub struct AggrFnDefinitionParserFirst;

impl AggrFnDefinitionParserFirst {
    /// Checks the descriptor's arity: FIRST takes exactly one operand.
    pub fn check_supported(&self, aggr_def: &Expr) -> (r: Result<(), Error>)
        requires
            aggr_def.tp == ExprType::First,
        ensures
            aggr_def.children@.len() == 1 ==> r == Ok::<(), Error>(()),
            aggr_def.children@.len() != 1 ==> r == Err::<(), Error>(
                Error::Arity(aggr_def.children.len()),
            ),
    {
        let n = aggr_def.children.len();
        if n != 1 {
            return Err(Error::Arity(n));
        }
        Ok(())
    }

    /// Builds the function that a descriptor asks for.
    ///
    /// The descriptor has to have exactly one operand, and its declared
    /// result type has to resolve to the value type of that operand. Then the
    /// result's field type is added to `out_schema`, the operand to
    /// `out_exp`, and the function for that value type is returned.
    /// Otherwise the descriptor is refused, with [`Error::Arity`] where the
    /// number of operands is wrong, and both lists stay as they were.
    pub fn parse(
        &self,
        aggr_def: Expr,
        out_schema: &mut Vec<FieldTypeTp>,
        out_exp: &mut Vec<Expr>,
    ) -> (r: Result<AggrFnFirst, Error>)
        requires
            aggr_def.tp == ExprType::First,
            aggr_def.children@.len() == 1 ==> eval_type_of(
                aggr_def.children@[0].field_type,
            ).is_some(),
        ensures
            match parse_outcome(aggr_def) {
                Ok(et) => {
                    &&& r is Ok
                    &&& r->Ok_0.eval_type == et
                    &&& final(out_schema)@ == old(out_schema)@.push(aggr_def.field_type)
                    &&& final(out_exp)@ == old(out_exp)@.push(aggr_def.children@[0])
                },
                Err(e) => {
                    &&& r is Err
                    &&& r->Err_0 == e
                    &&& final(out_schema)@ == old(out_schema)@
                    &&& final(out_exp)@ == old(out_exp)@
                },
            },
    {
        let Expr { tp: _, sig: _, field_type: out_ft, children } = aggr_def;
        let mut children = children;
        let n = children.len();
        if n != 1 {
            return Err(Error::Arity(n));
        }
        let child = children.remove(0);
        let eval_type = EvalType::try_from_field_type(child.field_type).unwrap();
        let out_et = match EvalType::try_from_field_type(out_ft) {
            Ok(et) => et,
            Err(e) => {
                return Err(e);
            },
        };
        if out_et != eval_type {
            return Err(Error::UnexpectedFieldType(out_ft));
        }
        // FIRST outputs one column with the same type as its operand.
        out_schema.push(out_ft);
        out_exp.push(child);
        Ok(AggrFnFirst::new(eval_type))
    }
}

/// A state that has settled on a value keeps it through every later update,
/// however the later values reach it: one at a time, one value repeated, or
/// the rows that a selection picks.
pub proof fn law_settled_state_stays<V>(
    state: Option<Option<V>>,
    first: Option<V>,
    later: Seq<Option<V>>,
    physical: Seq<Option<V>>,
    logical_rows: Seq<usize>,
)
    ensures
        forall|v: Option<V>|
            (#[trigger] first_update(first_update(state, first), v)) == first_update(state, first),
        update_each(first_update(state, first), later) == first_update(state, first),
        vector_update(first_update(state, first), physical, logical_rows) == first_update(
            state,
            first,
        ),
        first_result(update_each(first_update(state, first), later)) == first_result(
            first_update(state, first),
        ),
    decreases later.len(),
{
    if later.len() > 0 {
        law_settled_state_stays(state, first, later.drop_last(), physical, logical_rows);
    }
}

/// Feeding values one after the other comes to feeding the first of them.
pub proof fn law_first_arrival_wins<V>(state: Option<Option<V>>, values: Seq<Option<V>>)
    requires
        values.len() > 0,
    ensures
        update_each(state, values) == first_update(state, values[0]),
    decreases values.len(),
{
    if values.len() == 1 {
        assert(values.drop_last().len() == 0);
    } else {
        law_first_arrival_wins(state, values.drop_last());
    }
}

/// Feeding the rows that a selection picks, all at once, comes to feeding
/// them one after the other in the order of the selection.
pub proof fn law_vector_is_each<V>(
    state: Option<Option<V>>,
    physical: Seq<Option<V>>,
    logical_rows: Seq<usize>,
)
    requires
        forall|i: int| 0 <= i < logical_rows.len() ==> logical_rows[i] < physical.len(),
    ensures
        vector_update(state, physical, logical_rows) == update_each(
            state,
            selected(physical, logical_rows),
        ),
{
    if logical_rows.len() > 0 {
        law_first_arrival_wins(state, selected(physical, logical_rows));
    }
}

/// Feeding one value `n` times over, for `n` of at least one, comes to `n`
/// single updates with it.
pub proof fn law_repeat_is_each<V>(state: Option<Option<V>>, value: Option<V>, n: nat)
    requires
        n >= 1,
    ensures
        update_each(state, Seq::new(n, |i: int| value)) == first_update(state, value),
{
    law_first_arrival_wins(state, Seq::new(n, |i: int| value));
}

} // verus!
