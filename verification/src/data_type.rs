//! The logical value types, and what the rest of the engine asks of each:
//! a tag, an owned copy of a borrowed value, and a column that hands out the
//! value of a row or null.
//!
//! Values that have no plain form of their own are held as what stands for
//! them: a real number by its bit pattern, a decimal and a document by their
//! binary encoding, a point in time by its packed form.

use vstd::prelude::*;
use crate::chunked_vec::ChunkedVecInt;
use crate::error::Error;
use crate::eval_type::EvalType;

verus! {

/// A signed integer.
pub type Int = i64;

/// A byte string.
pub type Bytes = Vec<u8>;

/// A real number, held as the 64 bits of its binary form.
#[derive(Clone, Copy, Debug, PartialEq, Eq)]
pub struct Real {
    pub bits: u64,
}

/// A fixed-point decimal, held in its binary encoding.
#[derive(Clone, Debug, PartialEq, Eq)]
pub struct Decimal {
    pub encoded: Vec<u8>,
}

/// A date and time, held in its packed form.
#[derive(Clone, Copy, Debug, PartialEq, Eq)]
pub struct DateTime {
    pub packed: u64,
}

/// A span of time in nanoseconds.
#[derive(Clone, Copy, Debug, PartialEq, Eq)]
pub struct Duration {
    pub nanos: i64,
}

/// A document, held in its binary encoding.
#[derive(Clone, Debug, PartialEq, Eq)]
pub struct Json {
    pub encoded: Vec<u8>,
}

impl View for Real {
    type V = u64;

    open spec fn view(&self) -> u64 {
        self.bits
    }
}

impl View for Decimal {
    type V = Seq<u8>;

    open spec fn view(&self) -> Seq<u8> {
        self.encoded@
    }
}

impl View for DateTime {
    type V = u64;

    open spec fn view(&self) -> u64 {
        self.packed
    }
}

impl View for Duration {
    type V = i64;

    open spec fn view(&self) -> i64 {
        self.nanos
    }
}

impl View for Json {
    type V = Seq<u8>;

    open spec fn view(&self) -> Seq<u8> {
        self.encoded@
    }
}

/// A fresh byte vector with the bytes of `bytes`.
pub fn copy_bytes(bytes: &Vec<u8>) -> (r: Vec<u8>)
    ensures
        r@ == bytes@,
{
    let mut out: Vec<u8> = Vec::with_capacity(bytes.len());
    let mut i: usize = 0;
    while i < bytes.len()
        invariant
            i <= bytes.len(),
            out@ == bytes@.take(i as int),
        decreases bytes.len() - i,
    {
        out.push(bytes[i]);
        i += 1;
        assert(bytes@.take(i as int) =~= bytes@.take(i - 1).push(bytes@[i - 1]));
    }
    assert(bytes@.take(bytes.len() as int) =~= bytes@);
    out
}

/// What every logical value type offers: its tag, and an owned copy of a
/// borrowed value.
pub trait Evaluable: Sized + View {
    /// The tag of this logical value type.
    spec fn spec_eval_type() -> EvalType;

    /// The tag of this logical value type.
    fn eval_type() -> (r: EvalType)
        ensures
            r == Self::spec_eval_type(),
    ;

    /// An owned value equal to the borrowed one.
    fn to_owned_value(&self) -> (r: Self)
        ensures
            r@ == self@,
    ;
}

impl Evaluable for i64 {
    open spec fn spec_eval_type() -> EvalType {
        EvalType::Int
    }

    fn eval_type() -> (r: EvalType) {
        EvalType::Int
    }

    fn to_owned_value(&self) -> (r: Self) {
        *self
    }
}

impl Evaluable for Vec<u8> {
    open spec fn spec_eval_type() -> EvalType {
        EvalType::Bytes
    }

    fn eval_type() -> (r: EvalType) {
        EvalType::Bytes
    }

    fn to_owned_value(&self) -> (r: Self) {
        copy_bytes(self)
    }
}

impl Evaluable for Real {
    open spec fn spec_eval_type() -> EvalType {
        EvalType::Real
    }

    fn eval_type() -> (r: EvalType) {
        EvalType::Real
    }

    fn to_owned_value(&self) -> (r: Self) {
        Real { bits: self.bits }
    }
}

impl Evaluable for Decimal {
    open spec fn spec_eval_type() -> EvalType {
        EvalType::Decimal
    }

    fn eval_type() -> (r: EvalType) {
        EvalType::Decimal
    }

    fn to_owned_value(&self) -> (r: Self) {
        Decimal { encoded: copy_bytes(&self.encoded) }
    }
}

impl Evaluable for DateTime {
    open spec fn spec_eval_type() -> EvalType {
        EvalType::DateTime
    }

    fn eval_type() -> (r: EvalType) {
        EvalType::DateTime
    }

    fn to_owned_value(&self) -> (r: Self) {
        DateTime { packed: self.packed }
    }
}

impl Evaluable for Duration {
    open spec fn spec_eval_type() -> EvalType {
        EvalType::Duration
    }

    fn eval_type() -> (r: EvalType) {
        EvalType::Duration
    }

    fn to_owned_value(&self) -> (r: Self) {
        Duration { nanos: self.nanos }
    }
}

impl Evaluable for Json {
    open spec fn spec_eval_type() -> EvalType {
        EvalType::Json
    }

    fn eval_type() -> (r: EvalType) {
        EvalType::Json
    }

    fn to_owned_value(&self) -> (r: Self) {
        Json { encoded: copy_bytes(&self.encoded) }
    }
}

/// What an optional owned value stands for.
pub open spec fn value_view<T: View>(value: Option<T>) -> Option<T::V> {
    match value {
        Some(x) => Some(x@),
        None => None,
    }
}

/// What an optional borrowed value stands for.
pub open spec fn ref_view<T: View>(value: Option<&T>) -> Option<T::V> {
    match value {
        Some(x) => Some(x@),
        None => None,
    }
}

/// A column that hands out the value of a row, or null, and takes new rows
/// at its end.
pub trait ChunkedRows<T: Evaluable> {
    /// Whether the column is fit to be read and appended to.
    spec fn readable(&self) -> bool;

    /// The rows of the column.
    spec fn rows(&self) -> Seq<Option<T::V>>;

    /// Whether the column can take one more row.
    spec fn has_room(&self) -> bool;

    /// The value of row `idx`, or `None` where the row is null.
    fn get_option(&self, idx: usize) -> (r: Option<T>)
        requires
            self.readable(),
            idx < self.rows().len(),
        ensures
            value_view(r) == self.rows()[idx as int],
    ;

    /// Appends one row, null for `None`. Fails with [`Error::Encoding`], and
    /// leaves the rows as they were, exactly when the column has no room.
    fn push_option(&mut self, value: Option<T>) -> (r: Result<(), Error>)
        requires
            old(self).readable(),
        ensures
            final(self).readable(),
            r.is_ok() <==> old(self).has_room(),
            r.is_ok() ==> final(self).rows() == old(self).rows().push(value_view(value)),
            r.is_err() ==> r == Err::<(), Error>(Error::Encoding) && final(self).rows() == old(
                self,
            ).rows(),
    ;
}

impl ChunkedRows<i64> for ChunkedVecInt {
    open spec fn readable(&self) -> bool {
        self.wf()
    }

    open spec fn rows(&self) -> Seq<Option<i64>> {
        self@
    }

    open spec fn has_room(&self) -> bool {
        8 * (self@.len() + 1) <= usize::MAX
    }

    fn get_option(&self, idx: usize) -> (r: Option<i64>) {
        self.get_ref(idx)
    }

    fn push_option(&mut self, value: Option<i64>) -> (r: Result<(), Error>) {
        match value {
            Some(v) => self.append(v),
            None => {
                if self.len() >= usize::MAX / 8 {
                    return Err(Error::Encoding);
                }
                self.append_null();
                Ok(())
            },
        }
    }
}

impl<T: Evaluable> ChunkedRows<T> for Vec<Option<T>> {
    open spec fn readable(&self) -> bool {
        true
    }

    open spec fn rows(&self) -> Seq<Option<T::V>> {
        Seq::new(self@.len(), |i: int| value_view(self@[i]))
    }

    open spec fn has_room(&self) -> bool {
        true
    }

    fn get_option(&self, idx: usize) -> (r: Option<T>) {
        match &self[idx] {
            Some(x) => Some(x.to_owned_value()),
            None => None,
        }
    }

    fn push_option(&mut self, value: Option<T>) -> (r: Result<(), Error>) {
        self.push(value);
        assert(self.rows() =~= old(self).rows().push(value_view(value)));
        Ok(())
    }
}

} // verus!
