//! An append-only column of optional 64-bit integers.
//!
//! Every row owns one eight-byte slot in a dense buffer, a null row too, so a
//! row is found by its index alone. Whether a row holds a value is kept apart,
//! one bit per row: a set bit means the row is present.

use vstd::prelude::*;
use vstd::bytes::{
    lemma_auto_spec_u64_to_from_le_bytes, spec_u64_from_le_bytes, spec_u64_to_le_bytes,
    u64_from_le_bytes, u64_to_le_bytes,
};
use vstd::slice::slice_subrange;
use crate::error::Error;

verus! {

/// Whether bit `pos` of `byte` is set.
pub open spec fn bit_is_set(byte: u8, pos: u8) -> bool {
    byte & (1u8 << pos) != 0
}

/// The dense encoding of an integer: its eight bytes, lowest first.
pub open spec fn encode_int(v: i64) -> Seq<u8> {
    spec_u64_to_le_bytes(v as u64)
}

/// The integer that eight slot bytes stand for.
pub open spec fn decode_int(bytes: Seq<u8>) -> i64 {
    spec_u64_from_le_bytes(bytes) as i64
}

/// How many of the first `rows` presence marks are clear.
pub open spec fn count_nulls(marks: Seq<bool>, rows: nat) -> nat
    decreases rows,
{
    if rows == 0 {
        0
    } else {
        count_nulls(marks, (rows - 1) as nat) + if marks[rows - 1] {
            0nat
        } else {
            1nat
        }
    }
}

/// The rows of a column after each of `items` was appended to `base` in turn.
pub open spec fn append_all(base: Seq<Option<i64>>, items: Seq<Option<i64>>) -> Seq<Option<i64>>
    decreases items.len(),
{
    if items.len() == 0 {
        base
    } else {
        append_all(base, items.drop_last()).push(items.last())
    }
}

proof fn lemma_bit_or(b: u8, pos: u8, q: u8)
    requires
        pos < 8,
        q < 8,
    ensures
        bit_is_set(b | (1u8 << pos), q) == (q == pos || bit_is_set(b, q)),
{
    assert(((b | (1u8 << pos)) & (1u8 << q) != 0) == (q == pos || b & (1u8 << q) != 0))
        by (bit_vector)
        requires
            pos < 8,
            q < 8,
    ;
}

proof fn lemma_bit_zero(q: u8)
    requires
        q < 8,
    ensures
        !bit_is_set(0u8, q),
{
    assert(0u8 & (1u8 << q) == 0) by (bit_vector);
}

proof fn lemma_shift_mask(i: usize)
    ensures
        i >> 3 == i / 8,
        i & 7 == i % 8,
{
    assert(i >> 3 == i / 8) by (bit_vector);
    assert(i & 7 == i % 8) by (bit_vector);
}

proof fn lemma_count_bounded(marks: Seq<bool>, rows: nat)
    ensures
        count_nulls(marks, rows) <= rows,
    decreases rows,
{
    if rows > 0 {
        lemma_count_bounded(marks, (rows - 1) as nat);
    }
}

proof fn lemma_count_agrees(a: Seq<bool>, b: Seq<bool>, rows: nat)
    requires
        forall|i: int| 0 <= i < rows ==> a[i] == b[i],
    ensures
        count_nulls(a, rows) == count_nulls(b, rows),
    decreases rows,
{
    if rows > 0 {
        lemma_count_agrees(a, b, (rows - 1) as nat);
    }
}

proof fn lemma_no_nulls(marks: Seq<bool>, rows: nat)
    requires
        count_nulls(marks, rows) == 0,
    ensures
        forall|i: int| 0 <= i < rows ==> marks[i],
    decreases rows,
{
    if rows > 0 {
        lemma_no_nulls(marks, (rows - 1) as nat);
    }
}

proof fn lemma_slot_kept(a: Seq<u8>, b: Seq<u8>, i: int)
    requires
        0 <= i,
        8 * i + 8 <= a.len() <= b.len(),
        b.subrange(0, a.len() as int) == a,
    ensures
        b.subrange(8 * i, 8 * i + 8) == a.subrange(8 * i, 8 * i + 8),
{
    let bs = b.subrange(8 * i, 8 * i + 8);
    let sa = a.subrange(8 * i, 8 * i + 8);
    assert forall|k: int| 0 <= k < 8 implies #[trigger] bs[k] == sa[k] by {
        assert(b.subrange(0, a.len() as int)[8 * i + k] == b[8 * i + k]);
    }
    assert(b.subrange(8 * i, 8 * i + 8) =~= a.subrange(8 * i, 8 * i + 8));
}

/// A column of optional integers, filled by appending rows.
pub struct ChunkedVecInt {
    length: usize,
    null_cnt: usize,
    null_bitmap: Vec<u8>,
    data: Vec<u8>,
}

impl View for ChunkedVecInt {
    type V = Seq<Option<i64>>;

    /// The rows, in the order in which they were appended.
    open spec fn view(&self) -> Seq<Option<i64>> {
        Seq::new(self.spec_len(), |i: int| self.row(i))
    }
}

impl ChunkedVecInt {
    /// The number of bytes that one row takes in the element buffer.
    pub const ELEMENT_SIZE: usize = 8;

    /// The number of rows.
    pub closed spec fn spec_len(&self) -> nat {
        self.length as nat
    }

    /// The recorded number of null rows.
    pub closed spec fn null_count(&self) -> nat {
        self.null_cnt as nat
    }

    /// The presence marks, one for each bit of the presence map.
    pub closed spec fn marks(&self) -> Seq<bool> {
        Seq::new(
            (8 * self.null_bitmap@.len()) as nat,
            |i: int| bit_is_set(self.null_bitmap@[i / 8], (i % 8) as u8),
        )
    }

    /// The element buffer.
    pub closed spec fn slots(&self) -> Seq<u8> {
        self.data@
    }

    /// Row `i`: absent where its mark is clear, else what its slot decodes to.
    pub open spec fn row(&self, i: int) -> Option<i64> {
        if self.marks()[i] {
            Some(decode_int(self.slots().subrange(8 * i, 8 * i + 8)))
        } else {
            None
        }
    }

    /// The presence map covers exactly `rows` rows: it has the fewest whole
    /// bytes that hold them, no mark is set past them, and the null count is
    /// the number of clear marks among them.
    pub open spec fn tracks(&self, rows: nat) -> bool {
        &&& self.marks().len() == 8 * ((rows + 7) / 8)
        &&& forall|i: int| rows <= i < self.marks().len() ==> !self.marks()[i]
        &&& self.null_count() == count_nulls(self.marks(), rows)
    }

    /// The invariant of a column between appends.
    pub open spec fn wf(&self) -> bool {
        &&& self.tracks(self@.len())
        &&& self.slots().len() == 8 * self@.len()
        &&& 8 * self@.len() <= usize::MAX
    }

    /// A column never records more nulls than it has rows, and one that
    /// records none has a value in every row.
    pub proof fn law_null_count_bounds(self)
        requires
            self.wf(),
        ensures
            self.null_count() <= self@.len(),
            self.null_count() == 0 ==> forall|i: int| 0 <= i < self@.len() ==> self@[i].is_some(),
    {
        lemma_count_bounded(self.marks(), self@.len());
        if self.null_count() == 0 {
            lemma_no_nulls(self.marks(), self@.len());
        }
    }

    /// An empty column with room for `init_cap` rows.
    pub fn new(init_cap: usize) -> (r: Self)
        requires
            8 * init_cap <= usize::MAX,
        ensures
            r.wf(),
            r@ == Seq::<Option<i64>>::empty(),
    {
        let r = ChunkedVecInt {
            data: Vec::with_capacity(Self::ELEMENT_SIZE * init_cap),
            null_bitmap: Vec::with_capacity((init_cap + 7) / 8),
            null_cnt: 0,
            length: 0,
        };
        assert(r@ =~= Seq::<Option<i64>>::empty());
        r
    }

    /// The column whose rows are `data`.
    pub fn from_vec(data: Vec<Option<i64>>) -> (r: Self)
        requires
            8 * data.len() <= usize::MAX,
        ensures
            r.wf(),
            r@ == data@,
            r@ == append_all(Seq::empty(), data@),
    {
        let mut x = Self::new(data.len());
        let mut i: usize = 0;
        while i < data.len()
            invariant
                x.wf(),
                i <= data.len(),
                8 * data.len() <= usize::MAX,
                x@ == data@.take(i as int),
            decreases data.len() - i,
        {
            match data[i] {
                Some(v) => {
                    x.append(v).unwrap();
                },
                None => {
                    x.append_null();
                },
            }
            i += 1;
            assert(data@.take(i as int) =~= data@.take(i - 1).push(data@[i - 1]));
        }
        proof {
            assert(data@.take(data.len() as int) =~= data@);
            law_append_all_concatenates(Seq::empty(), data@);
            assert(Seq::<Option<i64>>::empty() + data@ =~= data@);
        }
        x
    }

    /// Whether row `row_idx` is null.
    pub fn is_null(&self, row_idx: usize) -> (r: bool)
        requires
            self.wf(),
            row_idx < self@.len(),
        ensures
            r == self@[row_idx as int].is_none(),
    {
        if self.null_cnt == 0 {
            proof {
                lemma_no_nulls(self.marks(), self.length as nat);
            }
            return false;
        }
        proof {
            lemma_shift_mask(row_idx);
        }
        let null_byte = self.null_bitmap[row_idx >> 3];
        let pos: u8 = (row_idx & 7) as u8;
        (null_byte & (1u8 << pos)) == 0
    }

    /// Records in the presence map whether the row about to be appended
    /// holds a value (`on`) or is null. The row count and the element buffer
    /// are left as they are: the caller writes the slot and counts the row.
    pub fn append_null_bitmap(&mut self, on: bool)
        requires
            old(self).tracks(old(self)@.len()),
            old(self)@.len() < usize::MAX,
        ensures
            final(self).tracks(old(self)@.len() + 1),
            final(self)@.len() == old(self)@.len(),
            final(self).slots() == old(self).slots(),
            forall|i: int|
                0 <= i < old(self)@.len() ==> final(self).marks()[i] == old(self).marks()[i],
            final(self).marks()[old(self)@.len() as int] == on,
            final(self).null_count() == old(self).null_count() + if on {
                0nat
            } else {
                1nat
            },
    {
        proof {
            lemma_shift_mask(self.length);
            lemma_count_bounded(self.marks(), self.length as nat);
        }
        let idx = self.length >> 3;
        let pos: u8 = (self.length & 7) as u8;
        if idx >= self.null_bitmap.len() {
            self.null_bitmap.push(0);
        }
        let ghost before = self.null_bitmap@[idx as int];
        if on {
            let byte = self.null_bitmap[idx];
            self.null_bitmap.set(idx, byte | (1u8 << pos));
        } else {
            self.null_cnt += 1;
        }
        proof {
            let rows = self.length as int;
            let after = self.null_bitmap@[idx as int];
            assert forall|q: u8| q < 8 implies bit_is_set(after, q) == ((on && q == pos)
                || bit_is_set(before, q)) by {
                lemma_bit_or(before, pos, q);
            }
            assert forall|i: int| 8 * idx <= i < 8 * idx + 8 && i != rows implies (if i < rows {
                self.marks()[i] == old(self).marks()[i]
            } else {
                !self.marks()[i]
            }) by {
                let q = (i % 8) as u8;
                assert(i / 8 == idx && q != pos);
                assert(self.marks()[i] == bit_is_set(after, q));
                assert(bit_is_set(after, q) == bit_is_set(before, q));
                if 8 * old(self).null_bitmap@.len() <= i {
                    lemma_bit_zero(q);
                } else {
                    assert(old(self).marks()[i] == bit_is_set(before, q));
                }
            }
            assert(self.marks()[rows] == on) by {
                if 8 * old(self).null_bitmap@.len() <= rows {
                    lemma_bit_zero(pos);
                }
            }
            assert forall|i: int| 0 <= i < rows implies self.marks()[i] == old(self).marks()[i] by {
                if i / 8 != idx {
                    assert(self.null_bitmap@[i / 8] == old(self).null_bitmap@[i / 8]);
                }
            }
            lemma_count_agrees(self.marks(), old(self).marks(), rows as nat);
        }
    }

    /// Appends a null row.
    pub fn append_null(&mut self)
        requires
            old(self).wf(),
            8 * (old(self)@.len() + 1) <= usize::MAX,
        ensures
            final(self).wf(),
            final(self)@ == old(self)@.push(None),
    {
        self.append_null_bitmap(false);
        let len = Self::ELEMENT_SIZE + self.data.len();
        self.data.resize(len, 0);
        self.length += 1;
        proof {
            assert forall|i: int| 0 <= i < old(self)@.len() implies self.row(i) == old(self).row(i) by {
                lemma_slot_kept(old(self).data@, self.data@, i);
            }
            assert(self@ =~= old(self)@.push(None));
        }
    }

    /// Counts the row whose slot has just been written as present.
    fn finish_append(&mut self)
        requires
            old(self).tracks(old(self)@.len()),
            old(self).slots().len() == 8 * (old(self)@.len() + 1),
        ensures
            final(self).wf(),
            final(self)@.len() == old(self)@.len() + 1,
            final(self).slots() == old(self).slots(),
            forall|i: int|
                0 <= i < old(self)@.len() ==> final(self).marks()[i] == old(self).marks()[i],
            final(self).marks()[old(self)@.len() as int],
    {
        let written = self.data.len();
        assert(8 * (self.length + 1) == written);
        self.append_null_bitmap(true);
        self.length += 1;
        self.data.resize(self.length * Self::ELEMENT_SIZE, 0);
        assert(self.data@ =~= old(self).data@);
    }

    /// Appends a row that holds `v`.
    ///
    /// Fails with [`Error::Encoding`], and leaves the column as it was, exactly
    /// when the element buffer cannot grow by one more slot.
    pub fn append(&mut self, v: i64) -> (r: Result<(), Error>)
        requires
            old(self).wf(),
        ensures
            r.is_ok() <==> 8 * (old(self)@.len() + 1) <= usize::MAX,
            r.is_ok() ==> final(self).wf() && final(self)@ == old(self)@.push(Some(v)),
            r.is_err() ==> r == Err::<(), Error>(Error::Encoding) && *final(self) == *old(self),
    {
        if self.data.len() > usize::MAX - Self::ELEMENT_SIZE {
            return Err(Error::Encoding);
        }
        let mut bytes = u64_to_le_bytes(v as u64);
        self.data.append(&mut bytes);
        self.finish_append();
        proof {
            let rows = old(self)@.len() as int;
            assert(self.data@.subrange(0, 8 * rows) =~= old(self).data@);
            assert forall|i: int| 0 <= i < rows implies self.row(i) == old(self).row(i) by {
                lemma_slot_kept(old(self).data@, self.data@, i);
            }
            assert(self.data@.subrange(8 * rows, 8 * rows + 8) =~= encode_int(v));
            law_encoding_round_trip(v);
            assert(self@ =~= old(self)@.push(Some(v)));
        }
        Ok(())
    }

    /// The value of row `row_idx`, or `None` where the row is null.
    pub fn get_ref(&self, row_idx: usize) -> (r: Option<i64>)
        requires
            self.wf(),
            row_idx < self@.len(),
        ensures
            r == self@[row_idx as int],
    {
        if self.is_null(row_idx) {
            None
        } else {
            let start = row_idx * Self::ELEMENT_SIZE;
            let end = start + Self::ELEMENT_SIZE;
            let ref_data = slice_subrange(self.data.as_slice(), start, end);
            Some(u64_from_le_bytes(ref_data) as i64)
        }
    }

    /// The number of rows.
    pub fn len(&self) -> (r: usize)
        ensures
            r == self@.len(),
    {
        self.length
    }

    /// Whether the column has no rows.
    pub fn is_empty(&self) -> (r: bool)
        ensures
            r == (self@.len() == 0),
    {
        self.len() == 0
    }
}

/// Decoding the dense encoding of an integer gives the integer back.
pub proof fn law_encoding_round_trip(v: i64)
    ensures
        encode_int(v).len() == 8,
        decode_int(encode_int(v)) == v,
{
    lemma_auto_spec_u64_to_from_le_bytes();
    let u = v as u64;
    assert(u as i64 == v) by (bit_vector)
        requires
            u == v as u64,
    ;
}

/// Appending rows one after the other puts them, unchanged and in order,
/// behind the rows that were there.
pub proof fn law_append_all_concatenates(base: Seq<Option<i64>>, items: Seq<Option<i64>>)
    ensures
        append_all(base, items) == base + items,
    decreases items.len(),
{
    if items.len() == 0 {
        assert(base + items =~= base);
    } else {
        law_append_all_concatenates(base, items.drop_last());
        assert((base + items.drop_last()).push(items.last()) =~= base + items);
    }
}

/// After `k` appends, of values and nulls in any mix, a column has `k` more
/// rows than before.
pub proof fn law_len_counts_appends(base: Seq<Option<i64>>, items: Seq<Option<i64>>)
    ensures
        append_all(base, items).len() == base.len() + items.len(),
{
    law_append_all_concatenates(base, items);
}

/// Every row reads back as it was appended: null where a null was appended,
/// and else the very value. Rows that were there before are not touched.
pub proof fn law_rows_read_back(base: Seq<Option<i64>>, items: Seq<Option<i64>>, i: int)
    requires
        0 <= i < base.len() + items.len(),
    ensures
        i < base.len() ==> append_all(base, items)[i] == base[i],
        i >= base.len() ==> append_all(base, items)[i] == items[i - base.len()],
        i >= base.len() ==> append_all(base, items)[i].is_none() == items[i - base.len()].is_none(),
{
    law_append_all_concatenates(base, items);
}

} // verus!
