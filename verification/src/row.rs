use vstd::prelude::*;

use std::rc::Rc;

use crate::decode::Decode;
use crate::error::Error;
use crate::helper::{clone_string_vec, dec_chars, u64_to_string};
use crate::value::{clone_value, elems_veq, veq, KuzuValue};

verus! {

broadcast use vstd::std_specs::vec::group_vec_axioms;

/// Relies on `Rc::clone`: the clone shares the same value.
#[verifier::external_body]
pub(crate) fn rc_clone_names(rc: &Rc<Vec<String>>) -> (r: Rc<Vec<String>>)
    ensures
        r == *rc,
{
    Rc::clone(rc)
}

/// Relies on `Rc`'s `Deref`: borrowing the shared value.
#[verifier::external_body]
pub(crate) fn rc_names<'a>(rc: &'a Rc<Vec<String>>) -> (r: &'a Vec<String>)
    ensures
        *r == **rc,
{
    &**rc
}

/// The index a column name binds to: the position of the last column with
/// that name, or `None` when no column has it.
pub open spec fn col_index_of(keys: Seq<Seq<char>>, name: Seq<char>) -> Option<int>
    decreases keys.len(),
{
    if keys.len() == 0 {
        None
    } else if keys.last() == name {
        Some(keys.len() - 1int)
    } else {
        col_index_of(keys.drop_last(), name)
    }
}

/// A found column index is in range and holds the name it was found by.
pub proof fn lemma_col_index_of_in_range(keys: Seq<Seq<char>>, name: Seq<char>)
    ensures
        col_index_of(keys, name) matches Some(i) ==> 0 <= i < keys.len() && keys[i] == name,
    decreases keys.len(),
{
    if keys.len() > 0 && !(keys.last() == name) {
        lemma_col_index_of_in_range(keys.drop_last(), name);
    }
}

/// Finds the column a name binds to, scanning from the back so that the
/// last column with the name wins, as `col_index_of` says.
fn find_column(keys: &Vec<String>, name: &str) -> (r: Option<usize>)
    ensures
        r matches Some(u) ==> u < keys@.len() && col_index_of(keys.deep_view(), name@) == Some(
            u as int,
        ),
        r is None ==> col_index_of(keys.deep_view(), name@) is None,
{
    let owned: String = name.to_owned();
    let ghost all = keys.deep_view();
    let mut i: usize = keys.len();
    proof {
        assert(all.subrange(0, i as int) =~= all);
    }
    while i > 0
        invariant
            keys.deep_view() == all,
            i <= all.len(),
            owned@ == name@,
            col_index_of(all, name@) == col_index_of(all.subrange(0, i as int), name@),
        decreases i,
    {
        i = i - 1;
        let k = &keys[i];
        proof {
            assert(k@ == all[i as int]);
            assert(all.subrange(0, i + 1).last() == all[i as int]);
            assert(all.subrange(0, i + 1).drop_last() =~= all.subrange(0, i as int));
        }
        if k.eq(&owned) {
            return Some(i);
        }
    }
    proof {
        assert(all.subrange(0, 0) =~= Seq::<Seq<char>>::empty());
    }
    None
}

/// One decoded tuple of a query result. The column-name table is shared,
/// read-only, across all rows of one result: each row holds a reference
/// count on it rather than its own copy.
#[derive(Debug)]
pub struct Row {
    keys: Rc<Vec<String>>,
    values: Vec<KuzuValue>,
}

impl Row {
    /// The column names, in column order.
    pub closed spec fn spec_keys(&self) -> Seq<Seq<char>> {
        self.keys.deep_view()
    }

    /// The row's values, in column order.
    pub closed spec fn spec_values(&self) -> Seq<KuzuValue> {
        self.values@
    }

    /// A row is well formed when it has one value per column.
    pub open spec fn wf(&self) -> bool {
        self.spec_keys().len() == self.spec_values().len()
    }

    pub(crate) fn new(keys: Rc<Vec<String>>, values: Vec<KuzuValue>) -> (r: Row)
        ensures
            r.spec_keys() == keys.deep_view(),
            r.spec_values() == values@,
    {
        Row { keys, values }
    }

    /// A reference to the value at a column position, or
    /// `Error::ColumnNotFound` naming the position and the known columns
    /// when the position is out of range.
    pub fn get_ref(&self, idx: usize) -> (r: Result<&KuzuValue, Error>)
        ensures
            r is Ok <==> idx < self.spec_values().len(),
            r matches Ok(v) ==> *v == self.spec_values()[idx as int],
            r matches Err(e) ==> e matches Error::ColumnNotFound(n, ks) && n@ == dec_chars(
                idx as nat,
            ) && ks.deep_view() == self.spec_keys(),
    {
        if idx < self.values.len() {
            Ok(&self.values[idx])
        } else {
            Err(
                Error::ColumnNotFound(
                    u64_to_string(idx as u64),
                    clone_string_vec(rc_names(&self.keys)),
                ),
            )
        }
    }

    /// The value at a column position, extracted as `T`;
    /// `Error::ColumnNotFound` when the position is out of range, and `T`'s
    /// own mismatch error when the value is of another variant.
    pub fn get_val<T: Decode>(&self, idx: usize) -> (r: Result<T, Error>)
        ensures
            r is Ok <==> idx < self.spec_values().len() && T::decodable(
                self.spec_values()[idx as int],
            ),
            r matches Ok(x) ==> T::decodes(self.spec_values()[idx as int], x),
            r matches Err(e) ==> if idx < self.spec_values().len() {
                T::decode_err(self.spec_values()[idx as int], e)
            } else {
                e matches Error::ColumnNotFound(n, ks) && n@ == dec_chars(idx as nat)
                    && ks.deep_view() == self.spec_keys()
            },
    {
        if idx < self.values.len() {
            T::decode_kuzuval(&self.values[idx])
        } else {
            Err(
                Error::ColumnNotFound(
                    u64_to_string(idx as u64),
                    clone_string_vec(rc_names(&self.keys)),
                ),
            )
        }
    }

    /// A reference to the value bound to a column name, or
    /// `Error::ColumnNotFound` holding the name and the known columns.
    pub fn get_ref_by_column(&self, column_name: &str) -> (r: Result<&KuzuValue, Error>)
        requires
            self.wf(),
        ensures
            r is Ok <==> col_index_of(self.spec_keys(), column_name@) is Some,
            r matches Ok(v) ==> col_index_of(self.spec_keys(), column_name@) matches Some(i) && *v
                == self.spec_values()[i],
            r matches Err(e) ==> e matches Error::ColumnNotFound(n, ks) && n@ == column_name@
                && ks.deep_view() == self.spec_keys(),
    {
        match find_column(rc_names(&self.keys), column_name) {
            Some(i) => Ok(&self.values[i]),
            None => Err(
                Error::ColumnNotFound(
                    column_name.to_owned(),
                    clone_string_vec(rc_names(&self.keys)),
                ),
            ),
        }
    }

    /// The value bound to a column name, extracted as `T`: exactly the value
    /// `get_val` returns for the position the name binds to.
    /// `Error::ColumnNotFound` (holding the known columns) when no column
    /// has the name; `T`'s own mismatch error when the value is of another
    /// variant.
    pub fn get_val_by_column<T: Decode>(&self, column_name: &str) -> (r: Result<T, Error>)
        requires
            self.wf(),
        ensures
            r is Ok <==> (col_index_of(self.spec_keys(), column_name@) matches Some(i)
                && T::decodable(self.spec_values()[i])),
            r matches Ok(x) ==> col_index_of(self.spec_keys(), column_name@) matches Some(i)
                && T::decodes(self.spec_values()[i], x),
            r matches Err(e) ==> match col_index_of(self.spec_keys(), column_name@) {
                Some(i) => T::decode_err(self.spec_values()[i], e),
                None => e matches Error::ColumnNotFound(n, ks) && n@ == column_name@
                    && ks.deep_view() == self.spec_keys(),
            },
    {
        match find_column(rc_names(&self.keys), column_name) {
            Some(i) => T::decode_kuzuval(&self.values[i]),
            None => Err(
                Error::ColumnNotFound(
                    column_name.to_owned(),
                    clone_string_vec(rc_names(&self.keys)),
                ),
            ),
        }
    }
}

/// Column binding: looking a name up and reading its position give the same
/// value. Whenever a name binds to position `i`, `get_val_by_column` and
/// `get_val` at `i` agree — both extract the value at `i`, so their
/// contracts coincide on it.
pub proof fn lemma_column_binding(row: Row, name: Seq<char>, i: int)
    requires
        row.wf(),
        col_index_of(row.spec_keys(), name) == Some(i),
    ensures
        0 <= i < row.spec_values().len(),
        row.spec_keys()[i] == name,
{
    lemma_col_index_of_in_range(row.spec_keys(), name);
}

/// The error a row extraction reports for a missing column position.
pub open spec fn col_missing_err(row: Row, idx: nat, e: Error) -> bool {
    e matches Error::ColumnNotFound(n, ks) && n@ == dec_chars(idx) && ks.deep_view()
        == row.spec_keys()
}

/// Decoding a whole row into a value of `Self`: the entry point that
/// generated record decoders call. A tuple of extractable types reads its
/// components from the leading columns in order.
pub trait FromRow: Sized {
    /// Whether the row decodes as `Self`.
    spec fn row_ok(row: Row) -> bool;

    /// Whether `r` is the decoding of the row.
    spec fn row_decodes(row: Row, r: Self) -> bool;

    /// The error reported when the row does not decode as `Self`.
    spec fn row_err(row: Row, e: Error) -> bool;

    /// Decodes the row as `Self`, or reports why it cannot be.
    fn from_row(row: &Row) -> (r: Result<Self, Error>)
        requires
            row.wf(),
        ensures
            r is Ok <==> Self::row_ok(*row),
            r matches Ok(x) ==> Self::row_decodes(*row, x),
            r matches Err(e) ==> Self::row_err(*row, e),
    ;
}

impl FromRow for Row {
    /// A row always decodes as itself.
    open spec fn row_ok(row: Row) -> bool {
        true
    }

    open spec fn row_decodes(row: Row, r: Self) -> bool {
        r.spec_keys() == row.spec_keys() && elems_veq(r.spec_values(), row.spec_values())
    }

    open spec fn row_err(row: Row, e: Error) -> bool {
        false
    }

    fn from_row(row: &Row) -> (r: Result<Self, Error>) {
        let mut values: Vec<KuzuValue> = Vec::new();
        let mut i: usize = 0;
        while i < row.values.len()
            invariant
                i <= row.values@.len(),
                values@.len() == i,
                forall|j: int| 0 <= j < i ==> veq(#[trigger] values@[j], row.values@[j]),
            decreases row.values@.len() - i,
        {
            let v = clone_value(&row.values[i]);
            values.push(v);
            i = i + 1;
        }
        Ok(Row { keys: rc_clone_names(&row.keys), values })
    }
}

impl<T1: Decode> FromRow for (T1,) {
    /// The first column decodes as `T1`.
    open spec fn row_ok(row: Row) -> bool {
        row.spec_values().len() > 0 && T1::decodable(row.spec_values()[0])
    }

    open spec fn row_decodes(row: Row, r: Self) -> bool {
        row.spec_values().len() > 0 && T1::decodes(row.spec_values()[0], r.0)
    }

    open spec fn row_err(row: Row, e: Error) -> bool {
        if row.spec_values().len() == 0 {
            col_missing_err(row, 0, e)
        } else {
            T1::decode_err(row.spec_values()[0], e)
        }
    }

    fn from_row(row: &Row) -> (r: Result<Self, Error>) {
        let v0 = row.get_val::<T1>(0)?;
        Ok((v0,))
    }
}

impl<T1: Decode, T2: Decode> FromRow for (T1, T2) {
    /// The two leading columns decode as `T1` and `T2`, in order.
    open spec fn row_ok(row: Row) -> bool {
        &&& row.spec_values().len() > 1
        &&& T1::decodable(row.spec_values()[0])
        &&& T2::decodable(row.spec_values()[1])
    }

    open spec fn row_decodes(row: Row, r: Self) -> bool {
        &&& row.spec_values().len() > 1
        &&& T1::decodes(row.spec_values()[0], r.0)
        &&& T2::decodes(row.spec_values()[1], r.1)
    }

    open spec fn row_err(row: Row, e: Error) -> bool {
        if row.spec_values().len() == 0 {
            col_missing_err(row, 0, e)
        } else if !T1::decodable(row.spec_values()[0]) {
            T1::decode_err(row.spec_values()[0], e)
        } else if row.spec_values().len() == 1 {
            col_missing_err(row, 1, e)
        } else {
            T2::decode_err(row.spec_values()[1], e)
        }
    }

    fn from_row(row: &Row) -> (r: Result<Self, Error>) {
        let v0 = row.get_val::<T1>(0)?;
        let v1 = row.get_val::<T2>(1)?;
        Ok((v0, v1))
    }
}

impl<T1: Decode, T2: Decode, T3: Decode> FromRow for (T1, T2, T3) {
    /// The three leading columns decode as `T1`, `T2` and `T3`, in order.
    open spec fn row_ok(row: Row) -> bool {
        &&& row.spec_values().len() > 2
        &&& T1::decodable(row.spec_values()[0])
        &&& T2::decodable(row.spec_values()[1])
        &&& T3::decodable(row.spec_values()[2])
    }

    open spec fn row_decodes(row: Row, r: Self) -> bool {
        &&& row.spec_values().len() > 2
        &&& T1::decodes(row.spec_values()[0], r.0)
        &&& T2::decodes(row.spec_values()[1], r.1)
        &&& T3::decodes(row.spec_values()[2], r.2)
    }

    open spec fn row_err(row: Row, e: Error) -> bool {
        if row.spec_values().len() == 0 {
            col_missing_err(row, 0, e)
        } else if !T1::decodable(row.spec_values()[0]) {
            T1::decode_err(row.spec_values()[0], e)
        } else if row.spec_values().len() == 1 {
            col_missing_err(row, 1, e)
        } else if !T2::decodable(row.spec_values()[1]) {
            T2::decode_err(row.spec_values()[1], e)
        } else if row.spec_values().len() == 2 {
            col_missing_err(row, 2, e)
        } else {
            T3::decode_err(row.spec_values()[2], e)
        }
    }

    fn from_row(row: &Row) -> (r: Result<Self, Error>) {
        let v0 = row.get_val::<T1>(0)?;
        let v1 = row.get_val::<T2>(1)?;
        let v2 = row.get_val::<T3>(2)?;
        Ok((v0, v1, v2))
    }
}

} // verus!
