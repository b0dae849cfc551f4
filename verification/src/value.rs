//! Rows as ordered column lists of tagged values.
//!
//! Column sets are discovered from the stores' catalogs rather than
//! hard-coded, so a row is an ordered mapping from column name to a tagged
//! value. Bit-width-1 columns arrive from the driver as bytes, integers or
//! booleans depending on its mood; `coerce_bit` is the one coercion point
//! for them.

use vstd::prelude::*;

verus! {

/// A tagged store value. Timestamps and non-integer numerics are carried as
/// their textual form; this crate never computes on them.
#[derive(Debug, PartialEq)]
pub enum SqlValue {
    Null,
    Int(i64),
    Uint(u64),
    Bool(bool),
    Text(String),
    Bytes(Vec<u8>),
    Temporal(String),
    Decimal(String),
}

/// Structural equality of values; byte blobs compare by contents.
pub open spec fn sql_eq(a: SqlValue, b: SqlValue) -> bool {
    match (a, b) {
        (SqlValue::Null, SqlValue::Null) => true,
        (SqlValue::Int(x), SqlValue::Int(y)) => x == y,
        (SqlValue::Uint(x), SqlValue::Uint(y)) => x == y,
        (SqlValue::Bool(x), SqlValue::Bool(y)) => x == y,
        (SqlValue::Text(x), SqlValue::Text(y)) => x == y,
        (SqlValue::Bytes(x), SqlValue::Bytes(y)) => x@ == y@,
        (SqlValue::Temporal(x), SqlValue::Temporal(y)) => x == y,
        (SqlValue::Decimal(x), SqlValue::Decimal(y)) => x == y,
        _ => false,
    }
}

/// Copies a byte blob.
fn clone_byte_vec(b: &Vec<u8>) -> (r: Vec<u8>)
    ensures
        r@ == b@,
{
    let mut out: Vec<u8> = Vec::new();
    let mut i: usize = 0;
    while i < b.len()
        invariant
            i <= b@.len(),
            out@ == b@.take(i as int),
        decreases b@.len() - i,
    {
        out.push(b[i]);
        i = i + 1;
        proof {
            assert(out@ =~= b@.take(i as int));
        }
    }
    proof {
        assert(b@.take(b@.len() as int) =~= b@);
    }
    out
}

impl Clone for SqlValue {
    /// A copy equal to the original up to `sql_eq`.
    fn clone(&self) -> (r: Self)
        ensures
            sql_eq(*self, r),
    {
        match self {
            SqlValue::Null => SqlValue::Null,
            SqlValue::Int(x) => SqlValue::Int(*x),
            SqlValue::Uint(x) => SqlValue::Uint(*x),
            SqlValue::Bool(x) => SqlValue::Bool(*x),
            SqlValue::Text(s) => SqlValue::Text(s.clone()),
            SqlValue::Bytes(b) => SqlValue::Bytes(clone_byte_vec(b)),
            SqlValue::Temporal(s) => SqlValue::Temporal(s.clone()),
            SqlValue::Decimal(s) => SqlValue::Decimal(s.clone()),
        }
    }
}

/// The one accepted reading of a loosely-typed boolean-like column: empty
/// bytes and zero are false, any other byte or integer is true, null and
/// everything else has no boolean reading.
pub open spec fn coerce_bit_spec(v: SqlValue) -> Option<bool> {
    match v {
        SqlValue::Bytes(b) => if b@.len() == 0 {
            Some(false)
        } else {
            Some(b@[0] != 0)
        },
        SqlValue::Int(i) => Some(i != 0),
        SqlValue::Uint(u) => Some(u != 0),
        SqlValue::Bool(b) => Some(b),
        _ => None,
    }
}

/// Reads a bit-width-1 column value as a boolean, per `coerce_bit_spec`.
pub fn coerce_bit(v: &SqlValue) -> (r: Option<bool>)
    ensures
        r == coerce_bit_spec(*v),
{
    match v {
        SqlValue::Bytes(b) => {
            if b.len() == 0 {
                Some(false)
            } else {
                Some(b[0] != 0)
            }
        },
        SqlValue::Int(i) => Some(*i != 0),
        SqlValue::Uint(u) => Some(*u != 0),
        SqlValue::Bool(b) => Some(*b),
        _ => None,
    }
}

/// Whether two string slices hold the same characters.
pub fn str_eq(a: &str, b: &str) -> (r: bool)
    ensures
        r == (a@ == b@),
{
    let x = a.to_owned();
    let y = b.to_owned();
    x == y
}

/// The position of the first pair whose name has those characters, or `-1`
/// if none; rows and JSON objects both use it.
pub open spec fn col_first_index<T>(cols: Seq<(String, T)>, name: Seq<char>) -> int
    decreases cols.len(),
{
    if cols.len() == 0 {
        -1
    } else if cols[0].0@ == name {
        0
    } else {
        let rest = col_first_index(cols.skip(1), name);
        if rest == -1 {
            -1
        } else {
            1 + rest
        }
    }
}

/// What `col_first_index` finds: the first match, or the absence of any.
pub proof fn lemma_col_first_index<T>(cols: Seq<(String, T)>, name: Seq<char>)
    ensures
        col_first_index(cols, name) == -1 ==> forall|j: int|
            0 <= j < cols.len() ==> (#[trigger] cols[j]).0@ != name,
        col_first_index(cols, name) != -1 ==> {
            let i = col_first_index(cols, name);
            &&& 0 <= i < cols.len()
            &&& cols[i].0@ == name
            &&& forall|j: int| 0 <= j < i ==> (#[trigger] cols[j]).0@ != name
        },
    decreases cols.len(),
{
    if cols.len() > 0 && cols[0].0@ != name {
        let rest = cols.skip(1);
        lemma_col_first_index(rest, name);
        let r = col_first_index(rest, name);
        if r == -1 {
            assert forall|j: int| 0 <= j < cols.len() implies (#[trigger] cols[j]).0@ != name by {
                if j > 0 {
                    assert(rest[j - 1] == cols[j]);
                }
            }
        } else {
            assert(cols[1 + r] == rest[r]);
            assert forall|j: int| 0 <= j < 1 + r implies (#[trigger] cols[j]).0@ != name by {
                if j > 0 {
                    assert(rest[j - 1] == cols[j]);
                }
            }
        }
    }
}

/// The position of the first pair with that name, if any.
pub fn find_name_index<T>(pairs: &Vec<(String, T)>, name: &str) -> (r: Option<usize>)
    ensures
        match r {
            Some(i) => col_first_index(pairs@, name@) == i as int,
            None => col_first_index(pairs@, name@) == -1,
        },
{
    proof {
        lemma_col_first_index(pairs@, name@);
    }
    let mut i: usize = 0;
    while i < pairs.len()
        invariant
            i <= pairs@.len(),
            forall|j: int| 0 <= j < i ==> (#[trigger] pairs@[j]).0@ != name@,
            col_first_index(pairs@, name@) == -1 || 0 <= col_first_index(pairs@, name@)
                < pairs@.len(),
            col_first_index(pairs@, name@) != -1 ==> pairs@[col_first_index(pairs@, name@)].0@
                == name@,
        decreases pairs@.len() - i,
    {
        if str_eq(pairs[i].0.as_str(), name) {
            proof {
                lemma_col_first_index(pairs@, name@);
                let fi = col_first_index(pairs@, name@);
                assert(fi == i as int);
            }
            return Some(i);
        }
        i = i + 1;
    }
    None
}

/// A row: an ordered mapping from column name to value.
#[derive(Debug, PartialEq)]
pub struct Row {
    pub cols: Vec<(String, SqlValue)>,
}

impl Row {
    /// Whether a column of that name is present.
    pub open spec fn has_col(self, name: Seq<char>) -> bool {
        col_first_index(self.cols@, name) != -1
    }

    /// The value of the first column of that name.
    pub open spec fn col_value(self, name: Seq<char>) -> SqlValue
        recommends
            self.has_col(name),
    {
        self.cols@[col_first_index(self.cols@, name)].1
    }

    /// A row with no columns.
    pub fn empty() -> (r: Self)
        ensures
            r.cols@ =~= Seq::<(String, SqlValue)>::empty(),
    {
        Row { cols: Vec::new() }
    }

    /// The value of the first column of that name, if any.
    pub fn get<'a>(&'a self, name: &str) -> (r: Option<&'a SqlValue>)
        ensures
            match r {
                Some(v) => self.has_col(name@) && *v == self.col_value(name@),
                None => !self.has_col(name@),
            },
    {
        proof {
            lemma_col_first_index(self.cols@, name@);
        }
        let mut i: usize = 0;
        while i < self.cols.len()
            invariant
                i <= self.cols@.len(),
                forall|j: int| 0 <= j < i ==> (#[trigger] self.cols@[j]).0@ != name@,
                col_first_index(self.cols@, name@) == -1 || 0 <= col_first_index(
                    self.cols@,
                    name@,
                ) < self.cols@.len(),
                col_first_index(self.cols@, name@) != -1 ==> self.cols@[col_first_index(
                    self.cols@,
                    name@,
                )].0@ == name@,
            decreases self.cols@.len() - i,
        {
            if str_eq(self.cols[i].0.as_str(), name) {
                proof {
                    lemma_col_first_index(self.cols@, name@);
                    let fi = col_first_index(self.cols@, name@);
                    assert(fi != -1);
                    assert(fi == i as int);
                }
                return Some(&self.cols[i].1);
            }
            i = i + 1;
        }
        proof {
            lemma_col_first_index(self.cols@, name@);
        }
        None
    }

    /// Replaces the value of the first column of that name, or appends the
    /// column if none is present.
    pub fn set_col(&mut self, name: String, value: SqlValue)
        ensures
            final(self).cols@ == set_col_spec(old(self).cols@, name, value),
    {
        let ghost gname = name;
        proof {
            lemma_col_first_index(self.cols@, name@);
        }
        let mut i: usize = 0;
        while i < self.cols.len()
            invariant
                i <= self.cols@.len(),
                forall|j: int| 0 <= j < i ==> (#[trigger] self.cols@[j]).0@ != name@,
                col_first_index(self.cols@, name@) == -1 || 0 <= col_first_index(
                    self.cols@,
                    name@,
                ) < self.cols@.len(),
                col_first_index(self.cols@, name@) != -1 ==> self.cols@[col_first_index(
                    self.cols@,
                    name@,
                )].0@ == name@,
                self == old(self),
                gname == name,
            decreases self.cols@.len() - i,
        {
            if str_eq(self.cols[i].0.as_str(), name.as_str()) {
                proof {
                    lemma_col_first_index(self.cols@, name@);
                    assert(col_first_index(self.cols@, name@) == i as int);
                }
                let ghost oc = self.cols@;
                let pair = self.cols.remove(i);
                self.cols.insert(i, (pair.0, value));
                proof {
                    assert(oc == old(self).cols@);
                    let fi = col_first_index(oc, gname@);
                    assert(fi == i as int);
                    assert(self.cols@ =~= oc.update(fi, (oc[fi].0, value)));
                    assert(self.cols@ =~= set_col_spec(old(self).cols@, gname, value));
                }
                return ;
            }
            i = i + 1;
        }
        let ghost exit_cols = self.cols@;
        self.cols.push((name, value));
        proof {
            assert(exit_cols == old(self).cols@);
            let fi = col_first_index(exit_cols, gname@);
            if fi != -1 {
                assert(exit_cols[fi].0@ == gname@);
                assert(exit_cols[fi].0@ != gname@);
            }
            assert(self.cols@ =~= set_col_spec(old(self).cols@, gname, value));
        }
    }
}

/// The value of a row's column, or `Null` where the column is absent.
pub open spec fn col_or_null(r: Row, name: Seq<char>) -> SqlValue {
    if r.has_col(name) {
        r.col_value(name)
    } else {
        SqlValue::Null
    }
}

/// The integer held by a row's column, if the column is present and holds
/// one.
pub open spec fn row_int_col(r: Row, name: Seq<char>) -> Option<i64> {
    match col_or_null(r, name) {
        SqlValue::Int(x) => Some(x),
        _ => None,
    }
}

/// `sql_eq` is symmetric.
pub proof fn lemma_sql_eq_sym(a: SqlValue, b: SqlValue)
    ensures
        sql_eq(a, b) == sql_eq(b, a),
{
}

/// The column list after a set-or-append of one column.
pub open spec fn set_col_spec(
    cols: Seq<(String, SqlValue)>,
    name: String,
    value: SqlValue,
) -> Seq<(String, SqlValue)> {
    let i = col_first_index(cols, name@);
    if i == -1 {
        cols.push((name, value))
    } else {
        cols.update(i, (cols[i].0, value))
    }
}

} // verus!
