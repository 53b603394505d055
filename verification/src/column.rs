//! The dual columnar representation: a dense `Array` of scalars of one
//! uniform type, or a broadcast `Constant` scalar with a logical replicate
//! count.

use vstd::prelude::*;

use crate::error::ErrorCode;
use crate::types::DataType;
use crate::value::{cast_value, spec_cast_value, value_type, DataValue};

verus! {

/// A columnar value: dense per-row scalars, or one scalar standing for a
/// whole column of the given row count.
#[derive(Debug, PartialEq)]
pub enum DataColumn {
    Array(Vec<DataValue>),
    Constant(DataValue, usize),
}

/// Two columns hold the same values: the same scalars row for row, or the
/// same broadcast scalar and count.
pub open spec fn col_eq(a: DataColumn, b: DataColumn) -> bool {
    match (a, b) {
        (DataColumn::Array(x), DataColumn::Array(y)) => x@ == y@,
        (DataColumn::Constant(v, n), DataColumn::Constant(w, m)) => v == w && n == m,
        _ => false,
    }
}

impl Clone for DataColumn {
    /// A clone holds the same values.
    fn clone(&self) -> (r: DataColumn)
        ensures
            col_eq(r, *self),
    {
        match self {
            DataColumn::Array(vs) => {
                let mut out: Vec<DataValue> = Vec::new();
                let mut i: usize = 0;
                while i < vs.len()
                    invariant
                        0 <= i <= vs@.len(),
                        out@ =~= vs@.take(i as int),
                    decreases vs@.len() - i,
                {
                    out.push(vs[i].clone());
                    i = i + 1;
                }
                proof {
                    assert(vs@.take(i as int) =~= vs@);
                }
                DataColumn::Array(out)
            },
            DataColumn::Constant(v, n) => DataColumn::Constant(v.clone(), *n),
        }
    }
}

/// The element type of a column: the type of its scalars (an empty array has
/// the `Null` type).
pub open spec fn col_type(c: DataColumn) -> DataType {
    match c {
        DataColumn::Array(vs) => if vs@.len() == 0 {
            DataType::Null
        } else {
            value_type(vs@[0])
        },
        DataColumn::Constant(v, _) => value_type(v),
    }
}

/// Well-formedness: every scalar of an array has the column's one type.
pub open spec fn col_wf(c: DataColumn) -> bool {
    match c {
        DataColumn::Array(vs) => forall|i: int|
            0 <= i < vs@.len() ==> value_type(#[trigger] vs@[i]) == col_type(c),
        DataColumn::Constant(_, _) => true,
    }
}

/// The row count a column stands for.
pub open spec fn col_rows(c: DataColumn) -> nat {
    match c {
        DataColumn::Array(vs) => vs@.len(),
        DataColumn::Constant(_, n) => n as nat,
    }
}

impl DataColumn {
    /// The element type of this column.
    pub fn data_type(&self) -> (r: DataType)
        ensures
            r == col_type(*self),
    {
        match self {
            DataColumn::Array(vs) => {
                if vs.len() == 0 {
                    DataType::Null
                } else {
                    vs[0].data_type()
                }
            },
            DataColumn::Constant(v, _) => v.data_type(),
        }
    }

    /// The row count this column stands for.
    pub fn len(&self) -> (r: usize)
        ensures
            r as nat == col_rows(*self),
    {
        match self {
            DataColumn::Array(vs) => vs.len(),
            DataColumn::Constant(_, n) => *n,
        }
    }
}

/// Casting a sequence of scalars elementwise: the values in order when every
/// one converts, else the error of the leftmost failing element.
pub open spec fn cast_seq(vs: Seq<DataValue>, t: DataType) -> Result<Seq<DataValue>, ErrorCode>
    decreases vs.len(),
{
    if vs.len() == 0 {
        Ok(Seq::empty())
    } else {
        match cast_seq(vs.drop_last(), t) {
            Err(e) => Err(e),
            Ok(rest) => match spec_cast_value(vs.last(), t) {
                Err(e) => Err(e),
                Ok(w) => Ok(rest.push(w)),
            },
        }
    }
}

/// Once a prefix fails to cast, the whole sequence fails the same way.
proof fn lemma_cast_seq_error_prefix(vs: Seq<DataValue>, t: DataType, j: int)
    requires
        0 <= j <= vs.len(),
        cast_seq(vs.take(j), t) is Err,
    ensures
        cast_seq(vs, t) == cast_seq(vs.take(j), t),
    decreases vs.len() - j,
{
    if j == vs.len() {
        assert(vs.take(j) =~= vs);
    } else {
        assert(vs.take(j + 1).drop_last() =~= vs.take(j));
        lemma_cast_seq_error_prefix(vs, t, j + 1);
    }
}

/// Cast every scalar of an array to the target type, keeping order; the
/// leftmost failing element decides the error.
pub fn data_array_cast(vs: &Vec<DataValue>, t: &DataType) -> (r: Result<Vec<DataValue>, ErrorCode>)
    ensures
        (r matches Ok(out) ==> cast_seq(vs@, *t) == Ok::<_, ErrorCode>(out@)),
        (r matches Err(e) ==> cast_seq(vs@, *t) == Err::<Seq<DataValue>, _>(e)),
{
    let mut out: Vec<DataValue> = Vec::new();
    let mut i: usize = 0;
    while i < vs.len()
        invariant
            i <= vs.len(),
            cast_seq(vs@.take(i as int), *t) == Ok::<_, ErrorCode>(out@),
        decreases vs.len() - i,
    {
        proof {
            assert(vs@.take(i + 1).drop_last() =~= vs@.take(i as int));
            assert(vs@.take(i + 1).last() == vs@[i as int]);
        }
        match cast_value(&vs[i], t) {
            Err(e) => {
                proof {
                    lemma_cast_seq_error_prefix(vs@, *t, i + 1);
                }
                return Err(e);
            },
            Ok(w) => {
                out.push(w);
            },
        }
        i = i + 1;
    }
    proof {
        assert(vs@.take(i as int) =~= vs@);
    }
    Ok(out)
}

} // verus!
