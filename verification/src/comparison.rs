//! The vectorized comparison engine: relational and pattern operators over
//! pairs of columns, elementwise after coercion to a common type.
//!
//! A broadcast constant pairs with every row of an array; two constants are
//! broadcast to the left operand's declared row count. A constant on the
//! left pairs with an array through the mirrored operator applied array-left,
//! which preserves the written direction of the relational operators — `Lt`
//! over a constant and an array asks whether the constant is below each row —
//! while the pattern operators stay as written, so the broadcast constant is
//! the pattern whichever side of an array it stands on. Over two arrays or
//! two constants, the right operand is the pattern.

use vstd::pervasive::unreached;
use vstd::prelude::*;

use crate::column::{col_rows, col_type, col_wf, DataColumn};
use crate::error::ErrorCode;
use crate::types::{equal_coercion, is_integer_type, lemma_coercion_symmetric, spec_coerce, DataType};
use crate::value::{
    cast_value, int_of, lemma_cast_after_coercion, spec_cast_value, val_eq, value_type, DataValue,
};

verus! {

/// A relational or pattern comparison operator.
#[derive(Clone, Copy, Debug, PartialEq, Eq, Structural)]
pub enum DataValueComparisonOperator {
    Eq,
    Lt,
    LtEq,
    Gt,
    GtEq,
    NotEq,
    Like,
    NotLike,
}

/// The pattern operators, defined only over textual operands.
pub open spec fn is_textual_op(op: DataValueComparisonOperator) -> bool {
    op == DataValueComparisonOperator::Like || op == DataValueComparisonOperator::NotLike
}

/// Strict lexicographic order on character sequences, by code point.
pub open spec fn seq_char_lt(a: Seq<char>, b: Seq<char>) -> bool
    decreases a.len(),
{
    if b.len() == 0 {
        false
    } else if a.len() == 0 {
        true
    } else if a[0] != b[0] {
        (a[0] as u32) < (b[0] as u32)
    } else {
        seq_char_lt(a.drop_first(), b.drop_first())
    }
}

/// SQL wildcard matching: `%` stands for any sequence of characters, `_` for
/// exactly one. There is no escape character: every `%` and `_` of the
/// pattern is a wildcard.
pub open spec fn spec_like(p: Seq<char>, t: Seq<char>) -> bool
    decreases p.len() + t.len(),
{
    if p.len() == 0 {
        t.len() == 0
    } else if p[0] == '%' {
        spec_like(p.drop_first(), t) || (t.len() > 0 && spec_like(p, t.drop_first()))
    } else if t.len() == 0 {
        false
    } else {
        (p[0] == '_' || p[0] == t[0]) && spec_like(p.drop_first(), t.drop_first())
    }
}

/// Strict order on two scalars of one type: numeric order for integers,
/// `false` before `true`, lexicographic order for texts.
pub open spec fn val_lt(a: DataValue, b: DataValue) -> bool {
    match (a, b) {
        (DataValue::Boolean(x), DataValue::Boolean(y)) => !x && y,
        (DataValue::Utf8(x), DataValue::Utf8(y)) => seq_char_lt(x@, y@),
        _ => is_integer_type(value_type(a)) && is_integer_type(value_type(b)) && int_of(a)
            < int_of(b),
    }
}

/// One elementwise comparison. A `Null` on either side compares false under
/// every operator, as do scalars of different types; `Like` reads its right
/// operand as the pattern and its left as the text.
pub open spec fn spec_cmp(op: DataValueComparisonOperator, a: DataValue, b: DataValue) -> bool {
    if a is Null || b is Null {
        false
    } else if value_type(a) != value_type(b) {
        false
    } else {
        match op {
            DataValueComparisonOperator::Eq => val_eq(a, b),
            DataValueComparisonOperator::NotEq => !val_eq(a, b),
            DataValueComparisonOperator::Lt => val_lt(a, b),
            DataValueComparisonOperator::Gt => val_lt(b, a),
            DataValueComparisonOperator::LtEq => !val_lt(b, a),
            DataValueComparisonOperator::GtEq => !val_lt(a, b),
            DataValueComparisonOperator::Like => match (a, b) {
                (DataValue::Utf8(text), DataValue::Utf8(pat)) => spec_like(pat@, text@),
                _ => false,
            },
            DataValueComparisonOperator::NotLike => match (a, b) {
                (DataValue::Utf8(text), DataValue::Utf8(pat)) => !spec_like(pat@, text@),
                _ => false,
            },
        }
    }
}

/// The scalar a column presents at row `i`.
pub open spec fn elem_at(c: DataColumn, i: int) -> DataValue {
    match c {
        DataColumn::Array(vs) => vs@[i],
        DataColumn::Constant(v, _) => v,
    }
}

/// The row count of a binary comparison: an array's length, or, over two
/// constants, the left operand's declared count.
pub open spec fn effective_rows(l: DataColumn, r: DataColumn) -> nat {
    match (l, r) {
        (DataColumn::Array(a), _) => a@.len(),
        (DataColumn::Constant(_, _), DataColumn::Array(b)) => b@.len(),
        (DataColumn::Constant(_, n), DataColumn::Constant(_, _)) => n as nat,
    }
}

/// Two arrays must agree on length; a constant pairs with anything.
pub open spec fn shape_ok(l: DataColumn, r: DataColumn) -> bool {
    match (l, r) {
        (DataColumn::Array(a), DataColumn::Array(b)) => a@.len() == b@.len(),
        _ => true,
    }
}

/// A coerced element, as the comparison sees it.
pub open spec fn coerced_elem(c: DataColumn, i: int, ct: DataType) -> DataValue {
    spec_cast_value(elem_at(c, i), ct)->Ok_0
}

/// One row of a comparison. A constant on the left of an array is compared
/// through the mirrored operator with the array element on the left: the
/// relational operators keep their written direction, and the pattern
/// operators keep the broadcast constant as the pattern. Every other shape
/// applies the operator to the elements in written order.
pub open spec fn compare_row(
    op: DataValueComparisonOperator,
    l: DataColumn,
    r: DataColumn,
    i: int,
    ct: DataType,
) -> bool {
    match (l, r) {
        (DataColumn::Constant(_, _), DataColumn::Array(_)) => spec_cmp(
            mirror_op(op),
            coerced_elem(r, i, ct),
            coerced_elem(l, i, ct),
        ),
        _ => spec_cmp(op, coerced_elem(l, i, ct), coerced_elem(r, i, ct)),
    }
}

/// What a comparison of two well-formed columns returns: `TypeMismatch` when
/// the element types have no common type, or when a pattern operator meets a
/// non-textual common type; `ShapeError` when two arrays disagree on length;
/// otherwise one boolean per row, as `compare_row` states.
pub open spec fn compare_spec(
    op: DataValueComparisonOperator,
    l: DataColumn,
    r: DataColumn,
) -> Result<Seq<bool>, ErrorCode> {
    match spec_coerce(col_type(l), col_type(r)) {
        Option::None => Err(ErrorCode::TypeMismatch),
        Option::Some(ct) => {
            if !shape_ok(l, r) {
                Err(ErrorCode::ShapeError)
            } else if is_textual_op(op) && ct != DataType::Utf8 {
                Err(ErrorCode::TypeMismatch)
            } else {
                Ok(Seq::new(effective_rows(l, r), |i: int| compare_row(op, l, r, i, ct)))
            }
        },
    }
}

/// Compare two strings lexicographically by code point.
fn str_lt(a: &str, b: &str) -> (r: bool)
    ensures
        r == seq_char_lt(a@, b@),
{
    let alen = a.unicode_len();
    let blen = b.unicode_len();
    let n = if alen <= blen {
        alen
    } else {
        blen
    };
    let mut i: usize = 0;
    proof {
        assert(a@.skip(0) =~= a@);
        assert(b@.skip(0) =~= b@);
    }
    while i < n
        invariant
            0 <= i <= n,
            n == if alen <= blen {
                alen
            } else {
                blen
            },
            alen == a@.len(),
            blen == b@.len(),
            seq_char_lt(a@, b@) == seq_char_lt(a@.skip(i as int), b@.skip(i as int)),
        decreases n - i,
    {
        let ca = a.get_char(i);
        let cb = b.get_char(i);
        if ca as u32 != cb as u32 {
            proof {
                assert(a@.skip(i as int)[0] == a@[i as int]);
                assert(b@.skip(i as int)[0] == b@[i as int]);
            }
            return (ca as u32) < (cb as u32);
        }
        proof {
            assert(a@.skip(i as int)[0] == a@[i as int]);
            assert(b@.skip(i as int)[0] == b@[i as int]);
            assert(a@.skip(i as int).drop_first() =~= a@.skip(i + 1));
            assert(b@.skip(i as int).drop_first() =~= b@.skip(i + 1));
        }
        i = i + 1;
    }
    proof {
        assert(a@.skip(i as int).len() == alen - i);
        assert(b@.skip(i as int).len() == blen - i);
    }
    alen < blen
}

/// The characters of a string, one scalar slot each.
fn str_to_chars(s: &str) -> (r: Vec<char>)
    ensures
        r@ == s@,
{
    let len = s.unicode_len();
    let mut out: Vec<char> = Vec::new();
    let mut i: usize = 0;
    while i < len
        invariant
            0 <= i <= len,
            len == s@.len(),
            out@ =~= s@.take(i as int),
        decreases len - i,
    {
        out.push(s.get_char(i));
        i = i + 1;
    }
    proof {
        assert(s@.take(i as int) =~= s@);
    }
    out
}

/// Wildcard matching from the given positions on.
fn like_from(p: &Vec<char>, t: &Vec<char>, pi: usize, ti: usize) -> (r: bool)
    requires
        pi <= p@.len(),
        ti <= t@.len(),
    ensures
        r == spec_like(p@.skip(pi as int), t@.skip(ti as int)),
    decreases p@.len() - pi + t@.len() - ti,
{
    proof {
        if pi < p@.len() {
            assert(p@.skip(pi as int)[0] == p@[pi as int]);
            assert(p@.skip(pi as int).drop_first() =~= p@.skip(pi + 1));
        }
        if ti < t@.len() {
            assert(t@.skip(ti as int)[0] == t@[ti as int]);
            assert(t@.skip(ti as int).drop_first() =~= t@.skip(ti + 1));
        }
    }
    if pi == p.len() {
        return ti == t.len();
    }
    let pc = p[pi];
    if pc == '%' {
        if like_from(p, t, pi + 1, ti) {
            return true;
        }
        if ti < t.len() {
            return like_from(p, t, pi, ti + 1);
        }
        return false;
    }
    if ti == t.len() {
        return false;
    }
    if pc == '_' || pc == t[ti] {
        like_from(p, t, pi + 1, ti + 1)
    } else {
        false
    }
}

/// Does `text` match the SQL wildcard `pattern`?
pub fn like_match(text: &str, pattern: &str) -> (r: bool)
    ensures
        r == spec_like(pattern@, text@),
{
    let p = str_to_chars(pattern);
    let t = str_to_chars(text);
    proof {
        assert(p@.skip(0) =~= pattern@);
        assert(t@.skip(0) =~= text@);
    }
    like_from(&p, &t, 0, 0)
}

/// Structural equality of two scalars.
fn values_equal(a: &DataValue, b: &DataValue) -> (r: bool)
    ensures
        r == val_eq(*a, *b),
{
    match (a, b) {
        (DataValue::Null, DataValue::Null) => true,
        (DataValue::Boolean(x), DataValue::Boolean(y)) => *x == *y,
        (DataValue::Utf8(x), DataValue::Utf8(y)) => x.eq(y),
        _ => {
            let at = a.data_type();
            let bt = b.data_type();
            if at == bt && at.is_integer() {
                a.integer_value() == b.integer_value()
            } else {
                false
            }
        },
    }
}

/// Strict order of two scalars, as `val_lt` states.
fn values_lt(a: &DataValue, b: &DataValue) -> (r: bool)
    ensures
        r == val_lt(*a, *b),
{
    match (a, b) {
        (DataValue::Boolean(x), DataValue::Boolean(y)) => !*x && *y,
        (DataValue::Utf8(x), DataValue::Utf8(y)) => str_lt(x.as_str(), y.as_str()),
        _ => {
            let at = a.data_type();
            let bt = b.data_type();
            if at.is_integer() && bt.is_integer() {
                a.integer_value() < b.integer_value()
            } else {
                false
            }
        },
    }
}

/// Apply one comparison operator to two scalars.
pub fn cmp_values(op: DataValueComparisonOperator, a: &DataValue, b: &DataValue) -> (r: bool)
    ensures
        r == spec_cmp(op, *a, *b),
{
    if matches!(a, DataValue::Null) || matches!(b, DataValue::Null) {
        return false;
    }
    let at = a.data_type();
    let bt = b.data_type();
    if at != bt {
        return false;
    }
    match op {
        DataValueComparisonOperator::Eq => values_equal(a, b),
        DataValueComparisonOperator::NotEq => !values_equal(a, b),
        DataValueComparisonOperator::Lt => values_lt(a, b),
        DataValueComparisonOperator::Gt => values_lt(b, a),
        DataValueComparisonOperator::LtEq => !values_lt(b, a),
        DataValueComparisonOperator::GtEq => !values_lt(a, b),
        DataValueComparisonOperator::Like => match (a, b) {
            (DataValue::Utf8(text), DataValue::Utf8(pat)) => like_match(
                text.as_str(),
                pat.as_str(),
            ),
            _ => false,
        },
        DataValueComparisonOperator::NotLike => match (a, b) {
            (DataValue::Utf8(text), DataValue::Utf8(pat)) => !like_match(
                text.as_str(),
                pat.as_str(),
            ),
            _ => false,
        },
    }
}

/// The coerced scalar a well-formed column presents at a row: the cast of an
/// element to the common type cannot fail.
proof fn lemma_coerced_elem_ok(c: DataColumn, other: DataType, ct: DataType, i: int)
    requires
        col_wf(c),
        c is Array ==> 0 <= i < col_rows(c),
        spec_coerce(col_type(c), other) == Some(ct),
    ensures
        spec_cast_value(elem_at(c, i), ct) is Ok,
{
    lemma_cast_after_coercion(elem_at(c, i), other, ct);
}

/// The comparison entry points, grouped as one engine.
pub struct DataArrayComparison;

impl DataArrayComparison {
    /// Compare two columns elementwise, as `compare_spec` states.
    pub fn data_array_comparison_op(
        op: DataValueComparisonOperator,
        left: &DataColumn,
        right: &DataColumn,
    ) -> (r: Result<Vec<bool>, ErrorCode>)
        requires
            col_wf(*left),
            col_wf(*right),
        ensures
            (r matches Ok(out) ==> compare_spec(op, *left, *right) == Ok::<_, ErrorCode>(out@)),
            (r matches Err(e) ==> compare_spec(op, *left, *right) == Err::<Seq<bool>, _>(e)),
    {
        let lt = left.data_type();
        let rt = right.data_type();
        let ct = match equal_coercion(&lt, &rt) {
            Ok(t) => t,
            Err(e) => {
                return Err(e);
            },
        };
        match (left, right) {
            (DataColumn::Array(a), DataColumn::Array(b)) => {
                if a.len() != b.len() {
                    return Err(ErrorCode::ShapeError);
                }
            },
            _ => {},
        }
        if matches!(op, DataValueComparisonOperator::Like | DataValueComparisonOperator::NotLike)
            && !matches!(ct, DataType::Utf8) {
            return Err(ErrorCode::TypeMismatch);
        }
        let rows = match (left, right) {
            (DataColumn::Array(a), _) => a.len(),
            (DataColumn::Constant(_, _), DataColumn::Array(b)) => b.len(),
            (DataColumn::Constant(_, n), DataColumn::Constant(_, _)) => *n,
        };
        let ghost expected = Seq::new(
            effective_rows(*left, *right),
            |i: int| compare_row(op, *left, *right, i, ct),
        );
        let mut out: Vec<bool> = Vec::new();
        let mut i: usize = 0;
        while i < rows
            invariant
                0 <= i <= rows,
                rows as nat == effective_rows(*left, *right),
                col_wf(*left),
                col_wf(*right),
                shape_ok(*left, *right),
                spec_coerce(col_type(*left), col_type(*right)) == Some(ct),
                expected == Seq::new(
                    effective_rows(*left, *right),
                    |j: int| compare_row(op, *left, *right, j, ct),
                ),
                out@ =~= expected.take(i as int),
            decreases rows - i,
        {
            proof {
                assert(*left is Array ==> col_rows(*left) == effective_rows(*left, *right));
                assert(*right is Array ==> col_rows(*right) == effective_rows(*left, *right));
                lemma_coerced_elem_ok(*left, col_type(*right), ct, i as int);
                lemma_coercion_symmetric(col_type(*left), col_type(*right));
                lemma_coerced_elem_ok(*right, col_type(*left), ct, i as int);
            }
            let lv = match left {
                DataColumn::Array(vs) => &vs[i],
                DataColumn::Constant(v, _) => v,
            };
            let rv = match right {
                DataColumn::Array(vs) => &vs[i],
                DataColumn::Constant(v, _) => v,
            };
            // After a successful coercion these casts cannot fail.
            let lc = match cast_value(lv, &ct) {
                Ok(w) => w,
                Err(_) => unreached(),
            };
            let rc = match cast_value(rv, &ct) {
                Ok(w) => w,
                Err(_) => unreached(),
            };
            // A constant left of an array goes through the mirrored operator
            // with the array element on the left, as `compare_row` states.
            let constant_left_of_array = matches!(left, DataColumn::Constant(_, _)) && matches!(
                right,
                DataColumn::Array(_),
            );
            let bit = if constant_left_of_array {
                cmp_values(mirror_operator(op), &rc, &lc)
            } else {
                cmp_values(op, &lc, &rc)
            };
            proof {
                assert(expected[i as int] == compare_row(op, *left, *right, i as int, ct));
            }
            out.push(bit);
            i = i + 1;
        }
        proof {
            assert(out@ =~= expected);
        }
        Ok(out)
    }
}

/// The mirrored form of a relational operator: the strict and weak orders
/// swap sides, equality and inequality stay.
pub open spec fn mirror_op(op: DataValueComparisonOperator) -> DataValueComparisonOperator {
    match op {
        DataValueComparisonOperator::Lt => DataValueComparisonOperator::Gt,
        DataValueComparisonOperator::Gt => DataValueComparisonOperator::Lt,
        DataValueComparisonOperator::LtEq => DataValueComparisonOperator::GtEq,
        DataValueComparisonOperator::GtEq => DataValueComparisonOperator::LtEq,
        other => other,
    }
}

/// The mirrored form of a comparison operator.
pub fn mirror_operator(op: DataValueComparisonOperator) -> (r: DataValueComparisonOperator)
    ensures
        r == mirror_op(op),
{
    match op {
        DataValueComparisonOperator::Lt => DataValueComparisonOperator::Gt,
        DataValueComparisonOperator::Gt => DataValueComparisonOperator::Lt,
        DataValueComparisonOperator::LtEq => DataValueComparisonOperator::GtEq,
        DataValueComparisonOperator::GtEq => DataValueComparisonOperator::LtEq,
        other => other,
    }
}

/// Mirroring one elementwise comparison: swapping the operands of a
/// relational operator and mirroring it gives the same answer.
proof fn lemma_cmp_mirror(op: DataValueComparisonOperator, a: DataValue, b: DataValue)
    requires
        !is_textual_op(op),
    ensures
        spec_cmp(op, a, b) == spec_cmp(mirror_op(op), b, a),
{
}

/// The comparison mirror law: swapping the two columns and mirroring the
/// operator gives the same rows and the same error. It holds for the
/// relational operators over every shape whose swap keeps the row count (two
/// constants must declare the same count, since the left one's count is
/// used), and for the pattern operators wherever a constant pairs with an
/// array, since the constant is the pattern on either side.
pub proof fn lemma_compare_mirror(
    op: DataValueComparisonOperator,
    l: DataColumn,
    r: DataColumn,
)
    requires
        !is_textual_op(op) || (l is Constant && r is Array) || (l is Array && r is Constant),
        effective_rows(l, r) == effective_rows(r, l),
    ensures
        compare_spec(op, l, r) == compare_spec(mirror_op(op), r, l),
{
    lemma_coercion_symmetric(col_type(l), col_type(r));
    match spec_coerce(col_type(l), col_type(r)) {
        Option::None => {},
        Option::Some(ct) => {
            if shape_ok(l, r) {
                let s1 = compare_spec(op, l, r)->Ok_0;
                let s2 = compare_spec(mirror_op(op), r, l)->Ok_0;
                assert forall|i: int| 0 <= i < s1.len() implies s1[i] == s2[i] by {
                    if !is_textual_op(op) {
                        lemma_cmp_mirror(op, coerced_elem(l, i, ct), coerced_elem(r, i, ct));
                    }
                }
                assert(s1 =~= s2);
            }
        },
    }
}

} // verus!
