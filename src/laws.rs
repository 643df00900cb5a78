use vstd::prelude::*;

use crate::expr::{fits_i64, AddExpr, Expr, SubExpr};
use crate::vector::{pushed_all, Vector};

verus! {

/// Pushing values one after another onto an empty container leaves exactly
/// those values in it, in the order they were pushed.
pub proof fn lemma_pushed_all_in_order<T>(vs: Seq<T>)
    ensures
        pushed_all(vs) == vs,
    decreases vs.len(),
{
    if vs.len() > 0 {
        lemma_pushed_all_in_order(vs.drop_last());
        assert(vs.drop_last().push(vs.last()) =~= vs);
    }
}

/// A container is well-formed, can be evaluated at every index, and
/// evaluates to its own elements, so materializing it yields a container of
/// the same length with the same element at each index.
pub proof fn lemma_leaf_round_trip(c: Vector<i64>)
    ensures
        c.wf(),
        forall|i: int| 0 <= i < c@.len() ==> c.fits_at(i),
        c.values() == c@,
{
}

/// The sum node of two well-formed expressions of equal length is
/// well-formed and has their length. It can be evaluated at an index exactly
/// when both operands can and their sum there fits in `i64`, and it then
/// evaluates to that sum; materializing it yields those sums.
pub proof fn lemma_add_elementwise<A: Expr, B: Expr>(e: AddExpr<A, B>, a: A, b: B)
    requires
        e.left_operand() == a,
        e.right_operand() == b,
        a.wf(),
        b.wf(),
        a.values().len() == b.values().len(),
    ensures
        e.wf(),
        e.values().len() == a.values().len(),
        forall|i: int|
            0 <= i < a.values().len() ==> (e.fits_at(i) <==> (a.fits_at(i) && b.fits_at(i)
                && fits_i64(a.values()[i] + b.values()[i]))),
        forall|i: int|
            0 <= i < a.values().len() && fits_i64(a.values()[i] + b.values()[i])
                ==> e.values()[i] == a.values()[i] + b.values()[i],
{
}

/// The difference node of two well-formed expressions of equal length is
/// well-formed and has their length. It can be evaluated at an index exactly
/// when both operands can and their difference there fits in `i64`, and it
/// then evaluates to that difference; materializing it yields those
/// differences.
pub proof fn lemma_sub_elementwise<A: Expr, B: Expr>(e: SubExpr<A, B>, a: A, b: B)
    requires
        e.left_operand() == a,
        e.right_operand() == b,
        a.wf(),
        b.wf(),
        a.values().len() == b.values().len(),
    ensures
        e.wf(),
        e.values().len() == a.values().len(),
        forall|i: int|
            0 <= i < a.values().len() ==> (e.fits_at(i) <==> (a.fits_at(i) && b.fits_at(i)
                && fits_i64(a.values()[i] - b.values()[i]))),
        forall|i: int|
            0 <= i < a.values().len() && fits_i64(a.values()[i] - b.values()[i])
                ==> e.values()[i] == a.values()[i] - b.values()[i],
{
}

/// Subtracting `c` from the sum of `a` and `b`, all well-formed and of one
/// length, gives a well-formed node of that length. It can be evaluated at an
/// index exactly when all three operands can and both `a + b` and
/// `a + b - c` fit in `i64` there, and it then evaluates to `a + b - c`.
pub proof fn lemma_add_then_sub<A: Expr, B: Expr, C: Expr>(
    e: SubExpr<AddExpr<A, B>, C>,
    a: A,
    b: B,
    c: C,
)
    requires
        e.left_operand().left_operand() == a,
        e.left_operand().right_operand() == b,
        e.right_operand() == c,
        a.wf(),
        b.wf(),
        c.wf(),
        a.values().len() == b.values().len(),
        a.values().len() == c.values().len(),
    ensures
        e.wf(),
        e.values().len() == a.values().len(),
        forall|i: int|
            0 <= i < a.values().len() ==> (e.fits_at(i) <==> (a.fits_at(i) && b.fits_at(i)
                && c.fits_at(i) && fits_i64(a.values()[i] + b.values()[i]) && fits_i64(
                a.values()[i] + b.values()[i] - c.values()[i],
            ))),
        forall|i: int|
            0 <= i < a.values().len() && fits_i64(a.values()[i] + b.values()[i]) && fits_i64(
                a.values()[i] + b.values()[i] - c.values()[i],
            ) ==> e.values()[i] == a.values()[i] + b.values()[i] - c.values()[i],
{
    lemma_add_elementwise(e.left_operand(), a, b);
}

/// A difference node whose operands differ in length is never well-formed,
/// so neither its length nor any of its values can be asked for.
pub proof fn lemma_sub_length_mismatch<A: Expr, B: Expr>(e: SubExpr<A, B>)
    requires
        e.left_operand().values().len() != e.right_operand().values().len(),
    ensures
        !e.wf(),
{
}

/// A sum node whose operands differ in length is never well-formed, so
/// neither its length nor any of its values can be asked for.
pub proof fn lemma_add_length_mismatch<A: Expr, B: Expr>(e: AddExpr<A, B>)
    requires
        e.left_operand().values().len() != e.right_operand().values().len(),
    ensures
        !e.wf(),
{
}

} // verus!
