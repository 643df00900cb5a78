use vstd::prelude::*;

use crate::vector::Vector;

verus! {

/// Whether `x` is a value of `i64`.
pub open spec fn fits_i64(x: int) -> bool {
    i64::MIN <= x <= i64::MAX
}

/// Something that yields an `i64` for each index below its length: a leaf
/// container or a not-yet-computed arithmetic node.
pub trait Expr {
    /// What the expression evaluates to at each index, first to last.
    spec fn values(&self) -> Seq<i64>;

    /// Holds when every node in the tree has operands of equal length.
    spec fn wf(&self) -> bool;

    /// Holds when every value combined at index `i` anywhere in the tree
    /// fits in `i64`, so that evaluating that index cannot overflow.
    spec fn fits_at(&self, i: int) -> bool;

    /// The value at `index`.
    fn eval(&self, index: usize) -> (r: i64)
        requires
            self.wf(),
            index < self.values().len(),
            self.fits_at(index as int),
        ensures
            r == self.values()[index as int],
    ;

    /// How many indices the expression has.
    fn len(&self) -> (r: usize)
        requires
            self.wf(),
        ensures
            r == self.values().len(),
    ;

    /// Evaluates every index in increasing order and collects the results
    /// into a new container.
    fn to_vec(&self) -> (r: Vector<i64>)
        requires
            self.wf(),
            forall|i: int| 0 <= i < self.values().len() ==> #[trigger] self.fits_at(i),
        ensures
            r@ == self.values(),
    {
        let mut result = Vector::<i64>::new();
        let n = self.len();
        let mut i: usize = 0;
        while i < n
            invariant
                self.wf(),
                forall|i: int| 0 <= i < self.values().len() ==> #[trigger] self.fits_at(i),
                n == self.values().len(),
                i <= n,
                result@ == self.values().subrange(0, i as int),
            decreases n - i,
        {
            let v = self.eval(i);
            result.push(v);
            i = i + 1;
            assert(result@ =~= self.values().subrange(0, i as int));
        }
        assert(result@ =~= self.values());
        result
    }
}

impl Expr for Vector<i64> {
    open spec fn values(&self) -> Seq<i64> {
        self@
    }

    open spec fn wf(&self) -> bool {
        true
    }

    open spec fn fits_at(&self, i: int) -> bool {
        true
    }

    fn eval(&self, index: usize) -> (r: i64) {
        self.get(index)
    }

    fn len(&self) -> (r: usize) {
        Vector::len(self)
    }
}

/// A deferred element-wise sum of two expressions.
pub struct AddExpr<L, R> {
    left: L,
    right: R,
}

impl<L, R> AddExpr<L, R> {
    /// The left operand.
    pub closed spec fn left_operand(&self) -> L {
        self.left
    }

    /// The right operand.
    pub closed spec fn right_operand(&self) -> R {
        self.right
    }
}

impl<L: Expr, R: Expr> Expr for AddExpr<L, R> {
    open spec fn values(&self) -> Seq<i64> {
        let a = self.left_operand().values();
        let b = self.right_operand().values();
        Seq::new(a.len(), |i: int| (a[i] + b[i]) as i64)
    }

    open spec fn wf(&self) -> bool {
        let a = self.left_operand().values();
        let b = self.right_operand().values();
        &&& self.left_operand().wf()
        &&& self.right_operand().wf()
        &&& a.len() == b.len()
    }

    open spec fn fits_at(&self, i: int) -> bool {
        let a = self.left_operand().values();
        let b = self.right_operand().values();
        &&& self.left_operand().fits_at(i)
        &&& self.right_operand().fits_at(i)
        &&& fits_i64(a[i] + b[i])
    }

    fn eval(&self, index: usize) -> (r: i64) {
        self.left.eval(index) + self.right.eval(index)
    }

    fn len(&self) -> (r: usize) {
        self.left.len()
    }
}

/// A deferred element-wise difference of two expressions.
pub struct SubExpr<L, R> {
    left: L,
    right: R,
}

impl<L, R> SubExpr<L, R> {
    /// The left operand.
    pub closed spec fn left_operand(&self) -> L {
        self.left
    }

    /// The right operand.
    pub closed spec fn right_operand(&self) -> R {
        self.right
    }
}

impl<L: Expr, R: Expr> Expr for SubExpr<L, R> {
    open spec fn values(&self) -> Seq<i64> {
        let a = self.left_operand().values();
        let b = self.right_operand().values();
        Seq::new(a.len(), |i: int| (a[i] - b[i]) as i64)
    }

    open spec fn wf(&self) -> bool {
        let a = self.left_operand().values();
        let b = self.right_operand().values();
        &&& self.left_operand().wf()
        &&& self.right_operand().wf()
        &&& a.len() == b.len()
    }

    open spec fn fits_at(&self, i: int) -> bool {
        let a = self.left_operand().values();
        let b = self.right_operand().values();
        &&& self.left_operand().fits_at(i)
        &&& self.right_operand().fits_at(i)
        &&& fits_i64(a[i] - b[i])
    }

    fn eval(&self, index: usize) -> (r: i64) {
        self.left.eval(index) - self.right.eval(index)
    }

    fn len(&self) -> (r: usize) {
        self.left.len()
    }
}

/// Composition of any two operands into an unevaluated node; no element is
/// computed here.
pub trait AlgebraTrait<R> {
    /// Wraps `self` and `right` into a sum node.
    fn add(self, right: R) -> (r: AddExpr<Self, R>) where Self: Sized
        ensures
            r.left_operand() == self,
            r.right_operand() == right,
    ;

    /// Wraps `self` and `right` into a difference node.
    fn sub(self, right: R) -> (r: SubExpr<Self, R>) where Self: Sized
        ensures
            r.left_operand() == self,
            r.right_operand() == right,
    ;
}

impl<L, R> AlgebraTrait<R> for L {
    fn add(self, right: R) -> (r: AddExpr<L, R>) {
        AddExpr { left: self, right }
    }

    fn sub(self, right: R) -> (r: SubExpr<L, R>) {
        SubExpr { left: self, right }
    }
}

} // verus!
