use vstd::prelude::*;

verus! {

/// An owned, growable sequence of elements: the leaf of every expression
/// tree and the type that materialized results are collected into.
#[derive(Debug)]
pub struct Vector<T> {
    data: Vec<T>,
}

impl<T> View for Vector<T> {
    type V = Seq<T>;

    /// The elements, first to last.
    closed spec fn view(&self) -> Seq<T> {
        self.data@
    }
}

impl<T> Vector<T> {
    /// An empty container.
    pub fn new() -> (r: Self)
        ensures
            r@ == Seq::<T>::empty(),
    {
        Vector { data: Vec::new() }
    }

    /// Appends `value` after the last element.
    pub fn push(&mut self, value: T)
        ensures
            final(self)@ == old(self)@.push(value),
    {
        self.data.push(value);
    }

    /// Removes and returns the last element; `None`, with nothing changed,
    /// when the container is empty.
    pub fn pop(&mut self) -> (r: Option<T>)
        ensures
            old(self)@.len() == 0 ==> r == None::<T> && final(self)@ == old(self)@,
            old(self)@.len() > 0 ==> r == Some(old(self)@.last())
                && final(self)@ == old(self)@.drop_last(),
    {
        self.data.pop()
    }

    /// The number of elements.
    pub fn len(&self) -> (r: usize)
        ensures
            r == self@.len(),
    {
        self.data.len()
    }
}

impl<T: Copy> Vector<T> {
    /// A copy of the element at `index`.
    pub fn get(&self, index: usize) -> (r: T)
        requires
            index < self@.len(),
        ensures
            r == self@[index as int],
    {
        self.data[index]
    }
}

/// What pushing each of `vs`, first to last, onto an empty container leaves
/// in it.
pub open spec fn pushed_all<T>(vs: Seq<T>) -> Seq<T>
    decreases vs.len(),
{
    if vs.len() == 0 {
        Seq::empty()
    } else {
        pushed_all(vs.drop_last()).push(vs.last())
    }
}

/// Builds a container by pushing each of `values` in order.
pub fn tvec<T: Copy>(values: &[T]) -> (r: Vector<T>)
    ensures
        r@ == values@,
{
    let mut v = Vector::new();
    let mut i: usize = 0;
    while i < values.len()
        invariant
            i <= values@.len(),
            v@ == values@.subrange(0, i as int),
        decreases values@.len() - i,
    {
        let x = values[i];
        v.push(x);
        i = i + 1;
        assert(v@ =~= values@.subrange(0, i as int));
    }
    assert(values@.subrange(0, i as int) =~= values@);
    v
}

} // verus!
