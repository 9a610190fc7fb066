use vstd::prelude::*;

verus! {

/// A scalar integer type used by the `Dimension` trait for indexing.
pub type Ix = usize;

/// The product of `dims` (1 for none).
pub open spec fn product(dims: Seq<usize>) -> nat
    decreases dims.len(),
{
    if dims.len() == 0 {
        1
    } else {
        product(dims.drop_last()) * (dims.last() as nat)
    }
}

/// Multiplying the dimensions one after another from the first never exceeds `usize`.
pub open spec fn product_fits(dims: Seq<usize>) -> bool {
    forall|k: int| 0 <= k <= dims.len() ==> #[trigger] product(dims.take(k)) <= usize::MAX
}

/// The element count of `dims` as a machine integer.
fn product_of(dims: &Vec<usize>) -> (n: usize)
    requires
        product_fits(dims@),
    ensures
        n == product(dims@),
{
    let mut acc: usize = 1;
    let mut i: usize = 0;
    assert(dims@.take(0) =~= Seq::<usize>::empty());
    while i < dims.len()
        invariant
            0 <= i <= dims.len(),
            product_fits(dims@),
            acc == product(dims@.take(i as int)),
        decreases dims.len() - i,
    {
        assert(dims@.take(i as int + 1).drop_last() =~= dims@.take(i as int));
        assert(product(dims@.take(i as int + 1)) <= usize::MAX);
        acc = acc * dims[i];
        i = i + 1;
    }
    assert(dims@.take(dims.len() as int) =~= dims@);
    acc
}

/// Copies `s` into a new vector.
fn copy_dims(s: &[usize]) -> (v: Vec<usize>)
    ensures
        v@ == s@,
{
    let mut v: Vec<usize> = Vec::new();
    let mut i: usize = 0;
    while i < s.len()
        invariant
            0 <= i <= s@.len(),
            v@ == s@.take(i as int),
        decreases s@.len() - i,
    {
        v.push(s[i]);
        i = i + 1;
        assert(v@ =~= s@.take(i as int));
    }
    assert(s@.take(s@.len() as int) =~= s@);
    v
}

/// A trait for the shape and index types.
pub trait Dimension {
    /// The extent of each dimension.
    spec fn spec_dims(&self) -> Seq<usize>;

    /// The number of dimensions.
    fn ndim(&self) -> (n: usize)
        ensures
            n == self.spec_dims().len(),
    ;

    /// The extent of each dimension.
    fn dims(&self) -> (d: Vec<Ix>)
        ensures
            d@ == self.spec_dims(),
    ;

    /// The number of elements: the product of the extents (1 for no dimensions).
    fn size(&self) -> (n: Ix)
        requires
            product_fits(self.spec_dims()),
        ensures
            n == product(self.spec_dims()),
    {
        let dims = self.dims();
        if dims.len() == 0 {
            1
        } else {
            product_of(&dims)
        }
    }
}

impl<'a, T: Dimension + ?Sized> Dimension for &'a T {
    open spec fn spec_dims(&self) -> Seq<usize> {
        (**self).spec_dims()
    }

    fn ndim(&self) -> (n: usize) {
        Dimension::ndim(*self)
    }

    fn dims(&self) -> (d: Vec<Ix>) {
        Dimension::dims(*self)
    }
}

impl Dimension for [Ix] {
    open spec fn spec_dims(&self) -> Seq<usize> {
        self@
    }

    fn ndim(&self) -> (n: usize) {
        self.len()
    }

    fn dims(&self) -> (d: Vec<Ix>) {
        copy_dims(self)
    }
}

impl Dimension for Vec<Ix> {
    open spec fn spec_dims(&self) -> Seq<usize> {
        self@
    }

    fn ndim(&self) -> (n: usize) {
        self.len()
    }

    fn dims(&self) -> (d: Vec<Ix>) {
        copy_dims(self.as_slice())
    }
}

impl<const N: usize> Dimension for [Ix; N] {
    open spec fn spec_dims(&self) -> Seq<usize> {
        self@
    }

    fn ndim(&self) -> (n: usize) {
        N
    }

    fn dims(&self) -> (d: Vec<Ix>) {
        copy_dims(self.as_slice())
    }
}

impl Dimension for Ix {
    open spec fn spec_dims(&self) -> Seq<usize> {
        seq![*self]
    }

    fn ndim(&self) -> (n: usize) {
        1
    }

    fn dims(&self) -> (d: Vec<Ix>) {
        let d = vec![*self];
        assert(d@ =~= seq![*self]);
        d
    }
}

impl Dimension for () {
    open spec fn spec_dims(&self) -> Seq<usize> {
        seq![]
    }

    fn ndim(&self) -> (n: usize) {
        0
    }

    fn dims(&self) -> (d: Vec<Ix>) {
        let d: Vec<Ix> = Vec::new();
        assert(d@ =~= Seq::<usize>::empty());
        d
    }
}

impl Dimension for (Ix,) {
    open spec fn spec_dims(&self) -> Seq<usize> {
        seq![self.0]
    }

    fn ndim(&self) -> (n: usize) {
        1
    }

    fn dims(&self) -> (d: Vec<Ix>) {
        let d = vec![self.0];
        assert(d@ =~= seq![self.0]);
        d
    }
}

impl Dimension for (Ix, Ix) {
    open spec fn spec_dims(&self) -> Seq<usize> {
        seq![self.0, self.1]
    }

    fn ndim(&self) -> (n: usize) {
        2
    }

    fn dims(&self) -> (d: Vec<Ix>) {
        let d = vec![self.0, self.1];
        assert(d@ =~= seq![self.0, self.1]);
        d
    }
}

impl Dimension for (Ix, Ix, Ix) {
    open spec fn spec_dims(&self) -> Seq<usize> {
        seq![self.0, self.1, self.2]
    }

    fn ndim(&self) -> (n: usize) {
        3
    }

    fn dims(&self) -> (d: Vec<Ix>) {
        let d = vec![self.0, self.1, self.2];
        assert(d@ =~= seq![self.0, self.1, self.2]);
        d
    }
}

impl Dimension for (Ix, Ix, Ix, Ix) {
    open spec fn spec_dims(&self) -> Seq<usize> {
        seq![self.0, self.1, self.2, self.3]
    }

    fn ndim(&self) -> (n: usize) {
        4
    }

    fn dims(&self) -> (d: Vec<Ix>) {
        let d = vec![self.0, self.1, self.2, self.3];
        assert(d@ =~= seq![self.0, self.1, self.2, self.3]);
        d
    }
}

impl Dimension for (Ix, Ix, Ix, Ix, Ix) {
    open spec fn spec_dims(&self) -> Seq<usize> {
        seq![self.0, self.1, self.2, self.3, self.4]
    }

    fn ndim(&self) -> (n: usize) {
        5
    }

    fn dims(&self) -> (d: Vec<Ix>) {
        let d = vec![self.0, self.1, self.2, self.3, self.4];
        assert(d@ =~= seq![self.0, self.1, self.2, self.3, self.4]);
        d
    }
}

impl Dimension for (Ix, Ix, Ix, Ix, Ix, Ix) {
    open spec fn spec_dims(&self) -> Seq<usize> {
        seq![self.0, self.1, self.2, self.3, self.4, self.5]
    }

    fn ndim(&self) -> (n: usize) {
        6
    }

    fn dims(&self) -> (d: Vec<Ix>) {
        let d = vec![self.0, self.1, self.2, self.3, self.4, self.5];
        assert(d@ =~= seq![self.0, self.1, self.2, self.3, self.4, self.5]);
        d
    }
}

impl Dimension for (Ix, Ix, Ix, Ix, Ix, Ix, Ix) {
    open spec fn spec_dims(&self) -> Seq<usize> {
        seq![self.0, self.1, self.2, self.3, self.4, self.5, self.6]
    }

    fn ndim(&self) -> (n: usize) {
        7
    }

    fn dims(&self) -> (d: Vec<Ix>) {
        let d = vec![self.0, self.1, self.2, self.3, self.4, self.5, self.6];
        assert(d@ =~= seq![self.0, self.1, self.2, self.3, self.4, self.5, self.6]);
        d
    }
}

impl Dimension for (Ix, Ix, Ix, Ix, Ix, Ix, Ix, Ix) {
    open spec fn spec_dims(&self) -> Seq<usize> {
        seq![self.0, self.1, self.2, self.3, self.4, self.5, self.6, self.7]
    }

    fn ndim(&self) -> (n: usize) {
        8
    }

    fn dims(&self) -> (d: Vec<Ix>) {
        let d = vec![self.0, self.1, self.2, self.3, self.4, self.5, self.6, self.7];
        assert(d@ =~= seq![self.0, self.1, self.2, self.3, self.4, self.5, self.6, self.7]);
        d
    }
}

impl Dimension for (Ix, Ix, Ix, Ix, Ix, Ix, Ix, Ix, Ix) {
    open spec fn spec_dims(&self) -> Seq<usize> {
        seq![self.0, self.1, self.2, self.3, self.4, self.5, self.6, self.7, self.8]
    }

    fn ndim(&self) -> (n: usize) {
        9
    }

    fn dims(&self) -> (d: Vec<Ix>) {
        let d = vec![self.0, self.1, self.2, self.3, self.4, self.5, self.6, self.7, self.8];
        assert(d@ =~= seq![self.0, self.1, self.2, self.3, self.4, self.5, self.6, self.7, self.8]);
        d
    }
}

impl Dimension for (Ix, Ix, Ix, Ix, Ix, Ix, Ix, Ix, Ix, Ix) {
    open spec fn spec_dims(&self) -> Seq<usize> {
        seq![self.0, self.1, self.2, self.3, self.4, self.5, self.6, self.7, self.8, self.9]
    }

    fn ndim(&self) -> (n: usize) {
        10
    }

    fn dims(&self) -> (d: Vec<Ix>) {
        let d = vec![self.0, self.1, self.2, self.3, self.4, self.5, self.6, self.7, self.8, self.9];
        assert(d@ =~= seq![self.0, self.1, self.2, self.3, self.4, self.5, self.6, self.7, self.8, self.9]);
        d
    }
}

impl Dimension for (Ix, Ix, Ix, Ix, Ix, Ix, Ix, Ix, Ix, Ix, Ix) {
    open spec fn spec_dims(&self) -> Seq<usize> {
        seq![self.0, self.1, self.2, self.3, self.4, self.5, self.6, self.7, self.8, self.9, self.10]
    }

    fn ndim(&self) -> (n: usize) {
        11
    }

    fn dims(&self) -> (d: Vec<Ix>) {
        let d = vec![self.0, self.1, self.2, self.3, self.4, self.5, self.6, self.7, self.8, self.9, self.10];
        assert(d@ =~= seq![self.0, self.1, self.2, self.3, self.4, self.5, self.6, self.7, self.8, self.9, self.10]);
        d
    }
}

impl Dimension for (Ix, Ix, Ix, Ix, Ix, Ix, Ix, Ix, Ix, Ix, Ix, Ix) {
    open spec fn spec_dims(&self) -> Seq<usize> {
        seq![self.0, self.1, self.2, self.3, self.4, self.5, self.6, self.7, self.8, self.9, self.10, self.11]
    }

    fn ndim(&self) -> (n: usize) {
        12
    }

    fn dims(&self) -> (d: Vec<Ix>) {
        let d = vec![self.0, self.1, self.2, self.3, self.4, self.5, self.6, self.7, self.8, self.9, self.10, self.11];
        assert(d@ =~= seq![self.0, self.1, self.2, self.3, self.4, self.5, self.6, self.7, self.8, self.9, self.10, self.11]);
        d
    }
}

} // verus!
