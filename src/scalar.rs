use vstd::prelude::*;

verus! {

/// The arithmetic a network computes with.
///
/// Each operation has a spec counterpart that names its result; `sigmoid` is
/// the activation function `1 / (1 + e^-x)`.
pub trait Scalar: Sized + Copy {
    spec fn spec_zero() -> Self;

    spec fn spec_one() -> Self;

    spec fn spec_plus(self, other: Self) -> Self;

    spec fn spec_minus(self, other: Self) -> Self;

    spec fn spec_times(self, other: Self) -> Self;

    spec fn spec_sigmoid(self) -> Self;

    fn zero() -> (r: Self)
        ensures
            r == Self::spec_zero(),
    ;

    fn one() -> (r: Self)
        ensures
            r == Self::spec_one(),
    ;

    fn plus(self, other: Self) -> (r: Self)
        ensures
            r == self.spec_plus(other),
    ;

    fn minus(self, other: Self) -> (r: Self)
        ensures
            r == self.spec_minus(other),
    ;

    fn times(self, other: Self) -> (r: Self)
        ensures
            r == self.spec_times(other),
    ;

    fn sigmoid(self) -> (r: Self)
        ensures
            r == self.spec_sigmoid(),
    ;
}

/// `y * (1 - y)`: the sigmoid's derivative written in terms of its output.
pub open spec fn spec_sigmoid_derivative<T: Scalar>(y: T) -> T {
    y.spec_times(T::spec_one().spec_minus(y))
}

/// The sum of `a[i] * b[i]` over `i < n`, accumulated from the first index
/// up, starting at zero.
pub open spec fn spec_dot<T: Scalar>(a: Seq<T>, b: Seq<T>, n: nat) -> T
    decreases n,
{
    if n == 0 {
        T::spec_zero()
    } else {
        spec_dot(a, b, (n - 1) as nat).spec_plus(a[n - 1].spec_times(b[n - 1]))
    }
}

/// The derivative of the sigmoid, written in terms of its output `y`:
/// `y * (1 - y)`. Callers pass an already activated value.
pub fn sigmoid_derivative<T: Scalar>(y: T) -> (r: T)
    ensures
        r == spec_sigmoid_derivative(y),
{
    y.times(T::one().minus(y))
}

/// The sum of the products of matching components, accumulated from the
/// first index to the last, starting at zero.
pub fn dot_product<T: Scalar>(a: &Vec<T>, b: &Vec<T>) -> (r: T)
    requires
        a@.len() == b@.len(),
    ensures
        r == spec_dot(a@, b@, a@.len()),
{
    let mut acc = T::zero();
    let mut i: usize = 0;
    while i < a.len()
        invariant
            i <= a@.len(),
            a@.len() == b@.len(),
            acc == spec_dot(a@, b@, i as nat),
        decreases a@.len() - i,
    {
        acc = acc.plus(a[i].times(b[i]));
        i += 1;
    }
    acc
}

} // verus!
