use vstd::prelude::*;

verus! {

/// The arithmetic surface shared by every number representation the
/// integrators run on (native floating point, double-double, decimal).
///
/// Each operation is named by a spec function of the same name with a
/// `spec_` prefix; an implementation computes exactly that function of its
/// operands, so equal operands give equal results. The integrators' contracts
/// are stated over these names; nothing is assumed of how an implementation
/// rounds.
pub trait Numeral: Copy + Sized {
    spec fn spec_zero() -> Self;

    spec fn spec_one() -> Self;

    spec fn spec_from_count(n: usize) -> Self;

    spec fn spec_add(&self, o: &Self) -> Self;

    spec fn spec_sub(&self, o: &Self) -> Self;

    spec fn spec_mul(&self, o: &Self) -> Self;

    spec fn spec_div(&self, o: &Self) -> Self;

    spec fn spec_neg(&self) -> Self;

    spec fn spec_abs(&self) -> Self;

    spec fn spec_sqrt(&self) -> Self;

    spec fn spec_recip(&self) -> Self;

    spec fn spec_powf(&self, e: &Self) -> Self;

    spec fn spec_min(&self, o: &Self) -> Self;

    spec fn spec_max(&self, o: &Self) -> Self;

    spec fn spec_lt(&self, o: &Self) -> bool;

    spec fn spec_le(&self, o: &Self) -> bool;

    spec fn spec_is_zero(&self) -> bool;

    spec fn spec_whole_steps(&self, dt: &Self) -> usize;

    fn zero() -> (r: Self)
        ensures
            r == Self::spec_zero(),
    ;

    fn one() -> (r: Self)
        ensures
            r == Self::spec_one(),
    ;

    /// The numeral nearest to the count `n`.
    fn from_count(n: usize) -> (r: Self)
        ensures
            r == Self::spec_from_count(n),
    ;

    fn add(&self, o: &Self) -> (r: Self)
        ensures
            r == self.spec_add(o),
    ;

    fn sub(&self, o: &Self) -> (r: Self)
        ensures
            r == self.spec_sub(o),
    ;

    fn mul(&self, o: &Self) -> (r: Self)
        ensures
            r == self.spec_mul(o),
    ;

    fn div(&self, o: &Self) -> (r: Self)
        ensures
            r == self.spec_div(o),
    ;

    fn neg(&self) -> (r: Self)
        ensures
            r == self.spec_neg(),
    ;

    fn abs(&self) -> (r: Self)
        ensures
            r == self.spec_abs(),
    ;

    fn sqrt(&self) -> (r: Self)
        ensures
            r == self.spec_sqrt(),
    ;

    fn recip(&self) -> (r: Self)
        ensures
            r == self.spec_recip(),
    ;

    /// `self` raised to the power `e`.
    fn powf(&self, e: &Self) -> (r: Self)
        ensures
            r == self.spec_powf(e),
    ;

    fn min(&self, o: &Self) -> (r: Self)
        ensures
            r == self.spec_min(o),
    ;

    fn max(&self, o: &Self) -> (r: Self)
        ensures
            r == self.spec_max(o),
    ;

    fn lt(&self, o: &Self) -> (r: bool)
        ensures
            r == self.spec_lt(o),
    ;

    fn le(&self, o: &Self) -> (r: bool)
        ensures
            r == self.spec_le(o),
    ;

    fn is_zero(&self) -> (r: bool)
        ensures
            r == self.spec_is_zero(),
    ;

    /// How many whole steps of length `dt` fit into `self`
    /// (`floor(self / dt)`, saturated to the range of `usize`).
    fn whole_steps(&self, dt: &Self) -> (r: usize)
        ensures
            r == self.spec_whole_steps(dt),
    ;
}

/// `x` limited to the interval `[lo, hi]`: `min(max(x, lo), hi)`.
pub open spec fn clamp_spec<T: Numeral>(x: T, lo: T, hi: T) -> T {
    x.spec_max(&lo).spec_min(&hi)
}

/// `x` limited to the interval `[lo, hi]`.
pub fn clamp<T: Numeral>(x: T, lo: T, hi: T) -> (r: T)
    ensures
        r == clamp_spec(x, lo, hi),
{
    x.max(&lo).min(&hi)
}

/// A fresh vector holding the elements of `x`.
pub fn copy_of<T: Copy>(x: &[T]) -> (r: Vec<T>)
    ensures
        r@ == x@,
{
    let mut r: Vec<T> = Vec::new();
    let mut i: usize = 0;
    while i < x.len()
        invariant
            i <= x@.len(),
            r@ == x@.subrange(0, i as int),
        decreases x@.len() - i,
    {
        r.push(x[i]);
        i = i + 1;
        assert(r@ =~= x@.subrange(0, i as int));
    }
    assert(r@ =~= x@);
    r
}

/// A vector of `n` copies of `z`.
pub fn filled<T: Copy>(z: T, n: usize) -> (r: Vec<T>)
    ensures
        r@ == Seq::new(n as nat, |_i: int| z),
{
    let mut r: Vec<T> = Vec::new();
    let mut i: usize = 0;
    while i < n
        invariant
            i <= n,
            r@ == Seq::new(i as nat, |_i: int| z),
        decreases n - i,
    {
        r.push(z);
        i = i + 1;
        assert(r@ =~= Seq::new(i as nat, |_i: int| z));
    }
    r
}

} // verus!
