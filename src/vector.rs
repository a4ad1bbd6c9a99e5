use vstd::prelude::*;

use crate::numeral::Numeral;

verus! {

/// Component-wise sum of two 3-vectors.
pub open spec fn vadd<T: Numeral>(a: [T; 3], b: [T; 3]) -> [T; 3] {
    [a[0].spec_add(&b[0]), a[1].spec_add(&b[1]), a[2].spec_add(&b[2])]
}

/// Component-wise difference of two 3-vectors.
pub open spec fn vsub<T: Numeral>(a: [T; 3], b: [T; 3]) -> [T; 3] {
    [a[0].spec_sub(&b[0]), a[1].spec_sub(&b[1]), a[2].spec_sub(&b[2])]
}

/// A 3-vector scaled by `s`.
pub open spec fn vsmul<T: Numeral>(s: T, a: [T; 3]) -> [T; 3] {
    [s.spec_mul(&a[0]), s.spec_mul(&a[1]), s.spec_mul(&a[2])]
}

/// Squared length `x*x + y*y + z*z`, summed left to right.
pub open spec fn vnorm2<T: Numeral>(a: [T; 3]) -> T {
    a[0].spec_mul(&a[0]).spec_add(&a[1].spec_mul(&a[1])).spec_add(&a[2].spec_mul(&a[2]))
}

/// Cross product.
pub open spec fn vcross<T: Numeral>(a: [T; 3], b: [T; 3]) -> [T; 3] {
    [
        a[1].spec_mul(&b[2]).spec_sub(&a[2].spec_mul(&b[1])),
        a[2].spec_mul(&b[0]).spec_sub(&a[0].spec_mul(&b[2])),
        a[0].spec_mul(&b[1]).spec_sub(&a[1].spec_mul(&b[0])),
    ]
}

/// The zero 3-vector.
pub open spec fn vzero<T: Numeral>() -> [T; 3] {
    [T::spec_zero(), T::spec_zero(), T::spec_zero()]
}

/// Component-wise sum of two 3-vectors.
pub fn add<T: Numeral>(a: [T; 3], b: [T; 3]) -> (r: [T; 3])
    ensures
        r == vadd(a, b),
{
    let r = [a[0].add(&b[0]), a[1].add(&b[1]), a[2].add(&b[2])];
    assert(r =~= vadd(a, b));
    r
}

/// Component-wise difference `a - b` of two 3-vectors.
pub fn sub<T: Numeral>(a: [T; 3], b: [T; 3]) -> (r: [T; 3])
    ensures
        r == vsub(a, b),
{
    let r = [a[0].sub(&b[0]), a[1].sub(&b[1]), a[2].sub(&b[2])];
    assert(r =~= vsub(a, b));
    r
}

/// The 3-vector `a` scaled by `s`.
pub fn smul<T: Numeral>(s: T, a: [T; 3]) -> (r: [T; 3])
    ensures
        r == vsmul(s, a),
{
    let r = [s.mul(&a[0]), s.mul(&a[1]), s.mul(&a[2])];
    assert(r =~= vsmul(s, a));
    r
}

/// The squared length of a 3-vector.
pub fn norm2<T: Numeral>(a: [T; 3]) -> (r: T)
    ensures
        r == vnorm2(a),
{
    a[0].mul(&a[0]).add(&a[1].mul(&a[1])).add(&a[2].mul(&a[2]))
}

/// The cross product `a x b`.
pub fn cross<T: Numeral>(a: [T; 3], b: [T; 3]) -> (r: [T; 3])
    ensures
        r == vcross(a, b),
{
    let r = [
        a[1].mul(&b[2]).sub(&a[2].mul(&b[1])),
        a[2].mul(&b[0]).sub(&a[0].mul(&b[2])),
        a[0].mul(&b[1]).sub(&a[1].mul(&b[0])),
    ];
    assert(r =~= vcross(a, b));
    r
}

/// The zero 3-vector.
pub fn zero3<T: Numeral>() -> (r: [T; 3])
    ensures
        r == vzero::<T>(),
{
    let z = T::zero();
    let r = [z, z, z];
    assert(r =~= vzero::<T>());
    r
}

} // verus!
