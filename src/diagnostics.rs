use vstd::prelude::*;

use crate::body::Body;
use crate::numeral::Numeral;
use crate::vector::{self, vadd, vcross, vnorm2, vsmul, vsub, vzero};

verus! {

/// `sum_{i < upto} (1/2) m_i |v_i|^2`, summed in order from zero.
pub open spec fn kinetic_sum<T: Numeral>(b: Seq<Body<T>>, upto: int) -> T
    decreases upto,
{
    if upto <= 0 {
        T::spec_zero()
    } else {
        let half = T::spec_one().spec_div(&T::spec_one().spec_add(&T::spec_one()));
        let bi = b[upto - 1];
        kinetic_sum(b, upto - 1).spec_add(&half.spec_mul(&bi.m).spec_mul(&vnorm2(bi.v)))
    }
}

/// The potential energy after the pairs of the rows before `i` and the pairs
/// `(i, i+1) .. (i, j-1)` of row `i`, each pair `(i, j)` subtracting
/// `m_i m_j / |r_j - r_i|`, starting from zero.
pub open spec fn potential_done<T: Numeral>(b: Seq<Body<T>>, i: nat, j: nat) -> T
    decreases i, j,
{
    if j <= i + 1 {
        if i == 0 {
            T::spec_zero()
        } else {
            potential_done(b, (i - 1) as nat, b.len())
        }
    } else {
        let bi = b[i as int];
        let bj = b[j - 1];
        potential_done(b, i, (j - 1) as nat).spec_sub(
            &bi.m.spec_mul(&bj.m).spec_div(&vnorm2(vsub(bj.r, bi.r)).spec_sqrt()),
        )
    }
}

/// Kinetic plus potential energy (G = 1).
pub open spec fn energy_spec<T: Numeral>(b: Seq<Body<T>>) -> T {
    kinetic_sum(b, b.len() as int).spec_add(&potential_done(b, b.len(), b.len() + 1))
}

/// `sum_{i < upto} m_i (r_i x v_i)`, summed in order from zero.
pub open spec fn angular_sum<T: Numeral>(b: Seq<Body<T>>, upto: int) -> [T; 3]
    decreases upto,
{
    if upto <= 0 {
        vzero()
    } else {
        let bi = b[upto - 1];
        vadd(angular_sum(b, upto - 1), vsmul(bi.m, vcross(bi.r, bi.v)))
    }
}

/// Total energy (G = 1): the kinetic energy `sum_i m_i |v_i|^2 / 2` plus the
/// potential energy `sum_{i<j} -m_i m_j / |r_i - r_j|`.
pub fn total_energy<T: Numeral>(bodies: &[Body<T>]) -> (e: T)
    ensures
        e == energy_spec(bodies@),
{
    let n = bodies.len();
    let one = T::one();
    let half = one.div(&one.add(&one));
    let mut ke = T::zero();
    let mut i: usize = 0;
    while i < n
        invariant
            n == bodies@.len(),
            i <= n,
            half == T::spec_one().spec_div(&T::spec_one().spec_add(&T::spec_one())),
            ke == kinetic_sum(bodies@, i as int),
        decreases n - i,
    {
        let b = bodies[i];
        ke = ke.add(&half.mul(&b.m).mul(&vector::norm2(b.v)));
        i = i + 1;
    }
    let mut pe = T::zero();
    let mut i: usize = 0;
    while i < n
        invariant
            n == bodies@.len(),
            i <= n,
            pe == potential_done(bodies@, i as nat, (i + 1) as nat),
        decreases n - i,
    {
        let mut j: usize = i + 1;
        while j < n
            invariant
                n == bodies@.len(),
                i < n,
                i + 1 <= j <= n,
                pe == potential_done(bodies@, i as nat, j as nat),
            decreases n - j,
        {
            let rij = vector::sub(bodies[j].r, bodies[i].r);
            let r = vector::norm2(rij).sqrt();
            pe = pe.sub(&bodies[i].m.mul(&bodies[j].m).div(&r));
            j = j + 1;
        }
        i = i + 1;
    }
    ke.add(&pe)
}

/// Total angular momentum `sum_i m_i (r_i x v_i)`.
pub fn total_angular_momentum<T: Numeral>(bodies: &[Body<T>]) -> (l: [T; 3])
    ensures
        l == angular_sum(bodies@, bodies@.len() as int),
{
    let mut l = vector::zero3();
    let mut i: usize = 0;
    while i < bodies.len()
        invariant
            i <= bodies@.len(),
            l == angular_sum(bodies@, i as int),
        decreases bodies@.len() - i,
    {
        let b = bodies[i];
        l = vector::add(l, vector::smul(b.m, vector::cross(b.r, b.v)));
        i = i + 1;
    }
    l
}

} // verus!
