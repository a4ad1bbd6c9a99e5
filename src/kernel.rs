use vstd::prelude::*;

use crate::numeral::Numeral;
use crate::vector::{self, vadd, vnorm2, vsmul, vsub, vzero};

verus! {

/// The pull of body `j` (mass `mj`, at `pj`) on a body at `pi`:
/// `mj / (r2 * sqrt(r2)) * d` with `d = pj - pi` and `r2 = |d|^2 + eps2`.
pub open spec fn pull<T: Numeral>(pi: [T; 3], pj: [T; 3], mj: T, eps2: T) -> [T; 3] {
    let d = vsub(pj, pi);
    let r2 = vnorm2(d).spec_add(&eps2);
    let r3 = r2.spec_mul(&r2.spec_sqrt());
    vsmul(mj.spec_div(&r3), d)
}

/// The acceleration of body `i` summed over the bodies `j < upto`, `j != i`,
/// in increasing order of `j`, starting from zero.
pub open spec fn accel_upto<T: Numeral>(
    pos: Seq<[T; 3]>,
    m: Seq<T>,
    eps2: T,
    i: int,
    upto: int,
) -> [T; 3]
    decreases upto,
{
    if upto <= 0 {
        vzero()
    } else {
        let prev = accel_upto(pos, m, eps2, i, upto - 1);
        if upto - 1 == i {
            prev
        } else {
            vadd(prev, pull(pos[i], pos[upto - 1], m[upto - 1], eps2))
        }
    }
}

/// Accelerations summed body by body.
pub open spec fn accel_direct<T: Numeral>(pos: Seq<[T; 3]>, m: Seq<T>, eps2: T) -> Seq<[T; 3]> {
    Seq::new(pos.len(), |i: int| accel_upto(pos, m, eps2, i, pos.len() as int))
}

/// The accelerations `a` after the pair `(i, j)`, `i < j`, is accounted for:
/// `a[i] += m_j s d` and `a[j] -= m_i s d`, with `d = r_j - r_i`,
/// `s = (1 / sqrt(d2))^3` and `d2 = |d|^2 (+ eps2 when softening)`.
pub open spec fn pair_update<T: Numeral>(
    a: Seq<[T; 3]>,
    pos: Seq<[T; 3]>,
    m: Seq<T>,
    eps2: T,
    soften: bool,
    i: int,
    j: int,
) -> Seq<[T; 3]> {
    let d = vsub(pos[j], pos[i]);
    let d2 = if soften {
        vnorm2(d).spec_add(&eps2)
    } else {
        vnorm2(d)
    };
    let rinv = d2.spec_sqrt().spec_recip();
    let rinv3 = rinv.spec_mul(&rinv).spec_mul(&rinv);
    let ai = vadd(a[i], vsmul(m[j].spec_mul(&rinv3), d));
    let aj = vsub(a[j], vsmul(m[i].spec_mul(&rinv3), d));
    a.update(i, ai).update(j, aj)
}

/// The accelerations after every pair of the rows before `i` and the pairs
/// `(i, i+1) .. (i, j-1)` of row `i`, pairs taken in lexicographic order from
/// all-zero accelerations.
pub open spec fn pairs_done<T: Numeral>(
    pos: Seq<[T; 3]>,
    m: Seq<T>,
    eps2: T,
    soften: bool,
    i: nat,
    j: nat,
) -> Seq<[T; 3]>
    decreases i, j,
{
    if j <= i + 1 {
        if i == 0 {
            Seq::new(pos.len(), |_k: int| vzero())
        } else {
            pairs_done(pos, m, eps2, soften, (i - 1) as nat, pos.len())
        }
    } else {
        pair_update(
            pairs_done(pos, m, eps2, soften, i, (j - 1) as nat),
            pos,
            m,
            eps2,
            soften,
            i as int,
            j - 1,
        )
    }
}

/// Accelerations summed once per unordered pair.
pub open spec fn accel_pairwise<T: Numeral>(pos: Seq<[T; 3]>, m: Seq<T>, eps2: T) -> Seq<[T; 3]> {
    pairs_done(pos, m, eps2, !eps2.spec_is_zero(), pos.len(), pos.len() + 1)
}

/// The accelerations by one of the two summation orders.
pub open spec fn accel_of<T: Numeral>(
    pos: Seq<[T; 3]>,
    m: Seq<T>,
    eps2: T,
    pairwise: bool,
) -> Seq<[T; 3]> {
    if pairwise {
        accel_pairwise(pos, m, eps2)
    } else {
        accel_direct(pos, m, eps2)
    }
}

/// Gravitational accelerations (G = 1) of `n` bodies with optional Plummer
/// softening `eps2`: body `i` receives
/// `m_j (r_j - r_i) / (|r_j - r_i|^2 + eps2)^(3/2)` from every other body `j`,
/// summed over `j` in order. Two coincident bodies with `eps2 = 0` divide by
/// zero; keeping bodies apart (or softening) is the caller's part.
pub fn accelerations<T: Numeral>(positions: &[[T; 3]], masses: &[T], eps2: T) -> (a: Vec<[T; 3]>)
    requires
        masses@.len() == positions@.len(),
    ensures
        a@.len() == positions@.len(),
        a@ == accel_direct(positions@, masses@, eps2),
{
    let n = positions.len();
    let mut a: Vec<[T; 3]> = Vec::new();
    let mut i: usize = 0;
    while i < n
        invariant
            n == positions@.len(),
            masses@.len() == n,
            i <= n,
            a@.len() == i,
            forall|k: int| 0 <= k < i ==> #[trigger] a@[k] == accel_upto(positions@, masses@, eps2, k, n as int),
        decreases n - i,
    {
        let pi = positions[i];
        let mut ai = vector::zero3();
        let mut j: usize = 0;
        while j < n
            invariant
                n == positions@.len(),
                masses@.len() == n,
                i < n,
                j <= n,
                pi == positions@[i as int],
                ai == accel_upto(positions@, masses@, eps2, i as int, j as int),
            decreases n - j,
        {
            if j != i {
                let rij = vector::sub(positions[j], pi);
                let r2 = vector::norm2(rij).add(&eps2);
                let r3 = r2.mul(&r2.sqrt());
                ai = vector::add(ai, vector::smul(masses[j].div(&r3), rij));
            }
            j = j + 1;
        }
        a.push(ai);
        i = i + 1;
    }
    assert(a@ =~= accel_direct(positions@, masses@, eps2));
    a
}

/// The same accelerations as `accelerations`, summed over each unordered
/// pair once: the pair `(i, j)` with `i < j` adds `m_j s d` to body `i` and
/// subtracts `m_i s d` from body `j`, where `d = r_j - r_i` and
/// `s = (|d|^2 + eps2)^(-3/2)`. Softening is added only when `eps2` is
/// nonzero.
pub fn accelerations_pairwise<T: Numeral>(
    positions: &[[T; 3]],
    masses: &[T],
    eps2: T,
) -> (a: Vec<[T; 3]>)
    requires
        masses@.len() == positions@.len(),
    ensures
        a@.len() == positions@.len(),
        a@ == accel_pairwise(positions@, masses@, eps2),
{
    let n = positions.len();
    let mut a: Vec<[T; 3]> = Vec::new();
    let mut i: usize = 0;
    while i < n
        invariant
            i <= n,
            a@ == Seq::new(i as nat, |_k: int| vzero::<T>()),
        decreases n - i,
    {
        a.push(vector::zero3());
        i = i + 1;
        assert(a@ =~= Seq::new(i as nat, |_k: int| vzero::<T>()));
    }
    let soften = !eps2.is_zero();
    let ghost pos = positions@;
    let ghost m = masses@;
    assert(a@ == pairs_done(pos, m, eps2, soften, 0, 1));
    let mut i: usize = 0;
    while i < n
        invariant
            n == pos.len(),
            pos == positions@,
            m == masses@,
            masses@.len() == n,
            soften == !eps2.spec_is_zero(),
            a@.len() == n,
            i <= n,
            a@ == pairs_done(pos, m, eps2, soften, i as nat, (i + 1) as nat),
        decreases n - i,
    {
        let mut j: usize = i + 1;
        while j < n
            invariant
                n == pos.len(),
                pos == positions@,
                m == masses@,
                masses@.len() == n,
                a@.len() == n,
                i < n,
                i + 1 <= j <= n,
                a@ == pairs_done(pos, m, eps2, soften, i as nat, j as nat),
            decreases n - j,
        {
            let d = vector::sub(positions[j], positions[i]);
            let mut d2 = vector::norm2(d);
            if soften {
                d2 = d2.add(&eps2);
            }
            let rinv = d2.sqrt().recip();
            let rinv3 = rinv.mul(&rinv).mul(&rinv);
            let ai = vector::add(a[i], vector::smul(masses[j].mul(&rinv3), d));
            let aj = vector::sub(a[j], vector::smul(masses[i].mul(&rinv3), d));
            a.set(i, ai);
            a.set(j, aj);
            j = j + 1;
        }
        i = i + 1;
    }
    a
}

/// The positions held in a state vector of `n` bodies.
pub open spec fn positions_spec<T>(y: Seq<T>, n: nat) -> Seq<[T; 3]> {
    Seq::new(n, |i: int| [y[6 * i], y[6 * i + 1], y[6 * i + 2]])
}

/// The positions held in a state vector: `r[i] = (y[6i], y[6i+1], y[6i+2])`.
pub fn positions_of<T: Copy>(y: &[T], n: usize) -> (r: Vec<[T; 3]>)
    requires
        y@.len() == 6 * n,
    ensures
        r@ == positions_spec(y@, n as nat),
{
    let len = y.len();
    let mut r: Vec<[T; 3]> = Vec::new();
    let mut i: usize = 0;
    while i < n
        invariant
            len == y@.len(),
            y@.len() == 6 * n,
            i <= n,
            r@ == positions_spec(y@, n as nat).subrange(0, i as int),
        decreases n - i,
    {
        let o = 6 * i;
        let p = [y[o], y[o + 1], y[o + 2]];
        r.push(p);
        i = i + 1;
        assert(r@ =~= positions_spec(y@, n as nat).subrange(0, i as int));
    }
    assert(r@ =~= positions_spec(y@, n as nat));
    r
}

/// The time derivative of a state vector: per body, the rate of the position
/// is the velocity held in `y` and the rate of the velocity is the body's
/// acceleration.
pub open spec fn deriv_spec<T: Numeral>(y: Seq<T>, m: Seq<T>, eps2: T, pairwise: bool) -> Seq<T> {
    let acc = accel_of(positions_spec(y, m.len()), m, eps2, pairwise);
    Seq::new(
        y.len(),
        |k: int|
            if k % 6 < 3 {
                y[k + 3]
            } else {
                acc[k / 6][k % 6 - 3]
            },
    )
}

/// The time derivative of the state vector `y` of `masses@.len()` bodies,
/// with the accelerations summed pair by pair (`accelerations_pairwise`) or
/// body by body (`accelerations`).
pub fn deriv<T: Numeral>(y: &[T], masses: &[T], eps2: T, pairwise: bool) -> (dy: Vec<T>)
    requires
        y@.len() == 6 * masses@.len(),
    ensures
        dy@ == deriv_spec(y@, masses@, eps2, pairwise),
{
    let n = masses.len();
    let len = y.len();
    let r = positions_of(y, n);
    let acc = if pairwise {
        accelerations_pairwise(&r, masses, eps2)
    } else {
        accelerations(&r, masses, eps2)
    };
    let ghost want = deriv_spec(y@, masses@, eps2, pairwise);
    assert(acc@ == accel_of(positions_spec(y@, n as nat), masses@, eps2, pairwise));
    assert(acc@.len() == n);
    let mut dy: Vec<T> = Vec::new();
    let mut i: usize = 0;
    while i < n
        invariant
            n == masses@.len(),
            len == y@.len(),
            y@.len() == 6 * n,
            acc@ == accel_of(positions_spec(y@, n as nat), masses@, eps2, pairwise),
            acc@.len() == n,
            want == deriv_spec(y@, masses@, eps2, pairwise),
            i <= n,
            dy@ == want.subrange(0, 6 * i),
        decreases n - i,
    {
        let o = 6 * i;
        let ai = acc[i];
        dy.push(y[o + 3]);
        dy.push(y[o + 4]);
        dy.push(y[o + 5]);
        dy.push(ai[0]);
        dy.push(ai[1]);
        dy.push(ai[2]);
        proof {
            assert forall|k: int| 6 * i <= k < 6 * i + 6 implies #[trigger] want[k] == dy@[k] by {
                assert(k / 6 == i);
            }
        }
        i = i + 1;
        assert(dy@ =~= want.subrange(0, 6 * i));
    }
    assert(dy@ =~= want);
    dy
}

/// `out[i] + a * x[i]` for every `i`.
pub open spec fn saxpy_spec<T: Numeral>(out: Seq<T>, a: T, x: Seq<T>) -> Seq<T> {
    Seq::new(out.len(), |i: int| out[i].spec_add(&a.spec_mul(&x[i])))
}

/// `out += a * x`, component by component.
pub fn saxpy_into<T: Numeral>(out: &mut Vec<T>, a: T, x: &[T])
    requires
        old(out)@.len() == x@.len(),
    ensures
        final(out)@ == saxpy_spec(old(out)@, a, x@),
{
    let n = out.len();
    let mut i: usize = 0;
    while i < n
        invariant
            n == out@.len(),
            old(out)@.len() == n,
            x@.len() == n,
            i <= n,
            forall|k: int| 0 <= k < i ==> #[trigger] out@[k] == saxpy_spec(old(out)@, a, x@)[k],
            forall|k: int| i <= k < n ==> #[trigger] out@[k] == old(out)@[k],
        decreases n - i,
    {
        let v = out[i].add(&a.mul(&x[i]));
        out.set(i, v);
        i = i + 1;
    }
    assert(out@ =~= saxpy_spec(old(out)@, a, x@));
}

/// The scale of component `i` in the error norm:
/// `atol + rtol * max(|y_i|, |y_new_i|)`.
pub open spec fn error_scale<T: Numeral>(y: Seq<T>, y_new: Seq<T>, rtol: T, atol: T, i: int) -> T {
    atol.spec_add(&rtol.spec_mul(&y[i].spec_abs().spec_max(&y_new[i].spec_abs())))
}

/// The sum of the squared scaled errors of the components before `upto`,
/// skipping components whose scale is zero.
pub open spec fn error_sum<T: Numeral>(
    err: Seq<T>,
    y: Seq<T>,
    y_new: Seq<T>,
    rtol: T,
    atol: T,
    upto: int,
) -> T
    decreases upto,
{
    if upto <= 0 {
        T::spec_zero()
    } else {
        let prev = error_sum(err, y, y_new, rtol, atol, upto - 1);
        let sc = error_scale(y, y_new, rtol, atol, upto - 1);
        if sc.spec_is_zero() {
            prev
        } else {
            let e = err[upto - 1].spec_div(&sc);
            prev.spec_add(&e.spec_mul(&e))
        }
    }
}

/// The weighted RMS error norm: `sqrt(error_sum / n)`.
pub open spec fn error_norm_spec<T: Numeral>(
    err: Seq<T>,
    y: Seq<T>,
    y_new: Seq<T>,
    rtol: T,
    atol: T,
) -> T {
    error_sum(err, y, y_new, rtol, atol, err.len() as int).spec_div(
        &T::spec_from_count(err.len() as usize),
    ).spec_sqrt()
}

/// Weighted RMS norm of the error vector `err`: each component is divided
/// by `atol + rtol * max(|y_i|, |y_new_i|)` (components whose scale is zero
/// are left out), squared, averaged over all components, and the square root
/// taken.
pub fn error_norm<T: Numeral>(err: &[T], y: &[T], y_new: &[T], rtol: T, atol: T) -> (r: T)
    requires
        y@.len() == err@.len(),
        y_new@.len() == err@.len(),
    ensures
        r == error_norm_spec(err@, y@, y_new@, rtol, atol),
{
    let n = err.len();
    let mut accum = T::zero();
    let mut i: usize = 0;
    while i < n
        invariant
            n == err@.len(),
            y@.len() == n,
            y_new@.len() == n,
            i <= n,
            accum == error_sum(err@, y@, y_new@, rtol, atol, i as int),
        decreases n - i,
    {
        let sc = atol.add(&rtol.mul(&y[i].abs().max(&y_new[i].abs())));
        if !sc.is_zero() {
            let e = err[i].div(&sc);
            accum = accum.add(&e.mul(&e));
        }
        i = i + 1;
    }
    accum.div(&T::from_count(n)).sqrt()
}

} // verus!
