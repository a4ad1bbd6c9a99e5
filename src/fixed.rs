use vstd::prelude::*;

use crate::adaptive::{frame_at, masses_of, masses_spec, Completion, Evolution};
use crate::body::{pack_state, state_of, Body};
use crate::kernel::{accel_direct, accelerations};
use crate::numeral::Numeral;
use crate::trajectory::{frame_of, push_sample};
use crate::vector::{self, vadd, vsmul};

verus! {

/// The two fixed-step schemes.
#[derive(Clone, Copy, Debug, PartialEq, Eq, Structural)]
pub enum FixedScheme {
    /// Classical fourth-order Runge–Kutta.
    Rk4,
    /// Fourth-order symmetric composition of velocity–Verlet steps.
    Verlet,
}

/// The positions of the bodies, in order.
pub open spec fn positions_of_bodies<T>(b: Seq<Body<T>>) -> Seq<[T; 3]> {
    Seq::new(b.len(), |i: int| b[i].r)
}

/// The velocities of the bodies, in order.
pub open spec fn velocities_of_bodies<T>(b: Seq<Body<T>>) -> Seq<[T; 3]> {
    Seq::new(b.len(), |i: int| b[i].v)
}

/// `base[i] + s * d[i]` for every `i`.
pub open spec fn displaced_spec<T: Numeral>(base: Seq<[T; 3]>, s: T, d: Seq<[T; 3]>) -> Seq<[T; 3]> {
    Seq::new(base.len(), |i: int| vadd(base[i], vsmul(s, d[i])))
}

/// `w0 + 2 w1 + 2 w2 + w3`, grouped as `(w0 + 2 w1) + (2 w2 + w3)`.
pub open spec fn rk4_sum<T: Numeral>(w0: [T; 3], w1: [T; 3], w2: [T; 3], w3: [T; 3]) -> [T; 3] {
    let two = T::spec_one().spec_add(&T::spec_one());
    vadd(vadd(w0, vsmul(two, w1)), vadd(vsmul(two, w2), w3))
}

/// The bodies after one classical Runge–Kutta step of size `dt`: stage
/// positions and velocities at `dt/2`, `dt/2`, `dt` from the start, and
/// position and velocity advanced by `dt/6` times the weighted sums of the
/// stage velocities and accelerations.
pub open spec fn rk4_spec<T: Numeral>(b: Seq<Body<T>>, dt: T, eps2: T) -> Seq<Body<T>> {
    let one = T::spec_one();
    let two = one.spec_add(&one);
    let half_dt = dt.spec_div(&two);
    let sixth_dt = dt.spec_div(&two.spec_add(&two).spec_add(&two));
    let m = masses_spec(b);
    let r0 = positions_of_bodies(b);
    let v0 = velocities_of_bodies(b);
    let a0 = accel_direct(r0, m, eps2);
    let r1 = displaced_spec(r0, half_dt, v0);
    let v1 = displaced_spec(v0, half_dt, a0);
    let a1 = accel_direct(r1, m, eps2);
    let r2 = displaced_spec(r0, half_dt, v1);
    let v2 = displaced_spec(v0, half_dt, a1);
    let a2 = accel_direct(r2, m, eps2);
    let r3 = displaced_spec(r0, dt, v2);
    let v3 = displaced_spec(v0, dt, a2);
    let a3 = accel_direct(r3, m, eps2);
    Seq::new(
        b.len(),
        |i: int|
            Body {
                m: b[i].m,
                r: vadd(b[i].r, vsmul(sixth_dt, rk4_sum(v0[i], v1[i], v2[i], v3[i]))),
                v: vadd(b[i].v, vsmul(sixth_dt, rk4_sum(a0[i], a1[i], a2[i], a3[i]))),
            },
    )
}

/// `base[i] + s * d[i]` for every `i`.
fn displaced<T: Numeral>(base: &[[T; 3]], s: T, d: &[[T; 3]]) -> (r: Vec<[T; 3]>)
    requires
        d@.len() == base@.len(),
    ensures
        r@ == displaced_spec(base@, s, d@),
{
    let mut r: Vec<[T; 3]> = Vec::new();
    let mut i: usize = 0;
    while i < base.len()
        invariant
            d@.len() == base@.len(),
            i <= base@.len(),
            r@ == displaced_spec(base@, s, d@).subrange(0, i as int),
        decreases base@.len() - i,
    {
        r.push(vector::add(base[i], vector::smul(s, d[i])));
        i = i + 1;
        assert(r@ =~= displaced_spec(base@, s, d@).subrange(0, i as int));
    }
    assert(r@ =~= displaced_spec(base@, s, d@));
    r
}

/// The positions of the bodies, in order.
fn positions<T: Copy>(bodies: &[Body<T>]) -> (r: Vec<[T; 3]>)
    ensures
        r@ == positions_of_bodies(bodies@),
{
    let mut r: Vec<[T; 3]> = Vec::new();
    let mut i: usize = 0;
    while i < bodies.len()
        invariant
            i <= bodies@.len(),
            r@ == positions_of_bodies(bodies@).subrange(0, i as int),
        decreases bodies@.len() - i,
    {
        r.push(bodies[i].r);
        i = i + 1;
        assert(r@ =~= positions_of_bodies(bodies@).subrange(0, i as int));
    }
    assert(r@ =~= positions_of_bodies(bodies@));
    r
}

/// The velocities of the bodies, in order.
fn velocities<T: Copy>(bodies: &[Body<T>]) -> (r: Vec<[T; 3]>)
    ensures
        r@ == velocities_of_bodies(bodies@),
{
    let mut r: Vec<[T; 3]> = Vec::new();
    let mut i: usize = 0;
    while i < bodies.len()
        invariant
            i <= bodies@.len(),
            r@ == velocities_of_bodies(bodies@).subrange(0, i as int),
        decreases bodies@.len() - i,
    {
        r.push(bodies[i].v);
        i = i + 1;
        assert(r@ =~= velocities_of_bodies(bodies@).subrange(0, i as int));
    }
    assert(r@ =~= velocities_of_bodies(bodies@));
    r
}

/// Advances the bodies by one classical fourth-order Runge–Kutta step of
/// size `dt`.
pub fn step_rk4<T: Numeral>(bodies: &mut Vec<Body<T>>, dt: T, eps2: T)
    ensures
        final(bodies)@ == rk4_spec(old(bodies)@, dt, eps2),
{
    let ghost b0 = bodies@;
    let n = bodies.len();
    let one = T::one();
    let two = one.add(&one);
    let half_dt = dt.div(&two);
    let sixth_dt = dt.div(&two.add(&two).add(&two));
    let m = masses_of(bodies.as_slice());
    let r0 = positions(bodies.as_slice());
    let v0 = velocities(bodies.as_slice());
    let a0 = accelerations(r0.as_slice(), m.as_slice(), eps2);
    let r1 = displaced(r0.as_slice(), half_dt, v0.as_slice());
    let v1 = displaced(v0.as_slice(), half_dt, a0.as_slice());
    let a1 = accelerations(r1.as_slice(), m.as_slice(), eps2);
    let r2 = displaced(r0.as_slice(), half_dt, v1.as_slice());
    let v2 = displaced(v0.as_slice(), half_dt, a1.as_slice());
    let a2 = accelerations(r2.as_slice(), m.as_slice(), eps2);
    let r3 = displaced(r0.as_slice(), dt, v2.as_slice());
    let v3 = displaced(v0.as_slice(), dt, a2.as_slice());
    let a3 = accelerations(r3.as_slice(), m.as_slice(), eps2);
    let ghost want = rk4_spec(b0, dt, eps2);
    let ghost (sv0, sv1, sv2, sv3) = (v0@, v1@, v2@, v3@);
    let ghost (sa0, sa1, sa2, sa3) = (a0@, a1@, a2@, a3@);
    assert(want == Seq::new(
        n as nat,
        |k: int|
            Body {
                m: b0[k].m,
                r: vadd(b0[k].r, vsmul(sixth_dt, rk4_sum(sv0[k], sv1[k], sv2[k], sv3[k]))),
                v: vadd(b0[k].v, vsmul(sixth_dt, rk4_sum(sa0[k], sa1[k], sa2[k], sa3[k]))),
            },
    ));
    let mut i: usize = 0;
    while i < n
        invariant
            n == bodies@.len(),
            n == b0.len(),
            two == T::spec_one().spec_add(&T::spec_one()),
            sv0 == v0@ && sv1 == v1@ && sv2 == v2@ && sv3 == v3@,
            sa0 == a0@ && sa1 == a1@ && sa2 == a2@ && sa3 == a3@,
            v0@.len() == n && v1@.len() == n && v2@.len() == n && v3@.len() == n,
            a0@.len() == n && a1@.len() == n && a2@.len() == n && a3@.len() == n,
            want == Seq::new(
                n as nat,
                |k: int|
                    Body {
                        m: b0[k].m,
                        r: vadd(b0[k].r, vsmul(sixth_dt, rk4_sum(sv0[k], sv1[k], sv2[k], sv3[k]))),
                        v: vadd(b0[k].v, vsmul(sixth_dt, rk4_sum(sa0[k], sa1[k], sa2[k], sa3[k]))),
                    },
            ),
            i <= n,
            forall|k: int| 0 <= k < i ==> #[trigger] bodies@[k] == want[k],
            forall|k: int| i <= k < n ==> #[trigger] bodies@[k] == b0[k],
        decreases n - i,
    {
        let dr = vector::smul(
            sixth_dt,
            vector::add(
                vector::add(v0[i], vector::smul(two, v1[i])),
                vector::add(vector::smul(two, v2[i]), v3[i]),
            ),
        );
        let dv = vector::smul(
            sixth_dt,
            vector::add(
                vector::add(a0[i], vector::smul(two, a1[i])),
                vector::add(vector::smul(two, a2[i]), a3[i]),
            ),
        );
        let b = bodies[i];
        bodies.set(i, Body { m: b.m, r: vector::add(b.r, dr), v: vector::add(b.v, dv) });
        i = i + 1;
    }
    assert(bodies@ =~= want);
}

/// The bodies with `s * acc[i]` added to each velocity.
pub open spec fn kick_spec<T: Numeral>(b: Seq<Body<T>>, s: T, acc: Seq<[T; 3]>) -> Seq<Body<T>> {
    Seq::new(b.len(), |i: int| Body { m: b[i].m, r: b[i].r, v: vadd(b[i].v, vsmul(s, acc[i])) })
}

/// The bodies with `s` times its velocity added to each position.
pub open spec fn drift_spec<T: Numeral>(b: Seq<Body<T>>, s: T) -> Seq<Body<T>> {
    Seq::new(b.len(), |i: int| Body { m: b[i].m, r: vadd(b[i].r, vsmul(s, b[i].v)), v: b[i].v })
}

/// The bodies after one velocity–Verlet step of size `dt`: half a kick with
/// the accelerations at the start, a full drift, half a kick with the
/// accelerations at the new positions.
pub open spec fn verlet_spec<T: Numeral>(b: Seq<Body<T>>, dt: T, eps2: T) -> Seq<Body<T>> {
    let half_dt = dt.spec_div(&T::spec_one().spec_add(&T::spec_one()));
    let m = masses_spec(b);
    let b1 = kick_spec(b, half_dt, accel_direct(positions_of_bodies(b), m, eps2));
    let b2 = drift_spec(b1, dt);
    kick_spec(b2, half_dt, accel_direct(positions_of_bodies(b2), m, eps2))
}

/// The Yoshida weights `(w1, w2)`: `w1 = 1 / (2 - 2^(1/3))` and
/// `w2 = -2^(1/3) / (2 - 2^(1/3))`.
pub open spec fn yoshida_weights<T: Numeral>() -> (T, T) {
    let one = T::spec_one();
    let two = one.spec_add(&one);
    let three = two.spec_add(&one);
    let cbrt2 = two.spec_powf(&one.spec_div(&three));
    let den = two.spec_sub(&cbrt2);
    (one.spec_div(&den), cbrt2.spec_neg().spec_div(&den))
}

/// The bodies after velocity–Verlet steps of `w1 h`, `w2 h`, `w1 h`.
pub open spec fn sym4_spec<T: Numeral>(b: Seq<Body<T>>, h: T, eps2: T) -> Seq<Body<T>> {
    let (w1, w2) = yoshida_weights::<T>();
    verlet_spec(
        verlet_spec(verlet_spec(b, w1.spec_mul(&h), eps2), w2.spec_mul(&h), eps2),
        w1.spec_mul(&h),
        eps2,
    )
}

/// Adds `s * acc[i]` to the velocity of every body.
fn kick<T: Numeral>(bodies: &mut Vec<Body<T>>, s: T, acc: &[[T; 3]])
    requires
        acc@.len() == old(bodies)@.len(),
    ensures
        final(bodies)@ == kick_spec(old(bodies)@, s, acc@),
{
    let ghost b0 = bodies@;
    let mut i: usize = 0;
    while i < bodies.len()
        invariant
            acc@.len() == bodies@.len(),
            bodies@.len() == b0.len(),
            i <= bodies@.len(),
            forall|k: int| 0 <= k < i ==> #[trigger] bodies@[k] == kick_spec(b0, s, acc@)[k],
            forall|k: int| i <= k < b0.len() ==> #[trigger] bodies@[k] == b0[k],
        decreases bodies@.len() - i,
    {
        let b = bodies[i];
        bodies.set(i, Body { m: b.m, r: b.r, v: vector::add(b.v, vector::smul(s, acc[i])) });
        i = i + 1;
    }
    assert(bodies@ =~= kick_spec(b0, s, acc@));
}

/// Adds `s` times its velocity to the position of every body.
fn drift<T: Numeral>(bodies: &mut Vec<Body<T>>, s: T)
    ensures
        final(bodies)@ == drift_spec(old(bodies)@, s),
{
    let ghost b0 = bodies@;
    let mut i: usize = 0;
    while i < bodies.len()
        invariant
            bodies@.len() == b0.len(),
            i <= bodies@.len(),
            forall|k: int| 0 <= k < i ==> #[trigger] bodies@[k] == drift_spec(b0, s)[k],
            forall|k: int| i <= k < b0.len() ==> #[trigger] bodies@[k] == b0[k],
        decreases bodies@.len() - i,
    {
        let b = bodies[i];
        bodies.set(i, Body { m: b.m, r: vector::add(b.r, vector::smul(s, b.v)), v: b.v });
        i = i + 1;
    }
    assert(bodies@ =~= drift_spec(b0, s));
}

/// One velocity–Verlet step of size `dt` (kick–drift–kick).
pub fn step_velocity_verlet<T: Numeral>(bodies: &mut Vec<Body<T>>, dt: T, eps2: T)
    ensures
        final(bodies)@ == verlet_spec(old(bodies)@, dt, eps2),
{
    let one = T::one();
    let half_dt = dt.div(&one.add(&one));
    let m = masses_of(bodies.as_slice());
    let r0 = positions(bodies.as_slice());
    let a0 = accelerations(r0.as_slice(), m.as_slice(), eps2);
    kick(bodies, half_dt, a0.as_slice());
    drift(bodies, dt);
    let r1 = positions(bodies.as_slice());
    let a1 = accelerations(r1.as_slice(), m.as_slice(), eps2);
    kick(bodies, half_dt, a1.as_slice());
}

/// One fourth-order symmetric step of size `h`: velocity–Verlet steps of
/// `w1 h`, `w2 h`, `w1 h` with the Yoshida weights.
pub fn step_sym4<T: Numeral>(bodies: &mut Vec<Body<T>>, h: T, eps2: T)
    ensures
        final(bodies)@ == sym4_spec(old(bodies)@, h, eps2),
{
    let one = T::one();
    let two = one.add(&one);
    let three = two.add(&one);
    let cbrt2 = two.powf(&one.div(&three));
    let den = two.sub(&cbrt2);
    let w1 = one.div(&den);
    let w2 = cbrt2.neg().div(&den);
    step_velocity_verlet(bodies, w1.mul(&h), eps2);
    step_velocity_verlet(bodies, w2.mul(&h), eps2);
    step_velocity_verlet(bodies, w1.mul(&h), eps2);
}

/// One step of a fixed-step scheme.
pub open spec fn fixed_step_spec<T: Numeral>(
    scheme: FixedScheme,
    b: Seq<Body<T>>,
    dt: T,
    eps2: T,
) -> Seq<Body<T>> {
    match scheme {
        FixedScheme::Rk4 => rk4_spec(b, dt, eps2),
        FixedScheme::Verlet => sym4_spec(b, dt, eps2),
    }
}

fn step_fixed<T: Numeral>(scheme: FixedScheme, bodies: &mut Vec<Body<T>>, dt: T, eps2: T)
    ensures
        final(bodies)@ == fixed_step_spec(scheme, old(bodies)@, dt, eps2),
{
    match scheme {
        FixedScheme::Rk4 => step_rk4(bodies, dt, eps2),
        FixedScheme::Verlet => step_sym4(bodies, dt, eps2),
    }
}

/// The time and the bodies of a fixed-step run after `k` whole steps of
/// `dt`: time zero and the initial bodies, then one step and `+ dt` each.
pub open spec fn fixed_trace<T: Numeral>(
    scheme: FixedScheme,
    b0: Seq<Body<T>>,
    dt: T,
    eps2: T,
    k: nat,
) -> (T, Seq<Body<T>>)
    decreases k,
{
    if k == 0 {
        (T::spec_zero(), b0)
    } else {
        let p = fixed_trace(scheme, b0, dt, eps2, (k - 1) as nat);
        (p.0.spec_add(&dt), fixed_step_spec(scheme, p.1, dt, eps2))
    }
}

proof fn lemma_fixed_trace_len<T: Numeral>(
    scheme: FixedScheme,
    b0: Seq<Body<T>>,
    dt: T,
    eps2: T,
    k: nat,
)
    ensures
        fixed_trace(scheme, b0, dt, eps2, k).1.len() == b0.len(),
    decreases k,
{
    if k > 0 {
        lemma_fixed_trace_len(scheme, b0, dt, eps2, (k - 1) as nat);
    }
}

proof fn lemma_frame_prefix(f: nat, k: int, steps: int)
    requires
        0 <= k < steps,
    ensures
        k * f + f <= steps * f,
        0 <= k * f,
{
    assert(k * f + f <= steps * f) by (nonlinear_arith)
        requires
            0 <= k < steps,
    ;
    assert(0 <= k * f) by (nonlinear_arith)
        requires
            0 <= k,
    ;
}

/// Integrates the bodies from time 0 to `t_end` with `floor(t_end / dt)`
/// whole steps of `dt`, then one final step of the remainder if it is
/// nonzero. Before every whole step the current positions and time are
/// appended to the trajectory.
pub fn evolve_fixed<T: Numeral>(
    scheme: FixedScheme,
    bodies: &mut Vec<Body<T>>,
    t_end: T,
    dt: T,
    eps2: T,
) -> (r: Evolution<T>)
    requires
        6 * old(bodies)@.len() + 1 <= usize::MAX,
    ensures
        r.status == Completion::Reached,
        r.steps == t_end.spec_whole_steps(&dt),
        r.trajectory@.len() == r.steps * (3 * old(bodies)@.len() + 1),
        forall|k: int|
            0 <= k < r.steps ==> #[trigger] frame_at(
                r.trajectory@,
                (3 * old(bodies)@.len() + 1) as nat,
                k,
            ) == frame_of(
                state_of(fixed_trace(scheme, old(bodies)@, dt, eps2, k as nat).1),
                old(bodies)@.len(),
                fixed_trace(scheme, old(bodies)@, dt, eps2, k as nat).0,
            ),
        ({
            let last = fixed_trace(scheme, old(bodies)@, dt, eps2, r.steps as nat);
            let rem = t_end.spec_sub(&last.0);
            if rem.spec_is_zero() {
                r.time_reached == last.0 && final(bodies)@ == last.1
            } else {
                r.time_reached == t_end && final(bodies)@ == fixed_step_spec(
                    scheme,
                    last.1,
                    rem,
                    eps2,
                )
            }
        }),
{
    let n = bodies.len();
    let ghost b0 = bodies@;
    let frame: usize = 3 * n + 1;
    let steps = t_end.whole_steps(&dt);
    let mut t = T::zero();
    let mut result: Vec<T> = Vec::new();
    let mut i: usize = 0;
    while i < steps
        invariant
            n == b0.len(),
            b0 == old(bodies)@,
            6 * n + 1 <= usize::MAX,
            frame == 3 * n + 1,
            i <= steps,
            (t, bodies@) == fixed_trace(scheme, b0, dt, eps2, i as nat),
            n == bodies@.len(),
            result@.len() == i * frame,
            forall|k: int|
                0 <= k < i ==> #[trigger] frame_at(result@, frame as nat, k) == frame_of(
                    state_of(fixed_trace(scheme, b0, dt, eps2, k as nat).1),
                    n as nat,
                    fixed_trace(scheme, b0, dt, eps2, k as nat).0,
                ),
        decreases steps - i,
    {
        let y = pack_state(bodies.as_slice());
        let ghost before = result@;
        push_sample(&mut result, y.as_slice(), t, n);
        assert((i + 1) * frame == i * frame + frame) by (nonlinear_arith);
        proof {
            assert forall|k: int| 0 <= k < i + 1 implies #[trigger] frame_at(
                result@,
                frame as nat,
                k,
            ) == frame_of(
                state_of(fixed_trace(scheme, b0, dt, eps2, k as nat).1),
                n as nat,
                fixed_trace(scheme, b0, dt, eps2, k as nat).0,
            ) by {
                if k < i {
                    lemma_frame_prefix(frame as nat, k, i as int);
                    assert(frame_at(result@, frame as nat, k) =~= frame_at(before, frame as nat, k));
                } else {
                    assert(frame_at(result@, frame as nat, k) =~= frame_of(y@, n as nat, t));
                }
            }
        }
        step_fixed(scheme, bodies, dt, eps2);
        t = t.add(&dt);
        i = i + 1;
        proof {
            lemma_fixed_trace_len(scheme, b0, dt, eps2, i as nat);
        }
    }
    let rem = t_end.sub(&t);
    if !rem.is_zero() {
        step_fixed(scheme, bodies, rem, eps2);
        t = t_end;
    }
    Evolution { trajectory: result, time_reached: t, status: Completion::Reached, steps }
}

} // verus!
