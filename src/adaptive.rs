use vstd::prelude::*;

use crate::body::{
    lemma_unpack_after_pack, pack_state, state_of, unpack_state, unpacked_from, Body,
};
use crate::kernel::{deriv, deriv_spec, error_norm, error_norm_spec, saxpy_into, saxpy_spec};
use crate::numeral::{clamp, clamp_spec, copy_of, filled, Numeral};
use crate::trajectory::{frame_of, push_sample};

verus! {

/// How a trial step estimates its local error.
pub enum ErrorEstimate<T> {
    /// `err = h * sum_i e[i] * k_i`, with `e` the difference between the
    /// high-order weights and the embedded low-order ones.
    Embedded(Vec<T>),
    /// `err = scale * h * (k_first - k_second)`, from two stage derivatives.
    StageDifference { first: usize, second: usize, scale: T },
}

/// The Butcher tableau of an explicit embedded Runge–Kutta scheme with
/// `b.len()` stages: stage `i` combines the derivatives of the stages before
/// it with the weights `a[i]`, and `b` weights the high-order solution.
pub struct Tableau<T> {
    pub a: Vec<Vec<T>>,
    pub b: Vec<T>,
    pub error: ErrorEstimate<T>,
}

impl<T> Tableau<T> {
    /// The number of stages.
    pub open spec fn stages(&self) -> nat {
        self.b@.len()
    }

    /// The tableau is explicit (row `i` of `a` has exactly `i` weights) and
    /// its error estimate refers to existing stages.
    pub open spec fn wf(&self) -> bool {
        &&& self.stages() >= 1
        &&& self.a@.len() == self.stages()
        &&& forall|i: int| 0 <= i < self.a@.len() ==> #[trigger] self.a@[i]@.len() == i
        &&& match self.error {
            ErrorEstimate::Embedded(e) => e@.len() == self.stages(),
            ErrorEstimate::StageDifference { first, second, .. } => first < self.stages()
                && second < self.stages(),
        }
    }
}

/// Tolerances and step-size controller settings of one adaptive run.
pub struct Controller<T> {
    pub rtol: T,
    pub atol: T,
    /// Safety factor applied to the optimal step-size factor.
    pub safety: T,
    /// Bounds of the step-size factor after an accepted step.
    pub fac_min: T,
    pub fac_max: T,
    /// Bounds of the step-size factor after a rejected step.
    pub shrink_min: T,
    pub shrink_max: T,
    /// `1 / (order + 1)`.
    pub exponent: T,
    /// The first step is this fraction of the interval...
    pub initial_fraction: T,
    /// ...of an interval taken at least this long.
    pub initial_floor: T,
    /// A step whose magnitude falls below this ends the run.
    pub h_min: T,
    /// Plummer softening squared.
    pub eps2: T,
    /// Sum the forces once per pair of bodies rather than once per body.
    pub pairwise: bool,
    /// The most trial steps one run makes.
    pub max_steps: usize,
}

/// The fate of one trial step.
#[derive(Clone, Copy, Debug, PartialEq, Eq, Structural)]
pub enum Verdict {
    Accept,
    Reject,
}

/// Why a run stopped.
#[derive(Clone, Copy, Debug, PartialEq, Eq, Structural)]
pub enum Completion {
    /// The run reached the end time.
    Reached,
    /// The step size fell below the controller's minimum.
    StepUnderflow,
    /// The run used up its budget of trial steps.
    StepLimit,
}

/// What a run returns: the trajectory (one frame per recorded step: the
/// positions of every body, then the time), the time reached, why the run
/// stopped and how many steps it recorded.
pub struct Evolution<T> {
    pub trajectory: Vec<T>,
    pub time_reached: T,
    pub status: Completion,
    pub steps: usize,
}

/// Commits or discards a trial step. The step is accepted exactly when its
/// error norm is within tolerance (`within`) or the run already stands at or
/// past its end (`at_end`). An accepted step moves the time to `t_advanced`
/// (the time plus the step size tried) and the state to `y_trial`; a rejected
/// one leaves time and state as they were.
pub fn settle<T: Copy>(
    t: &mut T,
    y: &mut Vec<T>,
    y_trial: Vec<T>,
    t_advanced: T,
    within: bool,
    at_end: bool,
) -> (v: Verdict)
    ensures
        (v == Verdict::Accept) == (within || at_end),
        v == Verdict::Accept ==> *final(t) == t_advanced && final(y)@ == y_trial@,
        v == Verdict::Reject ==> *final(t) == *old(t) && final(y)@ == old(y)@,
{
    if within || at_end {
        *t = t_advanced;
        *y = y_trial;
        Verdict::Accept
    } else {
        Verdict::Reject
    }
}

/// The step-size factor `safety * norm^(-exponent)` limited to `[lo, hi]`.
pub open spec fn step_factor<T: Numeral>(norm: T, ctl: Controller<T>, lo: T, hi: T) -> T {
    clamp_spec(ctl.safety.spec_mul(&norm.spec_powf(&ctl.exponent.spec_neg())), lo, hi)
}

/// The step size after a trial of step `h` with error norm `norm`.
pub open spec fn next_step_spec<T: Numeral>(h: T, norm: T, verdict: Verdict, ctl: Controller<T>) -> T {
    let fac = match verdict {
        Verdict::Accept => if norm.spec_is_zero() {
            ctl.fac_max
        } else {
            step_factor(norm, ctl, ctl.fac_min, ctl.fac_max)
        },
        Verdict::Reject => step_factor(norm, ctl, ctl.shrink_min, ctl.shrink_max),
    };
    h.spec_mul(&fac)
}

/// The step size after a trial of step `h` with error norm `norm`: after an
/// accepted step it grows by `safety * norm^(-exponent)` limited to
/// `[fac_min, fac_max]` (by `fac_max` when the norm is zero); after a
/// rejected one it shrinks by the same factor limited to
/// `[shrink_min, shrink_max]`.
pub fn next_step_size<T: Numeral>(h: T, norm: T, verdict: Verdict, ctl: &Controller<T>) -> (r: T)
    ensures
        r == next_step_spec(h, norm, verdict, *ctl),
{
    let fac = match verdict {
        Verdict::Accept => if norm.is_zero() {
            ctl.fac_max
        } else {
            clamp(ctl.safety.mul(&norm.powf(&ctl.exponent.neg())), ctl.fac_min, ctl.fac_max)
        },
        Verdict::Reject => clamp(
            ctl.safety.mul(&norm.powf(&ctl.exponent.neg())),
            ctl.shrink_min,
            ctl.shrink_max,
        ),
    };
    h.mul(&fac)
}

/// Whether time `t` stands at or past `t_end` in the direction of travel.
pub open spec fn reached_spec<T: Numeral>(t: T, t_end: T, forward: bool) -> bool {
    if forward {
        t_end.spec_le(&t)
    } else {
        t.spec_le(&t_end)
    }
}

/// Whether time `t` stands at or past `t_end` in the direction of travel.
pub fn reached<T: Numeral>(t: T, t_end: T, forward: bool) -> (r: bool)
    ensures
        r == reached_spec(t, t_end, forward),
{
    if forward {
        t_end.le(&t)
    } else {
        t.le(&t_end)
    }
}

/// The first step of a run from 0 to `t_end` and whether the run goes
/// forward in time (`0 <= t_end`).
pub open spec fn initial_step_spec<T: Numeral>(t_end: T, ctl: Controller<T>) -> (T, bool) {
    let forward = T::spec_zero().spec_le(&t_end);
    let span = t_end.spec_abs();
    let h = span.spec_max(&ctl.initial_floor).spec_mul(&ctl.initial_fraction).spec_min(&span);
    if forward {
        (h, true)
    } else {
        (h.spec_neg(), false)
    }
}

/// The first step of a run from 0 to `t_end`, and whether the run goes
/// forward in time: a fraction of the interval (taken at least
/// `initial_floor` long), never longer than the interval, signed in the
/// direction of travel.
pub fn initial_step<T: Numeral>(t_end: T, ctl: &Controller<T>) -> (r: (T, bool))
    ensures
        r == initial_step_spec(t_end, *ctl),
{
    let forward = T::zero().le(&t_end);
    let span = t_end.abs();
    let h = span.max(&ctl.initial_floor).mul(&ctl.initial_fraction).min(&span);
    if forward {
        (h, true)
    } else {
        (h.neg(), false)
    }
}

/// `base + sum_{j < upto, w[j] != 0} (h w[j]) k_j`, added stage by stage.
pub open spec fn combine<T: Numeral>(
    base: Seq<T>,
    h: T,
    w: Seq<T>,
    ks: Seq<Seq<T>>,
    upto: int,
) -> Seq<T>
    decreases upto,
{
    if upto <= 0 {
        base
    } else {
        let prev = combine(base, h, w, ks, upto - 1);
        if w[upto - 1].spec_is_zero() {
            prev
        } else {
            saxpy_spec(prev, h.spec_mul(&w[upto - 1]), ks[upto - 1])
        }
    }
}

/// The first `i` stage derivatives of a trial step of size `h` from `y`:
/// stage `j` is the derivative at `y` combined with the stages before it by
/// row `j` of the tableau.
pub open spec fn stages<T: Numeral>(
    y: Seq<T>,
    h: T,
    masses: Seq<T>,
    tab: Tableau<T>,
    ctl: Controller<T>,
    i: nat,
) -> Seq<Seq<T>>
    decreases i,
{
    if i == 0 {
        Seq::empty()
    } else {
        let ks = stages(y, h, masses, tab, ctl, (i - 1) as nat);
        ks.push(
            deriv_spec(
                combine(y, h, tab.a@[i - 1]@, ks, i - 1),
                masses,
                ctl.eps2,
                ctl.pairwise,
            ),
        )
    }
}

proof fn lemma_stages_len<T: Numeral>(
    y: Seq<T>,
    h: T,
    masses: Seq<T>,
    tab: Tableau<T>,
    ctl: Controller<T>,
    i: nat,
)
    ensures
        stages(y, h, masses, tab, ctl, i).len() == i,
    decreases i,
{
    if i > 0 {
        lemma_stages_len(y, h, masses, tab, ctl, (i - 1) as nat);
    }
}

/// The error vector of a trial step with stages `ks`.
pub open spec fn error_vector<T: Numeral>(n: nat, h: T, ks: Seq<Seq<T>>, tab: Tableau<T>) -> Seq<T> {
    match tab.error {
        ErrorEstimate::Embedded(e) => combine(
            Seq::new(n, |_m: int| T::spec_zero()),
            h,
            e@,
            ks,
            tab.stages() as int,
        ),
        ErrorEstimate::StageDifference { first, second, scale } => Seq::new(
            n,
            |m: int|
                scale.spec_mul(&h.spec_mul(&ks[first as int][m].spec_sub(&ks[second as int][m]))),
        ),
    }
}

/// A trial step of size `h` from `y`: the high-order solution
/// `y + h * sum_i b[i] k_i` and the weighted RMS norm of its error estimate.
pub open spec fn trial_spec<T: Numeral>(
    y: Seq<T>,
    h: T,
    masses: Seq<T>,
    tab: Tableau<T>,
    ctl: Controller<T>,
) -> (Seq<T>, T) {
    let ks = stages(y, h, masses, tab, ctl, tab.stages());
    let y_high = combine(y, h, tab.b@, ks, tab.stages() as int);
    let errv = error_vector(y.len(), h, ks, tab);
    (y_high, error_norm_spec(errv, y, y_high, ctl.rtol, ctl.atol))
}

/// One trial step of size `h` from the state `y`: the stage derivatives, the
/// high-order solution `y + h * sum_i b[i] k_i`, and the weighted RMS norm of
/// the error estimate.
pub fn trial_step<T: Numeral>(
    y: &[T],
    h: T,
    masses: &[T],
    tab: &Tableau<T>,
    ctl: &Controller<T>,
) -> (r: (Vec<T>, T))
    requires
        tab.wf(),
        y@.len() == 6 * masses@.len(),
    ensures
        r.0@.len() == y@.len(),
        (r.0@, r.1) == trial_spec(y@, h, masses@, *tab, *ctl),
{
    let n = y.len();
    let s = tab.b.len();
    let ghost spec_tab = *tab;
    let ghost spec_ctl = *ctl;
    let mut k: Vec<Vec<T>> = Vec::new();
    let mut i: usize = 0;
    while i < s
        invariant
            tab.wf(),
            spec_tab == *tab,
            spec_ctl == *ctl,
            s == tab.stages(),
            n == y@.len(),
            y@.len() == 6 * masses@.len(),
            i <= s,
            k@.len() == i,
            forall|j: int| 0 <= j < i ==> #[trigger] k@[j]@.len() == n,
            forall|j: int|
                0 <= j < i ==> #[trigger] k@[j]@ == stages(y@, h, masses@, spec_tab, spec_ctl, i as nat)[j],
        decreases s - i,
    {
        let ghost ks = stages(y@, h, masses@, spec_tab, spec_ctl, i as nat);
        proof {
            lemma_stages_len(y@, h, masses@, spec_tab, spec_ctl, i as nat);
        }
        let row = &tab.a[i];
        let mut ytmp = copy_of(y);
        let mut j: usize = 0;
        while j < i
            invariant
                tab.wf(),
                s == tab.stages(),
                i < s,
                row@ == tab.a@[i as int]@,
                row@.len() == i,
                k@.len() == i,
                forall|q: int| 0 <= q < i ==> #[trigger] k@[q]@.len() == n,
                forall|q: int| 0 <= q < i ==> #[trigger] k@[q]@ == ks[q],
                ytmp@.len() == n,
                ytmp@ == combine(y@, h, row@, ks, j as int),
                j <= i,
            decreases i - j,
        {
            let aij = row[j];
            if !aij.is_zero() {
                saxpy_into(&mut ytmp, h.mul(&aij), k[j].as_slice());
            }
            j = j + 1;
        }
        let kd = deriv(ytmp.as_slice(), masses, ctl.eps2, ctl.pairwise);
        k.push(kd);
        proof {
            let ks1 = stages(y@, h, masses@, spec_tab, spec_ctl, (i + 1) as nat);
            assert(ks1 == ks.push(kd@));
            assert forall|q: int| 0 <= q < i + 1 implies #[trigger] k@[q]@ == ks1[q] by {
            }
        }
        i = i + 1;
    }
    let ghost ks = stages(y@, h, masses@, spec_tab, spec_ctl, s as nat);
    proof {
        lemma_stages_len(y@, h, masses@, spec_tab, spec_ctl, s as nat);
    }
    let mut y_high = copy_of(y);
    let mut i: usize = 0;
    while i < s
        invariant
            s == tab.stages(),
            k@.len() == s,
            forall|j: int| 0 <= j < s ==> #[trigger] k@[j]@.len() == n,
            forall|j: int| 0 <= j < s ==> #[trigger] k@[j]@ == ks[j],
            y_high@.len() == n,
            y_high@ == combine(y@, h, tab.b@, ks, i as int),
            i <= s,
        decreases s - i,
    {
        let bi = tab.b[i];
        if !bi.is_zero() {
            saxpy_into(&mut y_high, h.mul(&bi), k[i].as_slice());
        }
        i = i + 1;
    }
    let errv = match &tab.error {
        ErrorEstimate::Embedded(e) => {
            let mut errv = filled(T::zero(), n);
            let mut i: usize = 0;
            while i < s
                invariant
                    s == tab.stages(),
                    e@.len() == s,
                    k@.len() == s,
                    forall|j: int| 0 <= j < s ==> #[trigger] k@[j]@.len() == n,
                    forall|j: int| 0 <= j < s ==> #[trigger] k@[j]@ == ks[j],
                    errv@.len() == n,
                    errv@ == combine(Seq::new(n as nat, |_m: int| T::spec_zero()), h, e@, ks, i as int),
                    i <= s,
                decreases s - i,
            {
                let ei = e[i];
                if !ei.is_zero() {
                    saxpy_into(&mut errv, h.mul(&ei), k[i].as_slice());
                }
                i = i + 1;
            }
            errv
        },
        ErrorEstimate::StageDifference { first, second, scale } => {
            let k1 = &k[*first];
            let k2 = &k[*second];
            let mut errv: Vec<T> = Vec::new();
            let mut m: usize = 0;
            while m < n
                invariant
                    k1@.len() == n,
                    k2@.len() == n,
                    errv@.len() == m,
                    m <= n,
                    forall|q: int|
                        0 <= q < m ==> #[trigger] errv@[q] == scale.spec_mul(
                            &h.spec_mul(&k1@[q].spec_sub(&k2@[q])),
                        ),
                decreases n - m,
            {
                errv.push(scale.mul(&h.mul(&k1[m].sub(&k2[m]))));
                m = m + 1;
            }
            errv
        },
    };
    assert(errv@ =~= error_vector(n as nat, h, ks, spec_tab));
    let norm = error_norm(errv.as_slice(), y, y_high.as_slice(), ctl.rtol, ctl.atol);
    (y_high, norm)
}


/// The masses of the bodies, in order.
pub open spec fn masses_spec<T>(bodies: Seq<Body<T>>) -> Seq<T> {
    Seq::new(bodies.len(), |i: int| bodies[i].m)
}

/// The masses of the bodies, in order.
pub fn masses_of<T: Copy>(bodies: &[Body<T>]) -> (m: Vec<T>)
    ensures
        m@ == masses_spec(bodies@),
{
    let mut m: Vec<T> = Vec::new();
    let mut i: usize = 0;
    while i < bodies.len()
        invariant
            i <= bodies@.len(),
            m@ == masses_spec(bodies@).subrange(0, i as int),
        decreases bodies@.len() - i,
    {
        m.push(bodies[i].m);
        i = i + 1;
        assert(m@ =~= masses_spec(bodies@).subrange(0, i as int));
    }
    assert(m@ =~= masses_spec(bodies@));
    m
}

/// One half, as `1 / (1 + 1)`.
pub open spec fn spec_half<T: Numeral>() -> T {
    T::spec_one().spec_div(&T::spec_one().spec_add(&T::spec_one()))
}

/// The step a trial from time `t` with step `h` tries: the remaining
/// interval when that is less than half a step or the run stands at or past
/// its end, else `h`.
pub open spec fn clamped_step<T: Numeral>(t: T, h: T, t_end: T, forward: bool) -> T {
    let remaining = t_end.spec_sub(&t);
    if remaining.spec_abs().spec_lt(&h.spec_abs().spec_mul(&spec_half::<T>())) || reached_spec(
        t,
        t_end,
        forward,
    ) {
        remaining
    } else {
        h
    }
}

/// The verdict on a trial from time `t` whose error norm is `norm`.
pub open spec fn verdict_spec<T: Numeral>(t: T, norm: T, t_end: T, forward: bool) -> Verdict {
    if norm.spec_le(&T::spec_one()) || reached_spec(t, t_end, forward) {
        Verdict::Accept
    } else {
        Verdict::Reject
    }
}

/// The run's `(time, step size, state)` after one trial from `s`: the trial
/// tries the clamped step; an accepted trial moves to the time plus that
/// step and the trial's state, a rejected one keeps time and state; the step
/// size is then resized.
pub open spec fn advance<T: Numeral>(
    s: (T, T, Seq<T>),
    masses: Seq<T>,
    t_end: T,
    forward: bool,
    tab: Tableau<T>,
    ctl: Controller<T>,
) -> (T, T, Seq<T>) {
    let hc = clamped_step(s.0, s.1, t_end, forward);
    let trial = trial_spec(s.2, hc, masses, tab, ctl);
    let v = verdict_spec(s.0, trial.1, t_end, forward);
    let h_next = next_step_spec(hc, trial.1, v, ctl);
    if v == Verdict::Accept {
        (s.0.spec_add(&hc), h_next, trial.0)
    } else {
        (s.0, h_next, s.2)
    }
}

/// The `(time, step size, state)` of an adaptive run from `bodies` towards
/// `t_end` before trial `k`: time zero, the initial step and the packed
/// bodies, then one `advance` per trial.
pub open spec fn run_trace<T: Numeral>(
    bodies: Seq<Body<T>>,
    t_end: T,
    tab: Tableau<T>,
    ctl: Controller<T>,
    k: nat,
) -> (T, T, Seq<T>)
    decreases k,
{
    if k == 0 {
        (T::spec_zero(), initial_step_spec(t_end, ctl).0, state_of(bodies))
    } else {
        advance(
            run_trace(bodies, t_end, tab, ctl, (k - 1) as nat),
            masses_spec(bodies),
            t_end,
            initial_step_spec(t_end, ctl).1,
            tab,
            ctl,
        )
    }
}

/// Frame `k` of a trajectory of frames of `f` entries.
pub open spec fn frame_at<T>(traj: Seq<T>, f: nat, k: int) -> Seq<T> {
    traj.subrange(k * f, k * f + f)
}

/// A trial that is rejected (error norm above one and the run not yet at
/// its end) leaves the time and the state for the next frame as they were;
/// any other trial advances the time by exactly the step it tried and takes
/// the trial's state.
pub proof fn lemma_trial_outcome<T: Numeral>(
    bodies: Seq<Body<T>>,
    t_end: T,
    tab: Tableau<T>,
    ctl: Controller<T>,
    k: nat,
)
    ensures
        ({
            let s = run_trace(bodies, t_end, tab, ctl, k);
            let s1 = run_trace(bodies, t_end, tab, ctl, k + 1);
            let forward = initial_step_spec(t_end, ctl).1;
            let hc = clamped_step(s.0, s.1, t_end, forward);
            let trial = trial_spec(s.2, hc, masses_spec(bodies), tab, ctl);
            if !trial.1.spec_le(&T::spec_one()) && !reached_spec(s.0, t_end, forward) {
                s1.0 == s.0 && s1.2 == s.2
            } else {
                s1.0 == s.0.spec_add(&hc) && s1.2 == trial.0
            }
        }),
{
}

proof fn lemma_frame_prefix(f: nat, k: int, steps: int)
    requires
        0 <= k < steps,
    ensures
        k * f + f <= steps * f,
        0 <= k * f,
{
    assert(k * f + f <= steps * f) by (nonlinear_arith)
        requires
            0 <= k < steps,
    ;
    assert(0 <= k * f) by (nonlinear_arith)
        requires
            0 <= k,
    ;
}

/// Integrates the bodies from time 0 to `t_end` with the embedded scheme
/// `tab` under the step controller `ctl`.
///
/// Before every trial step the current positions and time are appended to the
/// trajectory. A step that would end within half a step of `t_end`, or a run
/// that stands at or past `t_end`, is clamped to land on `t_end`. Accepted
/// steps advance time and state (see `settle`); rejected ones retry from the
/// same time and state with a smaller step (see `next_step_size`). The run
/// stops when the time equals `t_end`, when the step size underflows
/// `h_min`, or after `max_steps` trial steps, and says which in `status`.
/// The bodies are written once, at the end: positions and velocities from
/// the final state, masses kept.
pub fn evolve_adaptive<T: Numeral>(
    bodies: &mut Vec<Body<T>>,
    t_end: T,
    tab: &Tableau<T>,
    ctl: &Controller<T>,
) -> (r: Evolution<T>)
    requires
        tab.wf(),
        6 * old(bodies)@.len() + 1 <= usize::MAX,
    ensures
        r.steps <= ctl.max_steps,
        r.trajectory@.len() == r.steps * (3 * old(bodies)@.len() + 1),
        forall|k: int|
            0 <= k < r.steps ==> #[trigger] frame_at(
                r.trajectory@,
                (3 * old(bodies)@.len() + 1) as nat,
                k,
            ) == frame_of(
                run_trace(old(bodies)@, t_end, *tab, *ctl, k as nat).2,
                old(bodies)@.len(),
                run_trace(old(bodies)@, t_end, *tab, *ctl, k as nat).0,
            ),
        forall|k: int|
            0 <= k < r.steps ==> !#[trigger] run_trace(
                old(bodies)@,
                t_end,
                *tab,
                *ctl,
                k as nat,
            ).0.spec_sub(&t_end).spec_is_zero(),
        r.time_reached == run_trace(old(bodies)@, t_end, *tab, *ctl, r.steps as nat).0,
        unpacked_from(
            old(bodies)@,
            final(bodies)@,
            run_trace(old(bodies)@, t_end, *tab, *ctl, r.steps as nat).2,
        ),
        (r.status == Completion::Reached) == r.time_reached.spec_sub(&t_end).spec_is_zero(),
        r.status == Completion::StepLimit ==> r.steps == ctl.max_steps,
        r.status == Completion::StepUnderflow ==> r.steps > 0 && run_trace(
            old(bodies)@,
            t_end,
            *tab,
            *ctl,
            r.steps as nat,
        ).1.spec_abs().spec_lt(&ctl.h_min),
        r.steps == 0 ==> (T::spec_zero().spec_sub(&t_end).spec_is_zero() || ctl.max_steps == 0),
        r.steps == 0 ==> final(bodies)@ == old(bodies)@,
{
    let n = bodies.len();
    let ghost b0 = bodies@;
    let ghost stab = *tab;
    let ghost sctl = *ctl;
    let masses = masses_of(bodies.as_slice());
    let mut y = pack_state(bodies.as_slice());
    let mut t = T::zero();
    let (h0, forward) = initial_step(t_end, ctl);
    let mut h = h0;
    let one = T::one();
    let half = one.div(&one.add(&one));
    let frame: usize = 3 * n + 1;
    let mut result: Vec<T> = Vec::new();
    let mut steps: usize = 0;
    loop
        invariant
            tab.wf(),
            stab == *tab,
            sctl == *ctl,
            n == bodies@.len(),
            bodies@ == b0,
            b0 == old(bodies)@,
            6 * n + 1 <= usize::MAX,
            frame == 3 * n + 1,
            masses@ == masses_spec(b0),
            masses@.len() == n,
            forward == initial_step_spec(t_end, sctl).1,
            one == T::spec_one(),
            half == spec_half::<T>(),
            y@.len() == 6 * n,
            steps <= ctl.max_steps,
            (t, h, y@) == run_trace(b0, t_end, stab, sctl, steps as nat),
            result@.len() == steps * frame,
            forall|k: int|
                0 <= k < steps ==> #[trigger] frame_at(result@, frame as nat, k) == frame_of(
                    run_trace(b0, t_end, stab, sctl, k as nat).2,
                    n as nat,
                    run_trace(b0, t_end, stab, sctl, k as nat).0,
                ),
            forall|k: int|
                0 <= k < steps ==> !#[trigger] run_trace(
                    b0,
                    t_end,
                    stab,
                    sctl,
                    k as nat,
                ).0.spec_sub(&t_end).spec_is_zero(),
        ensures
            t.spec_sub(&t_end).spec_is_zero() || steps == ctl.max_steps || (steps > 0
                && h.spec_abs().spec_lt(&ctl.h_min)),
        decreases ctl.max_steps - steps,
    {
        if t.sub(&t_end).is_zero() {
            break;
        }
        if steps >= ctl.max_steps {
            break;
        }
        if steps > 0 && h.abs().lt(&ctl.h_min) {
            break;
        }
        let ghost before = result@;
        let ghost s = run_trace(b0, t_end, stab, sctl, steps as nat);
        push_sample(&mut result, y.as_slice(), t, n);
        assert((steps + 1) * frame == steps * frame + frame) by (nonlinear_arith);
        proof {
            assert forall|k: int| 0 <= k < steps + 1 implies #[trigger] frame_at(
                result@,
                frame as nat,
                k,
            ) == frame_of(
                run_trace(b0, t_end, stab, sctl, k as nat).2,
                n as nat,
                run_trace(b0, t_end, stab, sctl, k as nat).0,
            ) by {
                if k < steps {
                    lemma_frame_prefix(frame as nat, k, steps as int);
                    assert(frame_at(result@, frame as nat, k) =~= frame_at(before, frame as nat, k));
                } else {
                    assert(frame_at(result@, frame as nat, k) =~= frame_of(y@, n as nat, t));
                }
            }
        }
        let remaining = t_end.sub(&t);
        if remaining.abs().lt(&h.abs().mul(&half)) || reached(t, t_end, forward) {
            h = remaining;
        }
        let (y_trial, norm) = trial_step(y.as_slice(), h, masses.as_slice(), tab, ctl);
        let within = norm.le(&one);
        let at_end = reached(t, t_end, forward);
        let t_advanced = t.add(&h);
        let verdict = settle(&mut t, &mut y, y_trial, t_advanced, within, at_end);
        h = next_step_size(h, norm, verdict, ctl);
        steps = steps + 1;
        assert((t, h, y@) == advance(s, masses_spec(b0), t_end, forward, stab, sctl));
    }
    let status = if t.sub(&t_end).is_zero() {
        Completion::Reached
    } else if steps >= ctl.max_steps {
        Completion::StepLimit
    } else {
        Completion::StepUnderflow
    };
    unpack_state(y.as_slice(), bodies);
    proof {
        if steps == 0 {
            lemma_unpack_after_pack(b0, bodies@);
        }
    }
    Evolution { trajectory: result, time_reached: t, status, steps }
}

} // verus!
