use three_body::vector;
use three_body::{
    accelerations, accelerations_pairwise, clamp, deriv, error_norm, evolve_adaptive, evolve_fixed, initial_step,
    next_step_size, saxpy_into, settle, step_rk4, step_sym4, total_angular_momentum,
    total_energy, trial_step, Body, Completion, Controller, ErrorEstimate, FixedScheme, Numeral,
    Tableau, Verdict,
};

/// Native floating point as a numeral.
#[derive(Clone, Copy, Debug, PartialEq)]
struct F(f64);

impl Numeral for F {
    // The named operations are the operations themselves.
    fn spec_zero() -> Self {
        Self::zero()
    }
    fn spec_one() -> Self {
        Self::one()
    }
    fn spec_from_count(n: usize) -> Self {
        Self::from_count(n)
    }
    fn spec_add(&self, o: &Self) -> Self {
        Numeral::add(self, o)
    }
    fn spec_sub(&self, o: &Self) -> Self {
        Numeral::sub(self, o)
    }
    fn spec_mul(&self, o: &Self) -> Self {
        Numeral::mul(self, o)
    }
    fn spec_div(&self, o: &Self) -> Self {
        Numeral::div(self, o)
    }
    fn spec_neg(&self) -> Self {
        Numeral::neg(self)
    }
    fn spec_abs(&self) -> Self {
        Numeral::abs(self)
    }
    fn spec_sqrt(&self) -> Self {
        Numeral::sqrt(self)
    }
    fn spec_recip(&self) -> Self {
        Numeral::recip(self)
    }
    fn spec_powf(&self, e: &Self) -> Self {
        Numeral::powf(self, e)
    }
    fn spec_min(&self, o: &Self) -> Self {
        Numeral::min(self, o)
    }
    fn spec_max(&self, o: &Self) -> Self {
        Numeral::max(self, o)
    }
    fn spec_lt(&self, o: &Self) -> bool {
        Numeral::lt(self, o)
    }
    fn spec_le(&self, o: &Self) -> bool {
        Numeral::le(self, o)
    }
    fn spec_is_zero(&self) -> bool {
        Numeral::is_zero(self)
    }
    fn spec_whole_steps(&self, dt: &Self) -> usize {
        Numeral::whole_steps(self, dt)
    }
    fn zero() -> Self {
        F(0.0)
    }
    fn one() -> Self {
        F(1.0)
    }
    fn from_count(n: usize) -> Self {
        F(n as f64)
    }
    fn add(&self, o: &Self) -> Self {
        F(self.0 + o.0)
    }
    fn sub(&self, o: &Self) -> Self {
        F(self.0 - o.0)
    }
    fn mul(&self, o: &Self) -> Self {
        F(self.0 * o.0)
    }
    fn div(&self, o: &Self) -> Self {
        F(self.0 / o.0)
    }
    fn neg(&self) -> Self {
        F(-self.0)
    }
    fn abs(&self) -> Self {
        F(self.0.abs())
    }
    fn sqrt(&self) -> Self {
        F(self.0.sqrt())
    }
    fn recip(&self) -> Self {
        F(1.0 / self.0)
    }
    fn powf(&self, e: &Self) -> Self {
        F(self.0.powf(e.0))
    }
    fn min(&self, o: &Self) -> Self {
        F(self.0.min(o.0))
    }
    fn max(&self, o: &Self) -> Self {
        F(self.0.max(o.0))
    }
    fn lt(&self, o: &Self) -> bool {
        self.0 < o.0
    }
    fn le(&self, o: &Self) -> bool {
        self.0 <= o.0
    }
    fn is_zero(&self) -> bool {
        self.0 == 0.0
    }
    fn whole_steps(&self, dt: &Self) -> usize {
        (self.0 / dt.0).floor() as usize
    }
}

/// Stage weights of DOP853, one row per stage after the first.
const DOP853_A: [&[f64]; 11] = [
    &[5.26001519587677318785587544488E-2],
    &[1.97250569845378994544595329183E-2, 5.91751709536136983633785987549E-2],
    &[2.95875854768068491816892993775E-2, 0.0, 8.87627564304205475450678981324E-2],
    &[2.41365134159266685502369798665E-1, 0.0, -8.84549479328286085344864962717E-1, 9.24834003261792003115737966543E-1],
    &[3.70370370370370370370370370370E-2, 0.0, 0.0, 1.70828608729473871279604482173E-1, 1.25467687566822425016691814123E-1],
    &[3.7109375E-2, 0.0, 0.0, 1.70252211019544039314978060272E-1, 6.02165389804559606850219397283E-2, -1.7578125E-2],
    &[3.70920001185047927108779319836E-2, 0.0, 0.0, 1.70383925712239993810214054705E-1, 1.07262030446373284651809199168E-1, -1.53194377486244017527936158236E-2, 8.27378916381402288758473766002E-3],
    &[6.24110958716075717114429577812E-1, 0.0, 0.0, -3.36089262944694129406857109825E0, -8.68219346841726006818189891453E-1, 2.75920996994467083049415600797E1, 2.01540675504778934086186788979E1, -4.34898841810699588477366255144E1],
    &[4.77662536438264365890433908527E-1, 0.0, 0.0, -2.48811461997166764192642586468E0, -5.90290826836842996371446475743E-1, 2.12300514481811942347288949897E1, 1.52792336328824235832596922938E1, -3.32882109689848629194453265587E1, -2.03312017085086261358222928593E-2],
    &[-9.3714243008598732571704021658E-1, 0.0, 0.0, 5.18637242884406370830023853209E0, 1.09143734899672957818500254654E0, -8.14978701074692612513997267357E0, -1.85200656599969598641566180701E1, 2.27394870993505042818970056734E1, 2.49360555267965238987089396762E0, -3.0467644718982195003823669022E0],
    &[2.27331014751653820792359768449E0, 0.0, 0.0, -1.05344954667372501984066689879E1, -2.00087205822486249909675718444E0, -1.79589318631187989172765950534E1, 2.79488845294199600508499808837E1, -2.85899827713502369474065508674E0, -8.87285693353062954433549289258E0, 1.23605671757943030647266201528E1, 6.43392746015763530355970484046E-1],
];

/// Eighth-order weights of DOP853.
const DOP853_B: [f64; 12] = [5.42937341165687622380535766363E-2, 0.0, 0.0, 0.0, 0.0, 4.45031289275240888144113950566E0, 1.89151789931450038304281599044E0, -5.8012039600105847814672114227E0, 3.1116436695781989440891606237E-1, -1.52160949662516078556178806805E-1, 2.01365400804030348374776537501E-1, 4.47106157277725905176885569043E-2];

/// Difference between the eighth-order weights and the embedded fifth-order ones.
const DOP853_E: [f64; 12] = [0.1312004499419488073250102996E-01, 0.0, 0.0, 0.0, 0.0, -0.1225156446376204440720569753E+01, -0.4957589496572501915214079952E+00, 0.1664377182454986536961530415E+01, -0.3503288487499736816886487290E+00, 0.3341791187130174790297318841E+00, 0.8192320648511571246570742613E-01, -0.2235530786388629525884427845E-01];


fn dop853() -> Tableau<F> {
    let mut a: Vec<Vec<F>> = vec![Vec::new()];
    for row in DOP853_A.iter() {
        a.push(row.iter().map(|&x| F(x)).collect());
    }
    Tableau {
        a,
        b: DOP853_B.iter().map(|&x| F(x)).collect(),
        error: ErrorEstimate::Embedded(DOP853_E.iter().map(|&x| F(x)).collect()),
    }
}

fn controller() -> Controller<F> {
    Controller {
        rtol: F(1e-9),
        atol: F(1e-12),
        safety: F(0.9),
        fac_min: F(0.2),
        fac_max: F(5.0),
        shrink_min: F(0.1),
        shrink_max: F(0.5),
        exponent: F(1.0 / 9.0),
        initial_fraction: F(1e-3),
        initial_floor: F(1e-12),
        h_min: F(1e-16),
        eps2: F(0.0),
        pairwise: false,
        max_steps: 5_000_000,
    }
}

fn body(m: f64, r: [f64; 3], v: [f64; 3]) -> Body<F> {
    Body { m: F(m), r: r.map(F), v: v.map(F) }
}

fn figure_eight() -> (Vec<Body<F>>, f64) {
    let v1 = 0.2869236336;
    let v2 = 0.0791847624;
    let m2 = 0.5;
    let bodies = vec![
        body(1.0, [-1.0, 0.0, 0.0], [v1, v2, 0.0]),
        body(m2, [0.0, 0.0, 0.0], [-2.0 * v1 / m2, -2.0 * v2 / m2, 0.0]),
        body(1.0, [1.0, 0.0, 0.0], [v1, v2, 0.0]),
    ];
    (bodies, 4.1761292190)
}

fn close(a: f64, b: f64, tol: f64) -> bool {
    (a - b).abs() <= tol
}

#[test]
fn figure_eight_returns_after_one_period() {
    let (mut bodies, t_end) = figure_eight();
    let start = bodies.clone();
    let e0 = total_energy(&bodies).0;
    let run = evolve_adaptive(&mut bodies, F(t_end), &dop853(), &controller());
    assert_eq!(run.status, Completion::Reached);
    assert_eq!(run.time_reached.0, t_end);
    assert_eq!(run.trajectory.len(), run.steps * 10);
    for (a, b) in start.iter().zip(bodies.iter()) {
        assert_eq!(a.m, b.m);
        for c in 0..3 {
            assert!(close(a.r[c].0, b.r[c].0, 1e-3), "position {:?} vs {:?}", a.r, b.r);
            assert!(close(a.v[c].0, b.v[c].0, 1e-3), "velocity {:?} vs {:?}", a.v, b.v);
        }
    }
    let e1 = total_energy(&bodies).0;
    assert!(close(e0, e1, 1e-7), "energy {} vs {}", e0, e1);
}

#[test]
fn single_body_at_rest_stays_put() {
    let mut bodies = vec![body(2.0, [1.0, -2.0, 3.0], [0.0, 0.0, 0.0])];
    let run = evolve_adaptive(&mut bodies, F(1.0), &dop853(), &controller());
    assert_eq!(run.status, Completion::Reached);
    assert_eq!(run.time_reached.0, 1.0);
    assert_eq!(bodies[0].r, [F(1.0), F(-2.0), F(3.0)]);
    assert_eq!(bodies[0].v, [F(0.0), F(0.0), F(0.0)]);
    assert!(run.steps >= 1);
    for frame in run.trajectory.chunks(4) {
        assert_eq!(&frame[..3], &[F(1.0), F(-2.0), F(3.0)]);
    }
}

#[test]
fn single_moving_body_drifts_in_a_straight_line() {
    let mut bodies = vec![body(1.0, [0.0, 0.0, 0.0], [1.0, 2.0, -1.0])];
    let run = evolve_adaptive(&mut bodies, F(2.0), &dop853(), &controller());
    assert_eq!(run.status, Completion::Reached);
    assert!(close(bodies[0].r[0].0, 2.0, 1e-12));
    assert!(close(bodies[0].r[1].0, 4.0, 1e-12));
    assert!(close(bodies[0].r[2].0, -2.0, 1e-12));
}

#[test]
fn zero_duration_makes_no_step() {
    let (mut bodies, _) = figure_eight();
    let run = evolve_adaptive(&mut bodies, F(0.0), &dop853(), &controller());
    assert_eq!(run.status, Completion::Reached);
    assert_eq!(run.steps, 0);
    assert!(run.trajectory.is_empty());
    assert_eq!(run.time_reached.0, 0.0);
}

#[test]
fn step_budget_ends_the_run() {
    let (mut bodies, t_end) = figure_eight();
    let mut ctl = controller();
    ctl.max_steps = 3;
    let run = evolve_adaptive(&mut bodies, F(t_end), &dop853(), &ctl);
    assert_eq!(run.status, Completion::StepLimit);
    assert_eq!(run.steps, 3);
    assert_eq!(run.trajectory.len(), 30);
    assert!(run.time_reached.0 < t_end);
}

#[test]
fn tiny_minimum_step_ends_the_run() {
    let (mut bodies, t_end) = figure_eight();
    let mut ctl = controller();
    ctl.h_min = F(1.0);
    let run = evolve_adaptive(&mut bodies, F(t_end), &dop853(), &ctl);
    assert_eq!(run.status, Completion::StepUnderflow);
    assert_eq!(run.steps, 1);
}

#[test]
fn backward_run_reaches_negative_end() {
    let (mut bodies, _) = figure_eight();
    let run = evolve_adaptive(&mut bodies, F(-0.5), &dop853(), &controller());
    assert_eq!(run.status, Completion::Reached);
    assert_eq!(run.time_reached.0, -0.5);
    let times: Vec<f64> = run.trajectory.chunks(10).map(|f| f[9].0).collect();
    assert_eq!(times[0], 0.0);
    for w in times.windows(2) {
        assert!(w[1] <= w[0]);
    }
}

#[test]
fn recorded_times_approach_the_end_monotonically() {
    let (mut bodies, _) = figure_eight();
    let run = evolve_adaptive(&mut bodies, F(1.0), &dop853(), &controller());
    let times: Vec<f64> = run.trajectory.chunks(10).map(|f| f[9].0).collect();
    assert_eq!(times[0], 0.0);
    for w in times.windows(2) {
        assert!(w[0] <= w[1] && w[1] < 1.0);
    }
}

#[test]
fn adaptive_and_fixed_step_schemes_agree() {
    let (mut a, _) = figure_eight();
    let (mut b, _) = figure_eight();
    let (mut c, _) = figure_eight();
    evolve_adaptive(&mut a, F(0.5), &dop853(), &controller());
    let rk = evolve_fixed(FixedScheme::Rk4, &mut b, F(0.5), F(1e-4), F(0.0));
    let vv = evolve_fixed(FixedScheme::Verlet, &mut c, F(0.5), F(1e-4), F(0.0));
    assert!(close(rk.time_reached.0, 0.5, 1e-12));
    assert!(close(vv.time_reached.0, 0.5, 1e-12));
    for i in 0..3 {
        for k in 0..3 {
            assert!(close(a[i].r[k].0, b[i].r[k].0, 1e-9), "{} vs {}", a[i].r[k].0, b[i].r[k].0);
            assert!(close(a[i].r[k].0, c[i].r[k].0, 1e-8), "{} vs {}", a[i].r[k].0, c[i].r[k].0);
        }
    }
}

#[test]
fn settle_accepts_within_tolerance() {
    let mut t = F(1.0);
    let mut y = vec![F(0.0)];
    let v = settle(&mut t, &mut y, vec![F(5.0)], F(1.5), true, false);
    assert_eq!(v, Verdict::Accept);
    assert_eq!(t, F(1.5));
    assert_eq!(y, vec![F(5.0)]);
}

#[test]
fn settle_rejects_outside_tolerance() {
    let mut t = F(1.0);
    let mut y = vec![F(0.0)];
    let v = settle(&mut t, &mut y, vec![F(5.0)], F(1.5), false, false);
    assert_eq!(v, Verdict::Reject);
    assert_eq!(t, F(1.0));
    assert_eq!(y, vec![F(0.0)]);
}

#[test]
fn settle_forces_the_final_step() {
    let mut t = F(2.0);
    let mut y = vec![F(0.0)];
    let v = settle(&mut t, &mut y, vec![F(1.0)], F(2.5), false, true);
    assert_eq!(v, Verdict::Accept);
    assert_eq!(t, F(2.5));
}

#[test]
fn step_size_grows_after_acceptance() {
    let ctl = controller();
    assert_eq!(next_step_size(F(0.1), F(0.0), Verdict::Accept, &ctl), F(0.1 * 5.0));
    assert_eq!(next_step_size(F(2.0), F(1.0), Verdict::Accept, &ctl), F(2.0 * 0.9));
    assert_eq!(next_step_size(F(1.0), F(1e-30), Verdict::Accept, &ctl), F(5.0));
    assert_eq!(next_step_size(F(1.0), F(1e30), Verdict::Accept, &ctl), F(0.2));
}

#[test]
fn step_size_shrinks_after_rejection() {
    let ctl = controller();
    assert_eq!(next_step_size(F(1.0), F(1e30), Verdict::Reject, &ctl), F(0.1));
    assert_eq!(next_step_size(F(1.0), F(1.5), Verdict::Reject, &ctl), F(0.5));
    let h = next_step_size(F(1.0), F(1000.0), Verdict::Reject, &ctl).0;
    assert!(close(h, 0.9 * 1000f64.powf(-1.0 / 9.0), 1e-15));
}

#[test]
fn first_step_is_a_fraction_of_the_interval() {
    let ctl = controller();
    assert_eq!(initial_step(F(2.0), &ctl), (F(2.0 * 1e-3), true));
    assert_eq!(initial_step(F(-2.0), &ctl), (F(-2.0 * 1e-3), false));
    assert_eq!(initial_step(F(1e-20), &ctl), (F(1e-20), true));
}

#[test]
fn clamp_limits_to_interval() {
    assert_eq!(clamp(F(5.0), F(0.0), F(1.0)), F(1.0));
    assert_eq!(clamp(F(-5.0), F(0.0), F(1.0)), F(0.0));
    assert_eq!(clamp(F(0.5), F(0.0), F(1.0)), F(0.5));
}

#[test]
fn accelerations_of_two_bodies() {
    let r = vec![[F(0.0), F(0.0), F(0.0)], [F(2.0), F(0.0), F(0.0)]];
    let m = vec![F(1.0), F(2.0)];
    let a = accelerations(&r, &m, F(0.0));
    assert_eq!(a[0], [F(0.5), F(0.0), F(0.0)]);
    assert_eq!(a[1], [F(-0.25), F(0.0), F(0.0)]);
}

#[test]
fn softening_enlarges_the_distance() {
    let r = vec![[F(0.0), F(0.0), F(0.0)], [F(2.0), F(0.0), F(0.0)]];
    let m = vec![F(1.0), F(2.0)];
    let a = accelerations(&r, &m, F(5.0));
    assert_eq!(a[0], [F(2.0 * 2.0 / 27.0), F(0.0), F(0.0)]);
    assert_eq!(a[1], [F(-2.0 / 27.0), F(0.0), F(0.0)]);
}

#[test]
fn pairwise_sum_matches_direct_sum() {
    let r = vec![[F(0.0), F(0.0), F(0.0)], [F(2.0), F(0.0), F(0.0)]];
    let m = vec![F(1.0), F(2.0)];
    let a = accelerations_pairwise(&r, &m, F(0.0));
    assert_eq!(a[0], [F(0.5), F(0.0), F(0.0)]);
    assert_eq!(a[1], [F(-0.25), F(0.0), F(0.0)]);
    let soft = accelerations_pairwise(&r, &m, F(5.0));
    assert!(close(soft[0][0].0, 4.0 / 27.0, 1e-15));
    assert!(close(soft[1][0].0, -2.0 / 27.0, 1e-15));
}

#[test]
fn pairwise_forces_of_three_bodies_cancel() {
    let r = vec![
        [F(0.0), F(0.0), F(0.0)],
        [F(1.0), F(0.5), F(0.0)],
        [F(-0.5), F(2.0), F(1.0)],
    ];
    let m = vec![F(1.0), F(2.0), F(3.0)];
    let direct = accelerations(&r, &m, F(0.0));
    let paired = accelerations_pairwise(&r, &m, F(0.0));
    for c in 0..3 {
        let momentum: f64 = (0..3).map(|i| m[i].0 * paired[i][c].0).sum();
        assert!(close(momentum, 0.0, 1e-14));
        for i in 0..3 {
            assert!(close(direct[i][c].0, paired[i][c].0, 1e-14));
        }
    }
}

#[test]
fn pairwise_run_agrees_with_direct_run() {
    let (mut a, _) = figure_eight();
    let (mut b, _) = figure_eight();
    let mut ctl = controller();
    evolve_adaptive(&mut a, F(0.5), &dop853(), &ctl);
    ctl.pairwise = true;
    evolve_adaptive(&mut b, F(0.5), &dop853(), &ctl);
    for i in 0..3 {
        for k in 0..3 {
            assert!(close(a[i].r[k].0, b[i].r[k].0, 1e-12));
        }
    }
}

#[test]
fn lone_body_feels_no_force() {
    let a = accelerations(&[[F(1.0), F(2.0), F(3.0)]], &[F(4.0)], F(0.0));
    assert_eq!(a, vec![[F(0.0), F(0.0), F(0.0)]]);
}

#[test]
fn deriv_holds_velocities_then_accelerations() {
    let y = vec![
        F(0.0), F(0.0), F(0.0), F(1.0), F(2.0), F(3.0),
        F(2.0), F(0.0), F(0.0), F(4.0), F(5.0), F(6.0),
    ];
    let dy = deriv(&y, &[F(1.0), F(2.0)], F(0.0), false);
    assert_eq!(
        dy,
        vec![
            F(1.0), F(2.0), F(3.0), F(0.5), F(0.0), F(0.0),
            F(4.0), F(5.0), F(6.0), F(-0.25), F(0.0), F(0.0),
        ]
    );
}

#[test]
fn saxpy_adds_scaled_vector() {
    let mut out = vec![F(1.0), F(2.0)];
    saxpy_into(&mut out, F(2.0), &[F(3.0), F(4.0)]);
    assert_eq!(out, vec![F(7.0), F(10.0)]);
}

#[test]
fn error_norm_is_weighted_rms() {
    let n = error_norm(&[F(0.5), F(0.5)], &[F(0.0), F(0.0)], &[F(0.0), F(0.0)], F(0.0), F(1.0));
    assert_eq!(n, F(0.5));
    let n = error_norm(&[F(3.0), F(0.0)], &[F(1.0), F(-2.0)], &[F(0.0), F(0.0)], F(1.0), F(0.0));
    assert_eq!(n, F((4.5f64).sqrt()));
}

#[test]
fn error_norm_skips_unscaled_components() {
    let n = error_norm(&[F(1.0), F(2.0)], &[F(0.0), F(1.0)], &[F(0.0), F(1.0)], F(1.0), F(0.0));
    assert_eq!(n, F((2.0f64).sqrt()));
}

#[test]
fn trial_step_of_a_body_at_rest_is_exact() {
    let y = vec![F(1.0), F(2.0), F(3.0), F(0.0), F(0.0), F(0.0)];
    let (y_high, norm) = trial_step(&y, F(0.5), &[F(1.0)], &dop853(), &controller());
    assert_eq!(y_high, y);
    assert_eq!(norm, F(0.0));
}

#[test]
fn stage_difference_error_estimate() {
    // Two stages: k0 = f(y), k1 = f(y + h k0); error = scale * h * (k0 - k1).
    let tab = Tableau {
        a: vec![vec![], vec![F(1.0)]],
        b: vec![F(0.5), F(0.5)],
        error: ErrorEstimate::StageDifference { first: 0, second: 1, scale: F(1.0) },
    };
    let y = vec![F(0.0), F(0.0), F(0.0), F(1.0), F(0.0), F(0.0)];
    let (y_high, norm) = trial_step(&y, F(1.0), &[F(1.0)], &tab, &controller());
    assert_eq!(y_high, vec![F(1.0), F(0.0), F(0.0), F(1.0), F(0.0), F(0.0)]);
    assert_eq!(norm, F(0.0));
}

#[test]
fn energy_of_two_bodies() {
    let bodies = vec![
        body(1.0, [0.0, 0.0, 0.0], [1.0, 0.0, 0.0]),
        body(1.0, [1.0, 0.0, 0.0], [0.0, 0.0, 0.0]),
    ];
    assert_eq!(total_energy(&bodies), F(-0.5));
}

#[test]
fn angular_momentum_of_one_body() {
    let bodies = vec![body(2.0, [1.0, 0.0, 0.0], [0.0, 1.0, 0.0])];
    assert_eq!(total_angular_momentum(&bodies), [F(0.0), F(0.0), F(2.0)]);
}

#[test]
fn vector_helpers() {
    let a = [F(1.0), F(2.0), F(3.0)];
    let b = [F(4.0), F(5.0), F(6.0)];
    assert_eq!(vector::add(a, b), [F(5.0), F(7.0), F(9.0)]);
    assert_eq!(vector::sub(a, b), [F(-3.0), F(-3.0), F(-3.0)]);
    assert_eq!(vector::smul(F(2.0), a), [F(2.0), F(4.0), F(6.0)]);
    assert_eq!(vector::cross(a, b), [F(-3.0), F(6.0), F(-3.0)]);
    assert_eq!(vector::norm2(a), F(14.0));
}

#[test]
fn fixed_steps_record_every_whole_step() {
    let mut bodies = vec![body(1.0, [0.0, 0.0, 0.0], [1.0, 0.0, 0.0])];
    let run = evolve_fixed(FixedScheme::Rk4, &mut bodies, F(1.1), F(0.25), F(0.0));
    assert_eq!(run.steps, 4);
    assert_eq!(run.trajectory.len(), 16);
    assert_eq!(run.time_reached, F(1.1));
    assert!(close(bodies[0].r[0].0, 1.1, 1e-12));
    let times: Vec<f64> = run.trajectory.chunks(4).map(|f| f[3].0).collect();
    assert_eq!(times, vec![0.0, 0.25, 0.5, 0.75]);
}

#[test]
fn fixed_step_with_exact_multiple_takes_no_remainder() {
    let mut bodies = vec![body(1.0, [0.0, 0.0, 0.0], [0.0, 1.0, 0.0])];
    let run = evolve_fixed(FixedScheme::Verlet, &mut bodies, F(1.0), F(0.5), F(0.0));
    assert_eq!(run.steps, 2);
    assert_eq!(run.time_reached, F(1.0));
    assert!(close(bodies[0].r[1].0, 1.0, 1e-12));
}

#[test]
fn rk4_step_of_free_body() {
    let mut bodies = vec![body(1.0, [1.0, 1.0, 1.0], [2.0, 0.0, -2.0])];
    step_rk4(&mut bodies, F(0.5), F(0.0));
    assert!(close(bodies[0].r[0].0, 2.0, 1e-15));
    assert_eq!(bodies[0].r[1], F(1.0));
    assert!(close(bodies[0].r[2].0, 0.0, 1e-15));
    assert_eq!(bodies[0].v, [F(2.0), F(0.0), F(-2.0)]);
}

#[test]
fn symmetric_step_of_free_body() {
    let mut bodies = vec![body(1.0, [0.0, 0.0, 0.0], [1.0, 0.0, 0.0])];
    step_sym4(&mut bodies, F(1.0), F(0.0));
    assert!(close(bodies[0].r[0].0, 1.0, 1e-12));
    assert_eq!(bodies[0].v, [F(1.0), F(0.0), F(0.0)]);
}


#[test]
fn fixed_step_reaches_a_negative_end() {
    let mut bodies = vec![body(1.0, [0.0, 0.0, 0.0], [1.0, 0.0, 0.0])];
    let run = evolve_fixed(FixedScheme::Rk4, &mut bodies, F(-0.5), F(0.25), F(0.0));
    assert_eq!(run.steps, 0);
    assert!(run.trajectory.is_empty());
    assert_eq!(run.time_reached, F(-0.5));
    assert!(close(bodies[0].r[0].0, -0.5, 1e-12));
}

#[test]
fn fixed_step_steps_back_after_overshooting() {
    let mut bodies = vec![body(1.0, [0.0, 0.0, 0.0], [1.0, 0.0, 0.0])];
    let run = evolve_fixed(FixedScheme::Rk4, &mut bodies, F(0.5), F(1e-3), F(0.0));
    assert_eq!(run.steps, 500);
    assert_eq!(run.time_reached, F(0.5));
    assert!(close(bodies[0].r[0].0, 0.5, 1e-12));
}

#[test]
fn rejected_trials_repeat_their_frame() {
    let (mut bodies, t_end) = figure_eight();
    let mut ctl = controller();
    ctl.initial_floor = F(100.0);
    ctl.initial_fraction = F(1.0);
    let run = evolve_adaptive(&mut bodies, F(t_end), &dop853(), &ctl);
    assert_eq!(run.status, Completion::Reached);
    let frames: Vec<&[F]> = run.trajectory.chunks(10).collect();
    // The first trial spans the whole period and is rejected.
    assert_eq!(frames[0], frames[1]);
    assert_eq!(frames[0][9], F(0.0));
}
