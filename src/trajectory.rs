use vstd::prelude::*;

use crate::body::{state_of, Body};

verus! {

/// One recorded frame: the positions of the first `n` bodies of the state
/// vector `y` (three components each, bodies in order), then the time `t`.
pub open spec fn frame_of<T>(y: Seq<T>, n: nat, t: T) -> Seq<T> {
    Seq::new(3 * n + 1, |k: int| if k < 3 * n { y[6 * (k / 3) + k % 3] } else { t })
}

/// Appends one frame to the trajectory buffer: the positions of the `n`
/// bodies held in the state vector `y`, then the time stamp `t`.
pub fn push_sample<T: Copy>(result: &mut Vec<T>, y: &[T], t: T, n: usize)
    requires
        y@.len() >= 6 * n,
    ensures
        final(result)@ == old(result)@ + frame_of(y@, n as nat, t),
{
    let ghost start = result@;
    let len = y.len();
    let mut i: usize = 0;
    while i < n
        invariant
            len == y@.len(),
            y@.len() >= 6 * n,
            i <= n,
            result@.len() == start.len() + 3 * i,
            forall|k: int| 0 <= k < start.len() ==> #[trigger] result@[k] == start[k],
            forall|k: int|
                0 <= k < 3 * i ==> #[trigger] result@[start.len() + k] == y@[6 * (k / 3) + k % 3],
        decreases n - i,
    {
        let o = 6 * i;
        let ghost before = result@;
        result.push(y[o]);
        result.push(y[o + 1]);
        result.push(y[o + 2]);
        assert forall|k: int| 0 <= k < 3 * (i + 1) implies #[trigger] result@[start.len() + k] == y@[6
            * (k / 3) + k % 3] by {
            if k >= 3 * i {
                assert(k / 3 == i);
                assert(result@[start.len() + k] == y@[o + (k - 3 * i)]);
            } else {
                assert(result@[start.len() + k] == before[start.len() + k]);
            }
        }
        i = i + 1;
    }
    result.push(t);
    let ghost want = start + frame_of(y@, n as nat, t);
    assert forall|k: int| 0 <= k < want.len() implies #[trigger] result@[k] == want[k] by {
        if k >= start.len() && k < start.len() + 3 * n {
            assert(result@[start.len() + (k - start.len())] == y@[6 * ((k - start.len()) / 3) + (k
                - start.len()) % 3]);
        }
    }
    assert(result@ =~= want);
}

/// A frame recorded from the packed state of some bodies holds each body's
/// position in declared order, then the time stamp.
pub proof fn lemma_frame_of_packed<T>(bodies: Seq<Body<T>>, t: T)
    ensures
        frame_of(state_of(bodies), bodies.len(), t).len() == 3 * bodies.len() + 1,
        frame_of(state_of(bodies), bodies.len(), t)[3 * bodies.len() as int] == t,
        forall|i: int, c: int|
            0 <= i < bodies.len() && 0 <= c < 3 ==> #[trigger] frame_of(
                state_of(bodies),
                bodies.len(),
                t,
            )[3 * i + c] == bodies[i].r[c],
{
    assert forall|i: int, c: int| 0 <= i < bodies.len() && 0 <= c < 3 implies #[trigger] frame_of(
        state_of(bodies),
        bodies.len(),
        t,
    )[3 * i + c] == bodies[i].r[c] by {
        let k = 3 * i + c;
        assert(k / 3 == i);
        assert(k % 3 == c);
        assert((6 * i + c) / 6 == i);
        assert((6 * i + c) % 6 == c);
    }
}

/// The polylines of three bodies in a trajectory of frames of ten entries:
/// body `b`'s point in frame `k` is `(series[10k + 3b], series[10k + 3b + 1])`.
pub open spec fn path_point<T>(series: Seq<T>, b: int, k: int) -> (T, T) {
    (series[10 * k + 3 * b], series[10 * k + 3 * b + 1])
}

/// Splits a trajectory of three bodies (frames of `x, y, z` per body, then
/// the time) into one polyline of `(x, y)` points per body.
pub fn reshape_paths<T: Copy>(series: &[T]) -> (paths: [Vec<(T, T)>; 3])
    requires
        series@.len() % 10 == 0,
    ensures
        forall|b: int|
            0 <= b < 3 ==> #[trigger] paths[b]@.len() == series@.len() / 10,
        forall|b: int, k: int|
            0 <= b < 3 && 0 <= k < series@.len() / 10 ==> #[trigger] paths[b]@[k] == path_point(
                series@,
                b,
                k,
            ),
{
    let frame_len: usize = 10;
    let len = series.len();
    let steps = len / frame_len;
    proof {
        vstd::arithmetic::div_mod::lemma_fundamental_div_mod(series@.len() as int, 10);
    }
    let mut path_a: Vec<(T, T)> = Vec::new();
    let mut path_b: Vec<(T, T)> = Vec::new();
    let mut path_c: Vec<(T, T)> = Vec::new();
    let mut k: usize = 0;
    while k < steps
        invariant
            frame_len == 10,
            steps == series@.len() / 10,
            series@.len() % 10 == 0,
            series@.len() == 10 * steps,
            len == series@.len(),
            k <= steps,
            path_a@.len() == k,
            path_b@.len() == k,
            path_c@.len() == k,
            forall|j: int| 0 <= j < k ==> #[trigger] path_a@[j] == path_point(series@, 0, j),
            forall|j: int| 0 <= j < k ==> #[trigger] path_b@[j] == path_point(series@, 1, j),
            forall|j: int| 0 <= j < k ==> #[trigger] path_c@[j] == path_point(series@, 2, j),
        decreases steps - k,
    {
        assert(k * 10 + 10 <= 10 * steps) by (nonlinear_arith)
            requires
                k + 1 <= steps,
        ;
        let base = k * frame_len;
        path_a.push((series[base], series[base + 1]));
        path_b.push((series[base + 3], series[base + 4]));
        path_c.push((series[base + 6], series[base + 7]));
        k = k + 1;
    }
    let paths = [path_a, path_b, path_c];
    assert(paths[0] == path_a && paths[1] == path_b && paths[2] == path_c);
    paths
}

} // verus!
