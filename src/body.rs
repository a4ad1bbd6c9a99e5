use vstd::prelude::*;

verus! {

/// A point mass: mass `m`, position `r` and velocity `v`, each component a
/// numeral of type `T`.
#[derive(Clone, Copy, Debug)]
pub struct Body<T> {
    pub m: T,
    pub r: [T; 3],
    pub v: [T; 3],
}

/// Component `k` (0..6) of a body in state-vector order: position x, y, z,
/// then velocity x, y, z.
pub open spec fn body_component<T>(b: Body<T>, k: int) -> T {
    if k < 3 {
        b.r[k]
    } else {
        b.v[k - 3]
    }
}

/// The flat state vector of `bodies`: six components per body, bodies in
/// order.
pub open spec fn state_of<T>(bodies: Seq<Body<T>>) -> Seq<T> {
    Seq::new(6 * bodies.len(), |i: int| body_component(bodies[i / 6], i % 6))
}

/// Packs the bodies into a flat state vector laid out per body as
/// `[r.x, r.y, r.z, v.x, v.y, v.z]`.
pub fn pack_state<T: Copy>(bodies: &[Body<T>]) -> (y: Vec<T>)
    requires
        6 * bodies@.len() <= usize::MAX,
    ensures
        y@ == state_of(bodies@),
{
    let n = bodies.len();
    let mut y: Vec<T> = Vec::new();
    let mut i: usize = 0;
    while i < n
        invariant
            n == bodies@.len(),
            6 * n <= usize::MAX,
            i <= n,
            y@.len() == 6 * i,
            forall|k: int| 0 <= k < 6 * i ==> #[trigger] y@[k] == body_component(bodies@[k / 6], k % 6),
        decreases n - i,
    {
        let b = bodies[i];
        y.push(b.r[0]);
        y.push(b.r[1]);
        y.push(b.r[2]);
        y.push(b.v[0]);
        y.push(b.v[1]);
        y.push(b.v[2]);
        i = i + 1;
    }
    assert(y@ =~= state_of(bodies@));
    y
}


/// `after` is `before` with the positions and velocities replaced from the
/// state vector `y` and every mass kept.
pub open spec fn unpacked_from<T>(before: Seq<Body<T>>, after: Seq<Body<T>>, y: Seq<T>) -> bool {
    &&& after.len() == before.len()
    &&& forall|i: int| 0 <= i < after.len() ==> #[trigger] after[i].m == before[i].m
    &&& forall|i: int, k: int|
        0 <= i < after.len() && 0 <= k < 6 ==> #[trigger] body_component(after[i], k) == y[6 * i + k]
}

/// Writes the state vector `y` back into `bodies`: positions and velocities
/// are replaced, masses are kept.
pub fn unpack_state<T: Copy>(y: &[T], bodies: &mut Vec<Body<T>>)
    requires
        y@.len() == 6 * old(bodies)@.len(),
    ensures
        unpacked_from(old(bodies)@, final(bodies)@, y@),
{
    let n = bodies.len();
    let len = y.len();
    let mut i: usize = 0;
    while i < n
        invariant
            n == bodies@.len(),
            len == y@.len(),
            y@.len() == 6 * n,
            i <= n,
            forall|j: int| i <= j < n ==> #[trigger] bodies@[j] == old(bodies)@[j],
            forall|j: int| 0 <= j < n ==> #[trigger] bodies@[j].m == old(bodies)@[j].m,
            forall|j: int, k: int|
                0 <= j < i && 0 <= k < 6 ==> #[trigger] body_component(bodies@[j], k) == y@[6 * j + k],
        decreases n - i,
    {
        let o = 6 * i;
        let m = bodies[i].m;
        let b = Body { m, r: [y[o], y[o + 1], y[o + 2]], v: [y[o + 3], y[o + 4], y[o + 5]] };
        assert(forall|k: int| 0 <= k < 6 ==> #[trigger] body_component(b, k) == y@[o + k]);
        bodies.set(i, b);
        i = i + 1;
    }
}

/// Unpacking a state vector and packing the result gives that state vector
/// back.
pub proof fn lemma_pack_after_unpack<T>(before: Seq<Body<T>>, after: Seq<Body<T>>, y: Seq<T>)
    requires
        y.len() == 6 * before.len(),
        unpacked_from(before, after, y),
    ensures
        state_of(after) == y,
{
    assert forall|k: int| 0 <= k < y.len() implies #[trigger] state_of(after)[k] == y[k] by {
        let i = k / 6;
        let c = k % 6;
        assert(body_component(after[i], c) == y[6 * i + c]);
    }
    assert(state_of(after) =~= y);
}

/// Unpacking the state vector of some bodies into those bodies leaves them as
/// they were.
pub proof fn lemma_unpack_after_pack<T>(before: Seq<Body<T>>, after: Seq<Body<T>>)
    requires
        unpacked_from(before, after, state_of(before)),
    ensures
        after == before,
{
    assert forall|i: int| 0 <= i < after.len() implies #[trigger] after[i] == before[i] by {
        let a = after[i];
        let b = before[i];
        assert forall|c: int| 0 <= c < 3 implies a.r[c] == b.r[c] && a.v[c] == b.v[c] by {
            assert(body_component(a, c) == state_of(before)[6 * i + c]);
            assert(body_component(a, c + 3) == state_of(before)[6 * i + c + 3]);
            assert((6 * i + c) / 6 == i && (6 * i + c) % 6 == c);
            assert((6 * i + c + 3) / 6 == i && (6 * i + c + 3) % 6 == c + 3);
        }
        assert(a.m == b.m);
        assert(a.r =~= b.r);
        assert(a.v =~= b.v);
    }
    assert(after =~= before);
}

/// Body `i` of a flat array of seven numerals per body:
/// `[r.x, r.y, r.z, v.x, v.y, v.z, m]`.
pub open spec fn flat_body<T>(data: Seq<T>, i: int) -> Body<T> {
    Body {
        m: data[7 * i + 6],
        r: [data[7 * i], data[7 * i + 1], data[7 * i + 2]],
        v: [data[7 * i + 3], data[7 * i + 4], data[7 * i + 5]],
    }
}

/// The three bodies held in a flat array of exactly 21 numerals, seven per
/// body (`[r.x, r.y, r.z, v.x, v.y, v.z, m]`); `None` for any other length.
pub fn bodies_from_flat<T: Copy>(data: &[T]) -> (r: Option<Vec<Body<T>>>)
    ensures
        r is None <==> data@.len() != 21,
        r matches Some(b) ==> b@.len() == 3 && forall|i: int| 0 <= i < 3 ==> #[trigger] b@[i] == flat_body(data@, i),
{
    if data.len() != 21 {
        return None;
    }
    let mut b: Vec<Body<T>> = Vec::new();
    let mut i: usize = 0;
    while i < 3
        invariant
            data@.len() == 21,
            i <= 3,
            b@.len() == i,
            forall|j: int| 0 <= j < i ==> #[trigger] b@[j] == flat_body(data@, j),
        decreases 3 - i,
    {
        let o = 7 * i;
        b.push(Body {
            m: data[o + 6],
            r: [data[o], data[o + 1], data[o + 2]],
            v: [data[o + 3], data[o + 4], data[o + 5]],
        });
        i = i + 1;
    }
    Some(b)
}

} // verus!
