//! One simulation step: force accumulation over every pair of bodies, then
//! the integration of every body. The arithmetic on vectors, masses and times
//! is handed in by the caller as operations on its own number types; each is
//! asked to give one result for each argument.
use vstd::prelude::*;
use crate::ops::{deterministic1, deterministic2, result1, result2, total1, total2};

verus! {

/// Checks the configured masses before the simulation starts, since every
/// step divides by them: `Err(i)` names the first body whose mass `positive`
/// rejects, `Ok` means that every mass passed.
pub fn check_masses<M: Copy, P: Fn(M) -> bool>(masses: &Vec<M>, positive: P) -> (r: Result<(), usize>)
    requires
        total1(positive),
        deterministic1(positive),
    ensures
        r is Ok <==> forall|i: int| 0 <= i < masses@.len() ==> #[trigger] result1(positive, masses@[i]),
        r matches Err(i) ==> i < masses@.len() && !result1(positive, masses@[i as int])
            && forall|j: int| 0 <= j < i ==> #[trigger] result1(positive, masses@[j]),
{
    let mut i: usize = 0;
    while i < masses.len()
        invariant
            total1(positive),
            deterministic1(positive),
            i <= masses@.len(),
            forall|j: int| 0 <= j < i ==> #[trigger] result1(positive, masses@[j]),
        decreases masses@.len() - i,
    {
        let ok = positive(masses[i]);
        assert(ok == result1(positive, masses@[i as int]));
        if !ok {
            return Err(i);
        }
        i = i + 1;
    }
    Ok(())
}

/// The pairs `(a, b)` whose attraction one step computes for `n` bodies, in
/// the order it computes them: body `b` is visited in turn and meets each
/// body `a` visited before it. The force found for a pair is added to `b`'s
/// accumulator and its negation to `a`'s.
pub open spec fn pair_schedule(n: nat) -> Seq<(usize, usize)>
    decreases n,
{
    if n == 0 {
        Seq::empty()
    } else {
        let b = (n - 1) as nat;
        pair_schedule(b) + Seq::new(b, |a: int| (a as usize, b as usize))
    }
}

/// Every pair of distinct bodies is met exactly once per step, always with
/// the earlier-visited body first, and a lone body meets no other: the force
/// on `a` from `b` is by construction the negation of the force on `b` from `a`.
pub proof fn lemma_each_pair_once(n: usize)
    ensures
        forall|k: int| 0 <= k < pair_schedule(n as nat).len()
            ==> (#[trigger] pair_schedule(n as nat)[k]).0 < pair_schedule(n as nat)[k].1 < n,
        forall|a: usize, b: usize| a < b < n ==> pair_schedule(n as nat).contains((a, b)),
        pair_schedule(n as nat).no_duplicates(),
        n < 2 ==> pair_schedule(n as nat).len() == 0,
    decreases n,
{
    if n > 0 {
        let m = (n - 1) as usize;
        lemma_each_pair_once(m);
        let pre = pair_schedule(m as nat);
        let post = Seq::new(m as nat, |a: int| (a as usize, m));
        let s = pair_schedule(n as nat);
        assert(s == pre + post);
        assert forall|k: int| 0 <= k < s.len() implies (#[trigger] s[k]).0 < s[k].1 < n by {
            if k >= pre.len() {
                assert(s[k] == post[k - pre.len()]);
            } else {
                assert(s[k] == pre[k]);
            }
        }
        assert forall|a: usize, b: usize| a < b < n implies s.contains((a, b)) by {
            if b == m {
                assert(s[pre.len() + a] == (a, b));
            } else {
                assert(pre.contains((a, b)));
                let k = choose|k: int| 0 <= k < pre.len() && pre[k] == (a, b);
                assert(s[k] == (a, b));
            }
        }
        assert forall|i: int, j: int| 0 <= i < s.len() && 0 <= j < s.len() && i != j
            implies s[i] != s[j] by {
            if i < pre.len() && j < pre.len() {
                assert(s[i] == pre[i] && s[j] == pre[j]);
            } else if i >= pre.len() && j >= pre.len() {
                assert(s[i] == post[i - pre.len()] && s[j] == post[j - pre.len()]);
            } else if i < pre.len() {
                assert(s[i] == pre[i] && s[j] == post[j - pre.len()]);
                assert(pre[i].1 < m);
            } else {
                assert(s[j] == pre[j] && s[i] == post[i - pre.len()]);
                assert(pre[j].1 < m);
            }
        }
    }
}

/// The interacting pairs for `n` bodies, in the order of `pair_schedule`.
pub fn interaction_pairs(n: usize) -> (r: Vec<(usize, usize)>)
    ensures
        r@ == pair_schedule(n as nat),
{
    let mut r: Vec<(usize, usize)> = Vec::new();
    let mut b: usize = 0;
    while b < n
        invariant
            b <= n,
            r@ == pair_schedule(b as nat),
        decreases n - b,
    {
        let ghost before = r@;
        let mut a: usize = 0;
        while a < b
            invariant
                a <= b < n,
                r@ == before + Seq::new(a as nat, |i: int| (i as usize, b)),
            decreases b - a,
        {
            r.push((a, b));
            a = a + 1;
            assert(r@ =~= before + Seq::new(a as nat, |i: int| (i as usize, b)));
        }
        b = b + 1;
    }
    r
}

/// The force accumulators after the pairs of `steps`, from `n` zero
/// accumulators: for each pair `(a, b)` the force `f` that `force` finds
/// between them is added to `b`'s accumulator by `plus` and taken from `a`'s by
/// `minus`. A pair naming no body among the `n` changes nothing.
pub open spec fn accumulated<V, F: Fn(usize, usize) -> V, A: Fn(V, V) -> V, B: Fn(V, V) -> V>(
    n: nat,
    zero: V,
    force: F,
    plus: A,
    minus: B,
    steps: Seq<(usize, usize)>,
) -> Seq<V>
    decreases steps.len(),
{
    if steps.len() == 0 {
        Seq::new(n, |i: int| zero)
    } else {
        let prev = accumulated(n, zero, force, plus, minus, steps.drop_last());
        let (a, b) = steps.last();
        if a < n && b < n {
            let f = result2(force, a, b);
            let mid = prev.update(b as int, result2(plus, prev[b as int], f));
            mid.update(a as int, result2(minus, mid[a as int], f))
        } else {
            prev
        }
    }
}

/// The accumulators keep one entry per body whatever pairs are met.
pub proof fn lemma_accumulated_len<V, F: Fn(usize, usize) -> V, A: Fn(V, V) -> V, B: Fn(V, V) -> V>(
    n: nat,
    zero: V,
    force: F,
    plus: A,
    minus: B,
    steps: Seq<(usize, usize)>,
)
    ensures
        accumulated(n, zero, force, plus, minus, steps).len() == n,
    decreases steps.len(),
{
    if steps.len() > 0 {
        let prev = accumulated(n, zero, force, plus, minus, steps.drop_last());
        lemma_accumulated_len(n, zero, force, plus, minus, steps.drop_last());
        let (a, b) = steps.last();
        if a < n && b < n {
            let f = result2(force, a, b);
            let mid = prev.update(b as int, result2(plus, prev[b as int], f));
            assert(mid.len() == n);
        }
    } else {
        assert(accumulated(n, zero, force, plus, minus, steps) == Seq::new(n, |i: int| zero));
    }
}

/// Meeting the pair `(a, b)` applies one force `f` to both bodies with
/// opposite signs: `b`'s accumulator gains `f`, `a`'s loses the same `f`,
/// and no other accumulator changes.
pub proof fn lemma_pair_acts_oppositely<V, F: Fn(usize, usize) -> V, A: Fn(V, V) -> V, B: Fn(V, V) -> V>(
    n: nat,
    zero: V,
    force: F,
    plus: A,
    minus: B,
    steps: Seq<(usize, usize)>,
    a: usize,
    b: usize,
)
    requires
        a < b < n,
    ensures
        ({
            let prev = accumulated(n, zero, force, plus, minus, steps);
            let next = accumulated(n, zero, force, plus, minus, steps.push((a, b)));
            let f = result2(force, a, b);
            &&& next[b as int] == result2(plus, prev[b as int], f)
            &&& next[a as int] == result2(minus, prev[a as int], f)
            &&& forall|k: int| 0 <= k < n && k != a && k != b ==> next[k] == prev[k]
        }),
{
    lemma_accumulated_len(n, zero, force, plus, minus, steps);
    assert(steps.push((a, b)).drop_last() =~= steps);
}

/// Two bodies end a step with opposite forces: the second gains the one
/// force `f` between them and the first loses it.
pub proof fn lemma_two_bodies_opposite<V, F: Fn(usize, usize) -> V, A: Fn(V, V) -> V, B: Fn(V, V) -> V>(
    zero: V,
    force: F,
    plus: A,
    minus: B,
)
    ensures
        ({
            let f = result2(force, 0, 1);
            accumulated(2, zero, force, plus, minus, pair_schedule(2))
                == seq![result2(minus, zero, f), result2(plus, zero, f)]
        }),
{
    let s2 = pair_schedule(2);
    assert(pair_schedule(0) =~= Seq::<(usize, usize)>::empty());
    assert(pair_schedule(1) =~= Seq::<(usize, usize)>::empty());
    assert(s2 =~= seq![(0usize, 1usize)]);
    assert(s2.drop_last() =~= Seq::<(usize, usize)>::empty());
    let f = result2(force, 0, 1);
    let z = accumulated(2, zero, force, plus, minus, Seq::<(usize, usize)>::empty());
    assert(z =~= seq![zero, zero]);
    assert(accumulated(2, zero, force, plus, minus, s2)
        =~= seq![result2(minus, zero, f), result2(plus, zero, f)]);
}

/// A body with no other body present meets no pair: its net force stays at
/// zero, and so does its acceleration.
pub proof fn lemma_lone_body_feels_nothing<V, F: Fn(usize, usize) -> V, A: Fn(V, V) -> V, B: Fn(V, V) -> V>(
    zero: V,
    force: F,
    plus: A,
    minus: B,
)
    ensures
        accumulated(1, zero, force, plus, minus, pair_schedule(1)) == seq![zero],
{
    assert(pair_schedule(0) =~= Seq::<(usize, usize)>::empty());
    assert(pair_schedule(1) =~= Seq::<(usize, usize)>::empty());
    assert(accumulated(1, zero, force, plus, minus, pair_schedule(1)) =~= seq![zero]);
}

/// The net force on each of `n` bodies: every accumulator starts at `zero`,
/// and the pairs of `pair_schedule(n)` are met in order, each pair's force
/// computed once and applied with opposite signs to its two bodies.
pub fn accumulate_forces<V: Copy, F: Fn(usize, usize) -> V, A: Fn(V, V) -> V, B: Fn(V, V) -> V>(
    n: usize,
    zero: V,
    force: F,
    plus: A,
    minus: B,
) -> (r: Vec<V>)
    requires
        total2(force),
        total2(plus),
        total2(minus),
        deterministic2(force),
        deterministic2(plus),
        deterministic2(minus),
    ensures
        r@ == accumulated(n as nat, zero, force, plus, minus, pair_schedule(n as nat)),
{
    let mut acc: Vec<V> = Vec::new();
    let mut k: usize = 0;
    while k < n
        invariant
            k <= n,
            acc@ == Seq::new(k as nat, |i: int| zero),
        decreases n - k,
    {
        acc.push(zero);
        k = k + 1;
        assert(acc@ =~= Seq::new(k as nat, |i: int| zero));
    }
    let mut b: usize = 0;
    while b < n
        invariant
            total2(force),
            total2(plus),
            total2(minus),
            deterministic2(force),
            deterministic2(plus),
            deterministic2(minus),
            b <= n,
            acc@.len() == n,
            acc@ == accumulated(n as nat, zero, force, plus, minus, pair_schedule(b as nat)),
        decreases n - b,
    {
        let ghost pre = pair_schedule(b as nat);
        let mut a: usize = 0;
        while a < b
            invariant
                total2(force),
                total2(plus),
                total2(minus),
                deterministic2(force),
                deterministic2(plus),
                deterministic2(minus),
                a <= b < n,
                acc@.len() == n,
                acc@ == accumulated(
                    n as nat,
                    zero,
                    force,
                    plus,
                    minus,
                    pre + Seq::new(a as nat, |i: int| (i as usize, b)),
                ),
            decreases b - a,
        {
            let ghost done = pre + Seq::new(a as nat, |i: int| (i as usize, b));
            let ghost next = pre + Seq::new((a + 1) as nat, |i: int| (i as usize, b));
            assert(next =~= done.push((a, b)));
            assert(next.drop_last() =~= done);
            let f = force(a, b);
            assert(f == result2(force, a, b));
            let nb = plus(acc[b], f);
            assert(nb == result2(plus, acc@[b as int], f));
            acc.set(b, nb);
            let na = minus(acc[a], f);
            assert(na == result2(minus, acc@[a as int], f));
            acc.set(a, na);
            a = a + 1;
        }
        assert(pre + Seq::new(b as nat, |i: int| (i as usize, b)) == pair_schedule((b + 1) as nat));
        b = b + 1;
    }
    acc
}

/// Where a body is and how fast it moves.
#[derive(Clone, Copy, Debug, PartialEq)]
pub struct Kinematics<V> {
    pub position: V,
    pub velocity: V,
}

/// One semi-implicit Euler step of size `dt` under the acceleration `acc`:
/// the velocity is advanced first, `v + acc·dt`, and the position then moves
/// with that new velocity, `p + (v + acc·dt)·dt`.
pub open spec fn semi_implicit<V, T, A: Fn(V, V) -> V, S: Fn(V, T) -> V>(
    k: Kinematics<V>,
    acc: V,
    dt: T,
    plus: A,
    scale: S,
) -> Kinematics<V> {
    let v = result2(plus, k.velocity, result2(scale, acc, dt));
    Kinematics { position: result2(plus, k.position, result2(scale, v, dt)), velocity: v }
}

/// Advances one body by `semi_implicit`, with `plus` adding two vectors and
/// `scale` multiplying a vector by a time.
pub fn semi_implicit_step<V: Copy, T: Copy, A: Fn(V, V) -> V, S: Fn(V, T) -> V>(
    k: Kinematics<V>,
    acc: V,
    dt: T,
    plus: &A,
    scale: &S,
) -> (r: Kinematics<V>)
    requires
        total2(*plus),
        total2(*scale),
        deterministic2(*plus),
        deterministic2(*scale),
    ensures
        r == semi_implicit(k, acc, dt, *plus, *scale),
{
    let dv = scale(acc, dt);
    let v = plus(k.velocity, dv);
    let dp = scale(v, dt);
    let p = plus(k.position, dp);
    Kinematics { position: p, velocity: v }
}

/// The bodies after one integration sweep: unchanged while paused, else
/// each advanced by `semi_implicit` under its force divided by its mass.
pub open spec fn integrated<V, M, T, D: Fn(V, M) -> V, A: Fn(V, V) -> V, S: Fn(V, T) -> V>(
    bodies: Seq<Kinematics<V>>,
    forces: Seq<V>,
    masses: Seq<M>,
    paused: bool,
    dt: T,
    per_mass: D,
    plus: A,
    scale: S,
) -> Seq<Kinematics<V>> {
    if paused {
        bodies
    } else {
        Seq::new(
            bodies.len(),
            |i: int| semi_implicit(bodies[i], result2(per_mass, forces[i], masses[i]), dt, plus, scale),
        )
    }
}

/// The bodies after one sweep for each entry of `forces`, in order.
pub open spec fn integrated_steps<V, M, T, D: Fn(V, M) -> V, A: Fn(V, V) -> V, S: Fn(V, T) -> V>(
    bodies: Seq<Kinematics<V>>,
    forces: Seq<Seq<V>>,
    masses: Seq<M>,
    paused: bool,
    dt: T,
    per_mass: D,
    plus: A,
    scale: S,
) -> Seq<Kinematics<V>>
    decreases forces.len(),
{
    if forces.len() == 0 {
        bodies
    } else {
        integrated(
            integrated_steps(bodies, forces.drop_last(), masses, paused, dt, per_mass, plus, scale),
            forces.last(),
            masses,
            paused,
            dt,
            per_mass,
            plus,
            scale,
        )
    }
}

/// However many steps run while paused, and whatever forces they find, every
/// body keeps its position and velocity.
pub proof fn lemma_paused_steps_change_nothing<
    V,
    M,
    T,
    D: Fn(V, M) -> V,
    A: Fn(V, V) -> V,
    S: Fn(V, T) -> V,
>(
    bodies: Seq<Kinematics<V>>,
    forces: Seq<Seq<V>>,
    masses: Seq<M>,
    dt: T,
    per_mass: D,
    plus: A,
    scale: S,
)
    ensures
        integrated_steps(bodies, forces, masses, true, dt, per_mass, plus, scale) == bodies,
    decreases forces.len(),
{
    if forces.len() > 0 {
        lemma_paused_steps_change_nothing(bodies, forces.drop_last(), masses, dt, per_mass, plus, scale);
    }
}

/// The integration sweep of one step, as one pass over the whole set: each
/// body's acceleration is its net force divided by its mass (`per_mass`),
/// and the body is advanced by `semi_implicit` over the step `dt`. While the
/// simulation is paused nothing is integrated: every position and velocity
/// stays exactly as it was, however many steps run.
pub fn integrate_bodies<
    V: Copy,
    M: Copy,
    T: Copy,
    D: Fn(V, M) -> V,
    A: Fn(V, V) -> V,
    S: Fn(V, T) -> V,
>(
    bodies: &mut Vec<Kinematics<V>>,
    forces: &Vec<V>,
    masses: &Vec<M>,
    paused: bool,
    dt: T,
    per_mass: D,
    plus: A,
    scale: S,
)
    requires
        forces@.len() == old(bodies)@.len(),
        masses@.len() == old(bodies)@.len(),
        total2(per_mass),
        total2(plus),
        total2(scale),
        deterministic2(per_mass),
        deterministic2(plus),
        deterministic2(scale),
    ensures
        final(bodies)@ == integrated(old(bodies)@, forces@, masses@, paused, dt, per_mass, plus, scale),
        final(bodies)@.len() == old(bodies)@.len(),
        paused ==> final(bodies)@ == old(bodies)@,
        !paused ==> forall|i: int| 0 <= i < old(bodies)@.len() ==> #[trigger] final(bodies)@[i]
            == semi_implicit(
            old(bodies)@[i],
            result2(per_mass, forces@[i], masses@[i]),
            dt,
            plus,
            scale,
        ),
{
    if paused {
        return;
    }
    let n = bodies.len();
    let mut i: usize = 0;
    while i < n
        invariant
            total2(per_mass),
            total2(plus),
            total2(scale),
            deterministic2(per_mass),
            deterministic2(plus),
            deterministic2(scale),
            i <= n,
            n == bodies@.len(),
            n == old(bodies)@.len(),
            n == forces@.len(),
            n == masses@.len(),
            forall|j: int| i <= j < n ==> bodies@[j] == old(bodies)@[j],
            forall|j: int| 0 <= j < i ==> #[trigger] bodies@[j] == semi_implicit(
                old(bodies)@[j],
                result2(per_mass, forces@[j], masses@[j]),
                dt,
                plus,
                scale,
            ),
        decreases n - i,
    {
        let acc = per_mass(forces[i], masses[i]);
        let next = semi_implicit_step(bodies[i], acc, dt, &plus, &scale);
        bodies.set(i, next);
        i = i + 1;
    }
    assert(bodies@ =~= integrated(old(bodies)@, forces@, masses@, paused, dt, per_mass, plus, scale));
}

} // verus!
