//! Finding the two reference bodies that the Lagrange points hang off.
use vstd::prelude::*;
use crate::ops::{deterministic1, deterministic2, result1, result2, total1, total2};

verus! {

/// Whether some body in `names` is called `target`.
pub open spec fn has_named(names: Seq<String>, target: Seq<char>) -> bool {
    exists|i: int| 0 <= i < names.len() && (#[trigger] names[i])@ == target
}

/// Whether `i` is the last body in `names` called `target`.
pub open spec fn is_last_named(names: Seq<String>, i: int, target: Seq<char>) -> bool {
    &&& 0 <= i < names.len()
    &&& names[i]@ == target
    &&& forall|j: int| i < j < names.len() ==> (#[trigger] names[j])@ != target
}

/// The indices of the Sun and of the Earth among the bodies `names`, read in
/// order so that a later body of either name takes the place of an earlier
/// one. `None` when either is missing; the Lagrange points then keep their
/// previous positions.
pub fn find_reference_bodies(names: &Vec<String>) -> (r: Option<(usize, usize)>)
    ensures
        r is None <==> !(has_named(names@, "Sun"@) && has_named(names@, "Earth"@)),
        r matches Some((s, e)) ==> is_last_named(names@, s as int, "Sun"@)
            && is_last_named(names@, e as int, "Earth"@),
{
    proof {
        reveal_strlit("Sun");
        reveal_strlit("Earth");
        assert("Sun"@[0] != "Earth"@[0]);
    }
    let sun_name = String::from_str("Sun");
    let earth_name = String::from_str("Earth");
    let mut sun: Option<usize> = None;
    let mut earth: Option<usize> = None;
    let mut i: usize = 0;
    while i < names.len()
        invariant
            i <= names@.len(),
            sun_name@ == "Sun"@,
            earth_name@ == "Earth"@,
            "Sun"@ != "Earth"@,
            sun is None <==> !has_named(names@.take(i as int), "Sun"@),
            earth is None <==> !has_named(names@.take(i as int), "Earth"@),
            sun matches Some(s) ==> is_last_named(names@.take(i as int), s as int, "Sun"@),
            earth matches Some(e) ==> is_last_named(names@.take(i as int), e as int, "Earth"@),
        decreases names@.len() - i,
    {
        let ghost before = names@.take(i as int);
        let ghost after = names@.take(i + 1);
        assert(after == before.push(names@[i as int]));
        if names[i] == earth_name {
            earth = Some(i);
        } else if names[i] == sun_name {
            sun = Some(i);
        }
        assert(after[i as int] == names@[i as int]);
        assert forall|k: int| 0 <= k < i implies after[k] == before[k] by {}
        i = i + 1;
    }
    assert(names@.take(i as int) == names@);
    match (sun, earth) {
        (Some(s), Some(e)) => Some((s, e)),
        _ => None,
    }
}

/// A point held at a fixed signed distance from the Earth along the line to
/// the Sun: positive towards the Sun, negative away from it.
#[derive(Clone, Copy, Debug, PartialEq)]
pub struct LagrangePoint<T>(pub T);

/// Where a Lagrange point of offset `offset` stands for the given Sun and
/// Earth positions: `normalize(sun - earth) · offset + earth`, with `minus`,
/// `unit`, `scale` and `plus` the vector operations. Only the direction from
/// the Earth to the Sun enters, not their distance.
pub open spec fn lagrange_position<
    V,
    T,
    Mi: Fn(V, V) -> V,
    U: Fn(V) -> V,
    Sc: Fn(V, T) -> V,
    Pl: Fn(V, V) -> V,
>(sun: V, earth: V, offset: T, minus: Mi, unit: U, scale: Sc, plus: Pl) -> V {
    result2(plus, result2(scale, result1(unit, result2(minus, sun, earth)), offset), earth)
}

/// Places every Lagrange point of `points` for the bodies `names` at
/// `positions`: when both the Sun and the Earth are present, `placed[i]`
/// becomes `lagrange_position` of `points[i]` from the last body of each
/// name; otherwise every point keeps its previous place.
pub fn calculate_lagrange_points<
    V: Copy,
    T: Copy,
    Mi: Fn(V, V) -> V,
    U: Fn(V) -> V,
    Sc: Fn(V, T) -> V,
    Pl: Fn(V, V) -> V,
>(
    names: &Vec<String>,
    positions: &Vec<V>,
    points: &Vec<LagrangePoint<T>>,
    placed: &mut Vec<V>,
    minus: Mi,
    unit: U,
    scale: Sc,
    plus: Pl,
)
    requires
        positions@.len() == names@.len(),
        old(placed)@.len() == points@.len(),
        total2(minus),
        total1(unit),
        total2(scale),
        total2(plus),
        deterministic2(minus),
        deterministic1(unit),
        deterministic2(scale),
        deterministic2(plus),
    ensures
        final(placed)@.len() == old(placed)@.len(),
        !(has_named(names@, "Sun"@) && has_named(names@, "Earth"@)) ==> final(placed)@ == old(placed)@,
        forall|s: int, e: int|
            is_last_named(names@, s, "Sun"@) && is_last_named(names@, e, "Earth"@)
            ==> forall|i: int| 0 <= i < points@.len() ==> #[trigger] final(placed)@[i]
                == lagrange_position(positions@[s], positions@[e], points@[i].0, minus, unit, scale, plus),
{
    match find_reference_bodies(names) {
        None => {},
        Some((s, e)) => {
            let sun = positions[s];
            let earth = positions[e];
            let toward = minus(sun, earth);
            let dir = unit(toward);
            let mut i: usize = 0;
            while i < points.len()
                invariant
                    total2(scale),
                    total2(plus),
                    deterministic2(scale),
                    deterministic2(plus),
                    dir == result1(unit, result2(minus, sun, earth)),
                    i <= points@.len(),
                    placed@.len() == points@.len(),
                    forall|j: int| 0 <= j < i ==> #[trigger] placed@[j]
                        == lagrange_position(sun, earth, points@[j].0, minus, unit, scale, plus),
                decreases points@.len() - i,
            {
                let shift = scale(dir, points[i].0);
                let at = plus(shift, earth);
                placed.set(i, at);
                i = i + 1;
            }
            assert forall|s2: int, e2: int|
                is_last_named(names@, s2, "Sun"@) && is_last_named(names@, e2, "Earth"@)
                implies s2 == s && e2 == e by {
                if s2 < s {
                    assert(names@[s as int]@ == "Sun"@);
                }
                if s < s2 {
                    assert(names@[s2]@ == "Sun"@);
                }
                if e2 < e {
                    assert(names@[e as int]@ == "Earth"@);
                }
                if e < e2 {
                    assert(names@[e2]@ == "Earth"@);
                }
            }
        },
    }
}

} // verus!
