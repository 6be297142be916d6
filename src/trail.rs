//! Bounded trajectory history of one body, kept in a fixed-capacity ring
//! buffer. A point is stored as the bit patterns of its three coordinates.
use vstd::prelude::*;
use ringbuffer::{ConstGenericRingBuffer, RingBuffer, RingBufferExt, RingBufferWrite};

verus! {

/// Number of points a trail keeps; the oldest is evicted beyond it.
pub const TRAIL_LENGTH: usize = 1024;

/// A recorded position: the bit patterns of its x, y and z coordinates.
pub type PointBits = (u32, u32, u32);

#[verifier::external_type_specification]
#[verifier::external_body]
#[verifier::reject_recursive_types(T)]
pub struct ExConstGenericRingBuffer<T, const CAP: usize>(ConstGenericRingBuffer<T, CAP>);

/// The items of a ring buffer, from the oldest pushed to the newest.
pub uninterp spec fn ring_items(r: ConstGenericRingBuffer<PointBits, TRAIL_LENGTH>) -> Seq<PointBits>;

/// Relies on `ConstGenericRingBuffer::new`: a fresh buffer holds nothing
/// (it panics only for a capacity that is zero or not a power of two).
#[verifier::external_body]
fn ring_new() -> (r: ConstGenericRingBuffer<PointBits, TRAIL_LENGTH>)
    ensures
        ring_items(r) == Seq::<PointBits>::empty(),
{
    ConstGenericRingBuffer::new()
}

/// Relies on `RingBuffer::len`: the number of items held.
#[verifier::external_body]
fn ring_len(r: &ConstGenericRingBuffer<PointBits, TRAIL_LENGTH>) -> (n: usize)
    ensures
        n == ring_items(*r).len(),
{
    r.len()
}

/// Relies on `RingBufferWrite::push`: appends the value, first dropping the
/// oldest item when the buffer is full; it does not panic.
#[verifier::external_body]
fn ring_push(r: &mut ConstGenericRingBuffer<PointBits, TRAIL_LENGTH>, v: PointBits)
    ensures
        ring_items(*old(r)).len() < TRAIL_LENGTH ==> ring_items(*final(r)) == ring_items(*old(r)).push(v),
        ring_items(*old(r)).len() == TRAIL_LENGTH ==> ring_items(*final(r)) == ring_items(*old(r)).skip(1).push(v),
    no_unwind
{
    r.push(v)
}

/// Relies on `RingBufferExt::get`: a negative index counts back from the
/// newest item.
#[verifier::external_body]
fn ring_get(r: &ConstGenericRingBuffer<PointBits, TRAIL_LENGTH>, index: isize) -> (v: Option<PointBits>)
    requires
        -ring_items(*r).len() <= index < 0,
    ensures
        v == Some(ring_items(*r)[ring_items(*r).len() + index]),
{
    r.get(index).copied()
}

/// Relies on `IndexMut<isize>` of the buffer: writes the item at a negative
/// index counted back from the newest; within the items held it does not panic.
#[verifier::external_body]
fn ring_set(r: &mut ConstGenericRingBuffer<PointBits, TRAIL_LENGTH>, index: isize, v: PointBits)
    requires
        -ring_items(*old(r)).len() <= index < 0,
    ensures
        ring_items(*final(r)) == ring_items(*old(r)).update(ring_items(*old(r)).len() + index, v),
    no_unwind
{
    r[index] = v;
}

/// Relies on `RingBufferExt::to_vec`: the items from the oldest to the newest.
#[verifier::external_body]
fn ring_to_vec(r: &ConstGenericRingBuffer<PointBits, TRAIL_LENGTH>) -> (v: Vec<PointBits>)
    ensures
        v@ == ring_items(*r),
{
    r.to_vec()
}

/// The history after recording `p`: with no point yet, or when the path
/// turns (`nearly_straight` false), `p` is appended, evicting the oldest
/// point of a full history; on a nearly straight stretch `p` replaces the
/// newest point instead.
pub open spec fn recorded(h: Seq<PointBits>, p: PointBits, nearly_straight: bool) -> Seq<PointBits> {
    if h.len() > 0 && nearly_straight {
        h.update(h.len() - 1, p)
    } else if h.len() >= TRAIL_LENGTH {
        h.skip(1).push(p)
    } else {
        h.push(p)
    }
}

/// The history left by recording each point of `ps` in turn, each as a turn
/// of the path, starting from `h`.
pub open spec fn recorded_turns(h: Seq<PointBits>, ps: Seq<PointBits>) -> Seq<PointBits>
    decreases ps.len(),
{
    if ps.len() == 0 {
        h
    } else {
        recorded(recorded_turns(h, ps.drop_last()), ps.last(), false)
    }
}

/// The newest `k` items of `s` (all of them when it holds fewer).
pub open spec fn newest(s: Seq<PointBits>, k: nat) -> Seq<PointBits> {
    if s.len() <= k {
        s
    } else {
        s.subrange(s.len() - k, s.len() as int)
    }
}

/// Recording turns one after another from an empty trail keeps exactly the
/// newest `TRAIL_LENGTH` points, in the order they came, and never more.
pub proof fn lemma_trail_keeps_newest(ps: Seq<PointBits>)
    ensures
        recorded_turns(Seq::empty(), ps) == newest(ps, TRAIL_LENGTH as nat),
        recorded_turns(Seq::empty(), ps).len() <= TRAIL_LENGTH,
    decreases ps.len(),
{
    if ps.len() > 0 {
        let front = ps.drop_last();
        lemma_trail_keeps_newest(front);
        let h = newest(front, TRAIL_LENGTH as nat);
        if front.len() < TRAIL_LENGTH {
            assert(h.push(ps.last()) =~= ps);
        } else {
            assert(h.skip(1).push(ps.last()) =~= ps.subrange(ps.len() - TRAIL_LENGTH, ps.len() as int));
        }
    }
}

/// The answer of the straightness test `f` on the newest point, the one
/// before it, and the candidate.
pub open spec fn straight_result<F: Fn(PointBits, PointBits, PointBits) -> bool>(
    f: F,
    last: PointBits,
    before: PointBits,
    p: PointBits,
) -> bool {
    choose|r: bool| f.ensures((last, before, p), r)
}

/// The history after one update with position `p`: an empty history takes
/// `p` at once; otherwise `straight` is asked about the newest point, the one
/// before it (the newest again when it is alone) and `p`, and `p` is recorded
/// as that answer says.
pub open spec fn updated<F: Fn(PointBits, PointBits, PointBits) -> bool>(
    h: Seq<PointBits>,
    p: PointBits,
    straight: F,
) -> Seq<PointBits> {
    if h.len() == 0 {
        h.push(p)
    } else {
        let before = if h.len() >= 2 { h[h.len() - 2] } else { h.last() };
        recorded(h, p, straight_result(straight, h.last(), before, p))
    }
}

/// A polyline of a body's recent positions, oldest first.
pub struct Trail {
    ring: ConstGenericRingBuffer<PointBits, TRAIL_LENGTH>,
}

impl View for Trail {
    type V = Seq<PointBits>;

    closed spec fn view(&self) -> Seq<PointBits> {
        ring_items(self.ring)
    }
}

impl Trail {
    #[verifier::type_invariant]
    spec fn inv(self) -> bool {
        ring_items(self.ring).len() <= TRAIL_LENGTH
    }

    /// An empty trail.
    pub fn new() -> (t: Trail)
        ensures
            t@ == Seq::<PointBits>::empty(),
    {
        Trail { ring: ring_new() }
    }

    /// Number of points held; never more than `TRAIL_LENGTH`.
    pub fn len(&self) -> (n: usize)
        ensures
            n == self@.len(),
            n <= TRAIL_LENGTH,
    {
        proof {
            use_type_invariant(self);
        }
        ring_len(&self.ring)
    }

    /// The points, oldest first.
    pub fn points(&self) -> (v: Vec<PointBits>)
        ensures
            v@ == self@,
    {
        ring_to_vec(&self.ring)
    }

    /// The two points a new position is compared against: the newest, and
    /// the one before it (the newest again while only one is held).
    pub fn last_two(&self) -> (r: Option<(PointBits, PointBits)>)
        ensures
            self@.len() == 0 ==> r is None,
            self@.len() == 1 ==> r == Some((self@[0], self@[0])),
            self@.len() >= 2 ==> r == Some((self@.last(), self@[self@.len() - 2])),
    {
        proof {
            use_type_invariant(self);
        }
        let n = ring_len(&self.ring);
        if n == 0 {
            None
        } else {
            let last = ring_get(&self.ring, -1);
            let before = if n >= 2 {
                ring_get(&self.ring, -2)
            } else {
                last
            };
            match (last, before) {
                (Some(a), Some(b)) => Some((a, b)),
                _ => None,
            }
        }
    }

    /// Records the current position `p`. `nearly_straight` tells whether the
    /// path through the two newest points and `p` is close to a straight
    /// line, in which case `p` replaces the newest point.
    pub fn record(&mut self, p: PointBits, nearly_straight: bool)
        ensures
            final(self)@ == recorded(old(self)@, p, nearly_straight),
            final(self)@.len() <= TRAIL_LENGTH,
    {
        proof {
            use_type_invariant(&*self);
        }
        let n = ring_len(&self.ring);
        if n > 0 && nearly_straight {
            ring_set(&mut self.ring, -1, p);
        } else {
            ring_push(&mut self.ring, p);
        }
    }

    /// One step of the recorder for the body now at `p`; `straight` tells
    /// whether the newest point, the one before it and `p` lie close to a
    /// straight line.
    pub fn update<F: Fn(PointBits, PointBits, PointBits) -> bool>(&mut self, p: PointBits, straight: F)
        requires
            forall|a: PointBits, b: PointBits, c: PointBits| #[trigger] straight.requires((a, b, c)),
            forall|a: PointBits, b: PointBits, c: PointBits, r1: bool, r2: bool|
                straight.ensures((a, b, c), r1) && straight.ensures((a, b, c), r2) ==> r1 == r2,
        ensures
            final(self)@ == updated(old(self)@, p, straight),
            final(self)@.len() <= TRAIL_LENGTH,
    {
        proof {
            use_type_invariant(&*self);
        }
        match self.last_two() {
            None => {
                self.record(p, false);
            },
            Some((last, before)) => {
                let s = straight(last, before, p);
                assert(s == straight_result(straight, last, before, p));
                self.record(p, s);
            },
        }
    }
}

} // verus!
