//! A curve that grows by one segment per tick and scrolls to the left.
//!
//! The newest segment is open: it was created this tick, from the end of the
//! one before it to the locator. On the next tick it is
//! finalized and a new open segment is appended. Every tick all segments
//! move left by the scroll speed times the elapsed time.

use vstd::prelude::*;
use crate::geometry::Point;

verus! {

/// One piece of the curve.
#[derive(Clone, Copy, Debug, PartialEq, Eq, Structural)]
pub struct CurveSegment {
    pub start: Point,
    pub end: Point,
    pub created_tick: u64,
    pub finalized: bool,
}

/// How far the curve moves in one tick: `speed` length units per time unit,
/// for `delta_time` time units.
pub open spec fn scroll_amount(speed: u32, delta_time: u32) -> int {
    speed as int * delta_time as int
}

/// A point moved left by `d`.
pub open spec fn shifted_point(p: Point, d: int) -> Point {
    Point { x: (p.x - d) as i64, y: p.y }
}

/// A segment moved left by `d` and finalized.
pub open spec fn scrolled_final(s: CurveSegment, d: int) -> CurveSegment {
    CurveSegment {
        start: shifted_point(s.start, d),
        end: shifted_point(s.end, d),
        created_tick: s.created_tick,
        finalized: true,
    }
}

/// Every segment can move left by `d` without leaving the `i64` range.
pub open spec fn can_scroll(segs: Seq<CurveSegment>, d: int) -> bool {
    forall|i: int|
        0 <= i < segs.len() ==> i64::MIN <= (#[trigger] segs[i]).start.x - d && i64::MIN
            <= segs[i].end.x - d
}

/// The segments after one tick: every old segment moved left by `d` and
/// finalized, then a new open segment created at `tick` that runs from the
/// moved end of the last one to `locator`.
pub open spec fn stepped(segs: Seq<CurveSegment>, d: int, locator: Point, tick: u64) -> Seq<
    CurveSegment,
> {
    let tail = shifted_point(segs.last().end, d);
    Seq::new(segs.len(), |i: int| scrolled_final(segs[i], d)).push(
        CurveSegment { start: tail, end: locator, created_tick: tick, finalized: false },
    )
}

/// A left-scrolling curve that gains one segment per tick.
#[derive(Clone, Debug)]
pub struct CurveBuilder {
    pub scroll_speed: u32,
    pub tick: u64,
    pub dropped: u64,
    pub segments: Vec<CurveSegment>,
}

impl CurveBuilder {
    /// One segment per tick so far plus the first, less those dropped from
    /// the old end, in order of the tick that created them, joined end to
    /// start; only the newest is open.
    pub open spec fn wf(&self) -> bool {
        &&& self.segments@.len() >= 1
        &&& self.dropped + self.segments@.len() == self.tick + 1
        &&& forall|i: int|
            0 <= i < self.segments@.len() ==> {
                &&& (#[trigger] self.segments@[i]).created_tick == self.dropped + i
                &&& (self.segments@[i].finalized <==> i < self.segments@.len() - 1)
            }
        &&& forall|i: int|
            0 < i < self.segments@.len() ==> (#[trigger] self.segments@[i]).start
                == self.segments@[i - 1].end
    }

    /// A curve of one open, empty segment at `anchor`.
    pub fn new(anchor: Point, scroll_speed: u32) -> (c: CurveBuilder)
        ensures
            c.wf(),
            c.tick == 0,
            c.dropped == 0,
            c.scroll_speed == scroll_speed,
            c.segments@ == seq![
                CurveSegment { start: anchor, end: anchor, created_tick: 0, finalized: false },
            ],
    {
        let mut segments: Vec<CurveSegment> = Vec::new();
        segments.push(CurveSegment { start: anchor, end: anchor, created_tick: 0, finalized: false });
        CurveBuilder { scroll_speed, tick: 0, dropped: 0, segments }
    }

    /// The number of segments.
    pub fn len(&self) -> (n: usize)
        ensures
            n == self.segments@.len(),
    {
        self.segments.len()
    }

    /// The segment at index `i`, oldest first.
    pub fn segment(&self, i: usize) -> (s: CurveSegment)
        requires
            i < self.segments@.len(),
        ensures
            s == self.segments@[i as int],
    {
        self.segments[i]
    }

    /// The newest segment, the only open one.
    pub fn open_segment(&self) -> (s: CurveSegment)
        requires
            self.wf(),
        ensures
            s == self.segments@.last(),
            !s.finalized,
    {
        self.segments[self.segments.len() - 1]
    }

    /// Drops the oldest segments, up to the first that is open or reaches
    /// `min_x`, and returns how many were dropped.
    pub fn cull_left_of(&mut self, min_x: i64) -> (k: usize)
        requires
            old(self).wf(),
        ensures
            final(self).wf(),
            k == offscreen_prefix(old(self).segments@, min_x),
            k < old(self).segments@.len(),
            final(self).segments@ == old(self).segments@.skip(k as int),
            final(self).dropped == old(self).dropped + k,
            final(self).tick == old(self).tick,
            final(self).scroll_speed == old(self).scroll_speed,
    {
        let ghost segs = self.segments@;
        let n = self.segments.len();
        let mut k: usize = 0;
        assert(segs.skip(0) =~= segs);
        while k < n && self.segments[k].finalized && self.segments[k].start.x < min_x
            && self.segments[k].end.x < min_x
            invariant
                self.wf(),
                segs == self.segments@,
                n == segs.len(),
                k <= n,
                offscreen_prefix(segs, min_x) == k + offscreen_prefix(segs.skip(k as int), min_x),
                forall|j: int| 0 <= j < k ==> (#[trigger] segs[j]).finalized,
            decreases n - k,
        {
            assert(segs.skip(k as int).drop_first() =~= segs.skip(k + 1));
            k += 1;
        }
        assert(k < n) by {
            if k == n {
                assert(!segs[n - 1].finalized);
            }
        }
        assert(segs.skip(k as int)[0] == segs[k as int]);
        assert(offscreen_prefix(segs.skip(k as int), min_x) == 0);
        let mut kept: Vec<CurveSegment> = Vec::new();
        let mut i: usize = k;
        while i < n
            invariant
                segs == self.segments@,
                n == segs.len(),
                k <= i <= n,
                kept@ == segs.subrange(k as int, i as int),
            decreases n - i,
        {
            kept.push(self.segments[i]);
            i += 1;
        }
        assert(kept@ =~= segs.skip(k as int));
        self.segments = kept;
        self.dropped = self.dropped + k as u64;
        k
    }

    /// Advances one tick of `delta_time` with the locator at `locator`:
    /// scrolls every segment, finalizes the open one and opens a new one from
    /// its end to the locator.
    pub fn step(&mut self, delta_time: u32, locator: Point)
        requires
            old(self).wf(),
            old(self).tick < u64::MAX,
            can_scroll(old(self).segments@, scroll_amount(old(self).scroll_speed, delta_time)),
        ensures
            final(self).wf(),
            final(self).scroll_speed == old(self).scroll_speed,
            final(self).tick == old(self).tick + 1,
            final(self).dropped == old(self).dropped,
            final(self).segments@ == stepped(
                old(self).segments@,
                scroll_amount(old(self).scroll_speed, delta_time),
                locator,
                final(self).tick,
            ),
    {
        let speed = self.scroll_speed;
        assert(speed as int * delta_time as int <= u64::MAX) by (nonlinear_arith)
            requires
                speed <= u32::MAX,
                delta_time <= u32::MAX,
        ;
        let shift: u64 = speed as u64 * delta_time as u64;
        let ghost d = scroll_amount(speed, delta_time);
        let ghost before = self.segments@;
        let n = self.segments.len();
        let mut i: usize = 0;
        while i < n
            invariant
                n == before.len(),
                n >= 1,
                before == old(self).segments@,
                old(self).wf(),
                old(self).tick < u64::MAX,
                self.tick == old(self).tick,
                self.dropped == old(self).dropped,
                self.scroll_speed == old(self).scroll_speed,
                shift == d,
                can_scroll(before, d),
                self.segments@.len() == n,
                i <= n,
                forall|j: int| 0 <= j < i ==> #[trigger] self.segments@[j] == scrolled_final(before[j], d),
                forall|j: int| i <= j < n ==> #[trigger] self.segments@[j] == before[j],
            decreases n - i,
        {
            let s = self.segments[i];
            assert(i64::MIN <= before[i as int].start.x - d);
            let start = Point { x: (s.start.x as i128 - shift as i128) as i64, y: s.start.y };
            let end = Point { x: (s.end.x as i128 - shift as i128) as i64, y: s.end.y };
            self.segments[i] = CurveSegment { start, end, created_tick: s.created_tick, finalized: true };
            i += 1;
        }
        let tail = self.segments[n - 1].end;
        let tick = self.tick + 1;
        self.segments.push(
            CurveSegment { start: tail, end: locator, created_tick: tick, finalized: false },
        );
        self.tick = tick;
        assert(self.segments@ =~= stepped(before, d, locator, tick));
        assert forall|k: int| 0 < k < self.segments@.len() implies (#[trigger] self.segments@[k]).start
            == self.segments@[k - 1].end by {
            if k < n {
                assert(before[k].start == before[k - 1].end);
            }
        }
    }
}

/// A segment lies wholly left of `min_x`.
pub open spec fn left_of(s: CurveSegment, min_x: i64) -> bool {
    s.start.x < min_x && s.end.x < min_x
}

/// The number of oldest segments that are finalized and lie wholly left of
/// `min_x`, counted up to the first that does not.
pub open spec fn offscreen_prefix(segs: Seq<CurveSegment>, min_x: i64) -> nat
    decreases segs.len(),
{
    if segs.len() > 0 && segs[0].finalized && left_of(segs[0], min_x) {
        1 + offscreen_prefix(segs.drop_first(), min_x)
    } else {
        0
    }
}

/// A well-formed curve has created one segment per tick plus the first,
/// counting those it dropped, and exactly one of those it holds, the newest,
/// is open.
pub proof fn lemma_one_segment_per_tick(c: CurveBuilder)
    requires
        c.wf(),
    ensures
        c.dropped + c.segments@.len() == c.tick + 1,
        !c.segments@.last().finalized,
        forall|i: int| 0 <= i < c.segments@.len() && !(#[trigger] c.segments@[i]).finalized ==> i == c.segments@.len() - 1,
{
    let last = c.segments@.len() - 1;
    assert(c.segments@[last].created_tick == c.dropped + last);
}

/// Across one tick every existing segment keeps its heights and its creation
/// tick and moves left by exactly the scroll amount: `x` at the next tick is
/// `x` now minus speed times elapsed time, at both ends.
pub proof fn lemma_segments_only_translate(
    segs: Seq<CurveSegment>,
    speed: u32,
    delta_time: u32,
    locator: Point,
    tick: u64,
)
    requires
        segs.len() >= 1,
        can_scroll(segs, scroll_amount(speed, delta_time)),
    ensures
        forall|i: int|
            0 <= i < segs.len() ==> {
                let after = #[trigger] stepped(segs, scroll_amount(speed, delta_time), locator, tick)[i];
                &&& after.start.x == segs[i].start.x - speed * delta_time
                &&& after.end.x == segs[i].end.x - speed * delta_time
                &&& after.start.y == segs[i].start.y
                &&& after.end.y == segs[i].end.y
                &&& after.created_tick == segs[i].created_tick
                &&& after.finalized
            },
{
    assert forall|i: int| 0 <= i < segs.len() implies {
        let after = #[trigger] stepped(segs, scroll_amount(speed, delta_time), locator, tick)[i];
        &&& after.start.x == segs[i].start.x - speed * delta_time
        &&& after.end.x == segs[i].end.x - speed * delta_time
    } by {
        assert(speed * delta_time >= 0) by (nonlinear_arith);
        assert(segs[i].start.x - speed * delta_time <= i64::MAX);
    }
}

} // verus!
