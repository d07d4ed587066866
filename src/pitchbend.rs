use vstd::prelude::*;

verus! {

/// One sample of an interpolated stream: the value that lies `index / count` of the way
/// from `start` to `end`.
#[derive(Clone, Copy, Debug, PartialEq, Eq, Structural)]
pub struct LerpStep<T> {
    pub start: T,
    pub end: T,
    pub index: usize,
    pub count: usize,
}

/// The value that the stream holds once the buffer's events are spent: the last event's
/// value, or the previous value when the buffer had no event.
pub open spec fn last_bend<T>(events: Seq<(T, i32)>, prev: T) -> T {
    if events.len() == 0 {
        prev
    } else {
        events.last().0
    }
}

/// The events of one buffer are usable when their sample offsets lie in `[0, num_samples]`
/// and never go backwards.
pub open spec fn bends_well_formed<T>(events: Seq<(T, i32)>, num_samples: nat) -> bool {
    &&& forall|i: int| 0 <= i < events.len() ==> 0 <= #[trigger] events[i].1 <= num_samples
    &&& forall|i: int, j: int|
        0 <= i <= j < events.len() ==> #[trigger] events[i].1 <= #[trigger] events[j].1
}

/// The points that the stream passes through: the previous value at offset zero, each event,
/// and the last value again at the end of the buffer.
pub open spec fn bend_points<T>(events: Seq<(T, i32)>, prev: T, num_samples: nat) -> Seq<(T, int)> {
    seq![(prev, 0int)] + events.map_values(|e: (T, i32)| (e.0, e.1 as int)) + seq![
        (last_bend(events, prev), num_samples as int),
    ]
}

/// Sample `k` of the segment from point `j` to point `j + 1`.
pub open spec fn segment_step<T>(pts: Seq<(T, int)>, j: int, k: int) -> LerpStep<T> {
    LerpStep {
        start: pts[j].0,
        end: pts[j + 1].0,
        index: (k - pts[j].1) as usize,
        count: (pts[j + 1].1 - pts[j].1) as usize,
    }
}

/// Sample `k` lies in the segment that starts at point `j`.
pub open spec fn in_segment<T>(pts: Seq<(T, int)>, j: int, k: int) -> bool {
    &&& 0 <= j < pts.len() - 1
    &&& pts[j].1 <= k < pts[j + 1].1
}

/// The points of a buffer with usable events never go backwards in time.
proof fn lemma_points_sorted<T>(events: Seq<(T, i32)>, prev: T, num_samples: nat)
    requires
        bends_well_formed(events, num_samples),
    ensures
        forall|a: int, b: int|
            0 <= a <= b < events.len() + 2 ==> #[trigger] bend_points(events, prev, num_samples)[a].1
                <= #[trigger] bend_points(events, prev, num_samples)[b].1,
        bend_points(events, prev, num_samples).len() == events.len() + 2,
        bend_points(events, prev, num_samples)[0].1 == 0,
        bend_points(events, prev, num_samples)[events.len() as int + 1].1 == num_samples,
{
    let pts = bend_points(events, prev, num_samples);
    let m = events.len();
    assert(forall|i: int| 0 <= i < m ==> #[trigger] pts[i + 1] == (events[i].0, events[i].1 as int));
    assert forall|a: int, b: int| 0 <= a <= b < m + 2 implies #[trigger] pts[a].1 <= #[trigger] pts[b].1 by {
        if 0 < a && b < m + 1 {
            assert(pts[a].1 == events[a - 1].1 && pts[b].1 == events[b - 1].1);
        } else if 0 < a && a < m + 1 {
            assert(pts[a].1 == events[a - 1].1);
        } else if b < m + 1 && 0 < b {
            assert(pts[b].1 == events[b - 1].1);
        }
    }
}

/// The segment that holds sample `k`, searched from point `lo` on.
proof fn segment_of<T>(pts: Seq<(T, int)>, k: int, lo: int) -> (j: int)
    requires
        0 <= lo < pts.len() - 1,
        pts[lo].1 <= k < pts[pts.len() - 1].1,
    ensures
        in_segment(pts, j, k),
    decreases pts.len() - lo,
{
    if k < pts[lo + 1].1 {
        lo
    } else {
        segment_of(pts, k, lo + 1)
    }
}

/// Every sample of the buffer lies in exactly one segment between consecutive points, so the
/// steps that `to_pitch_envelope` returns are fixed for every sample.
pub proof fn lemma_bend_segments_cover<T>(
    events: Seq<(T, i32)>,
    prev: T,
    num_samples: nat,
    k: int,
)
    requires
        bends_well_formed(events, num_samples),
        0 <= k < num_samples,
    ensures
        exists|j: int| in_segment(bend_points(events, prev, num_samples), j, k),
        forall|j1: int, j2: int|
            in_segment(bend_points(events, prev, num_samples), j1, k) && in_segment(
                bend_points(events, prev, num_samples),
                j2,
                k,
            ) ==> j1 == j2,
{
    let pts = bend_points(events, prev, num_samples);
    lemma_points_sorted(events, prev, num_samples);
    let j = segment_of(pts, k, 0);
    assert(in_segment(pts, j, k));
    assert forall|j1: int, j2: int| in_segment(pts, j1, k) && in_segment(pts, j2, k) implies j1
        == j2 by {
        if j1 < j2 {
            assert(pts[j1 + 1].1 <= pts[j2].1);
        } else if j2 < j1 {
            assert(pts[j2 + 1].1 <= pts[j1].1);
        }
    }
}

/// From the buffer's last event on, the stream holds that event's value flat, and a buffer
/// without events holds the previous value flat: nothing is extrapolated.
pub proof fn lemma_bend_holds_after_last_event<T>(
    events: Seq<(T, i32)>,
    prev: T,
    num_samples: nat,
    j: int,
    k: int,
)
    requires
        bends_well_formed(events, num_samples),
        events.len() > 0 ==> events.last().1 <= k,
        in_segment(bend_points(events, prev, num_samples), j, k),
    ensures
        segment_step(bend_points(events, prev, num_samples), j, k).start == last_bend(events, prev),
        segment_step(bend_points(events, prev, num_samples), j, k).end == last_bend(events, prev),
{
    let pts = bend_points(events, prev, num_samples);
    let m = events.len() as int;
    lemma_points_sorted(events, prev, num_samples);
    if j < m {
        assert(pts[j + 1].1 <= pts[m].1);
        assert(pts[m] == (events[m - 1].0, events[m - 1].1 as int));
    }
    if m > 0 {
        assert(pts[m] == (events[m - 1].0, events[m - 1].1 as int));
    }
}

/// Tells whether `to_pitch_envelope` accepts these events for a buffer of `num_samples`.
pub fn bends_ok<T: Copy>(events: &[(T, i32)], num_samples: usize) -> (r: bool)
    ensures
        r == (num_samples <= i32::MAX && bends_well_formed(events@, num_samples as nat)),
{
    if num_samples > i32::MAX as usize {
        return false;
    }
    let n = num_samples as i32;
    let mut i: usize = 0;
    while i < events.len()
        invariant
            i <= events@.len(),
            n == num_samples,
            bends_well_formed(events@.subrange(0, i as int), num_samples as nat),
        decreases events@.len() - i,
    {
        let t = events[i].1;
        if t < 0 || t > n || (i > 0 && events[i - 1].1 > t) {
            proof {
                let e = events@;
                if t < 0 || t > n {
                    assert(!(0 <= e[i as int].1 <= num_samples));
                } else {
                    assert(e[i - 1].1 > e[i as int].1);
                }
            }
            return false;
        }
        proof {
            let e = events@;
            let pre = e.subrange(0, i as int);
            let next = e.subrange(0, i + 1);
            assert forall|a: int, b: int| 0 <= a <= b < next.len() implies #[trigger] next[a].1
                <= #[trigger] next[b].1 by {
                if b == i && a < b {
                    assert(pre[a].1 <= pre[i - 1].1);
                } else if b < i {
                    assert(pre[a].1 <= pre[b].1);
                }
            }
            assert forall|a: int| 0 <= a < next.len() implies 0 <= #[trigger] next[a].1
                <= num_samples by {
                if a < i {
                    assert(pre[a].1 == next[a].1);
                }
            }
        }
        i = i + 1;
    }
    proof {
        assert(events@.subrange(0, events@.len() as int) =~= events@);
    }
    true
}

/// A cursor over the steps of one buffer: it walks the points of `bend_points` and hands out
/// one step per sample, without allocating.
pub struct PitchEnvelope<'a, T> {
    pub events: &'a [(T, i32)],
    pub prev: T,
    pub num_samples: usize,
    /// The segment the cursor stands in.
    pub seg: usize,
    pub start: T,
    pub t0: i32,
    pub end: T,
    pub t1: i32,
    /// The next sample to hand out.
    pub pos: usize,
}

impl<'a, T: Copy> PitchEnvelope<'a, T> {
    /// The points that this cursor walks.
    pub open spec fn points(&self) -> Seq<(T, int)> {
        bend_points(self.events@, self.prev, self.num_samples as nat)
    }

    /// The cursor's segment lies between points `seg` and `seg + 1` and does not start after
    /// the next sample.
    pub open spec fn wf(&self) -> bool {
        let pts = self.points();
        &&& self.num_samples <= i32::MAX
        &&& bends_well_formed(self.events@, self.num_samples as nat)
        &&& self.seg <= self.events@.len()
        &&& self.start == pts[self.seg as int].0
        &&& self.t0 == pts[self.seg as int].1
        &&& self.end == pts[self.seg + 1].0
        &&& self.t1 == pts[self.seg + 1].1
        &&& self.t0 <= self.pos <= self.num_samples
    }

    /// The point after segment `seg`.
    fn point_after(&self, seg: usize) -> (r: (T, i32))
        requires
            seg <= self.events@.len(),
            self.num_samples <= i32::MAX,
        ensures
            r.0 == self.points()[seg + 1].0,
            r.1 == self.points()[seg + 1].1,
    {
        let m = self.events.len();
        if seg < m {
            self.events[seg]
        } else if m == 0 {
            (self.prev, self.num_samples as i32)
        } else {
            (self.events[m - 1].0, self.num_samples as i32)
        }
    }

    /// A cursor at the first sample of the buffer.
    pub fn new(events: &'a [(T, i32)], prev: T, num_samples: usize) -> (r: Self)
        requires
            num_samples <= i32::MAX,
            bends_well_formed(events@, num_samples as nat),
        ensures
            r.wf(),
            r.events@ == events@,
            r.prev == prev,
            r.num_samples == num_samples,
            r.pos == 0,
    {
        let mut r = PitchEnvelope {
            events,
            prev,
            num_samples,
            seg: 0,
            start: prev,
            t0: 0,
            end: prev,
            t1: 0,
            pos: 0,
        };
        let (end, t1) = r.point_after(0);
        r.end = end;
        r.t1 = t1;
        r
    }

    /// The value to carry into the next buffer.
    pub fn last_bend(&self) -> (r: T)
        ensures
            r == last_bend(self.events@, self.prev),
    {
        let m = self.events.len();
        if m == 0 {
            self.prev
        } else {
            self.events[m - 1].0
        }
    }

    /// The step of the next sample, or `None` once the buffer is spent.
    pub fn next_step(&mut self) -> (r: Option<LerpStep<T>>)
        requires
            old(self).wf(),
        ensures
            final(self).wf(),
            final(self).events == old(self).events,
            final(self).prev == old(self).prev,
            final(self).num_samples == old(self).num_samples,
            old(self).pos >= old(self).num_samples ==> r is None && final(self).pos == old(self).pos,
            old(self).pos < old(self).num_samples ==> {
                &&& final(self).pos == old(self).pos + 1
                &&& r is Some
                &&& forall|j: int|
                    #[trigger] in_segment(old(self).points(), j, old(self).pos as int) ==> r
                        == Some(segment_step(old(self).points(), j, old(self).pos as int))
            },
    {
        if self.pos >= self.num_samples {
            return None;
        }
        let ghost pts = self.points();
        let ghost before = *self;
        proof {
            lemma_points_sorted(self.events@, self.prev, self.num_samples as nat);
        }
        while self.t1 as usize <= self.pos
            invariant
                self.wf(),
                self.events == before.events,
                self.prev == before.prev,
                self.num_samples == before.num_samples,
                self.pos == before.pos,
                pts == self.points(),
                self.pos < self.num_samples,
                forall|a: int, b: int|
                    0 <= a <= b < self.events@.len() + 2 ==> #[trigger] pts[a].1 <= #[trigger] pts[b].1,
                pts[self.events@.len() as int + 1].1 == self.num_samples,
            decreases self.events@.len() - self.seg,
        {
            let m = self.events.len();
            assert(self.seg < m);
            self.seg = self.seg + 1;
            self.start = self.end;
            self.t0 = self.t1;
            let (end, t1) = self.point_after(self.seg);
            self.end = end;
            self.t1 = t1;
        }
        let k = self.pos;
        let step = LerpStep {
            start: self.start,
            end: self.end,
            index: k - self.t0 as usize,
            count: (self.t1 - self.t0) as usize,
        };
        assert(in_segment(pts, self.seg as int, k as int));
        assert forall|j: int| #[trigger] in_segment(pts, j, k as int) implies step == segment_step(
            pts,
            j,
            k as int,
        ) by {
            if j < self.seg {
                assert(pts[j + 1].1 <= pts[self.seg as int].1);
            } else if j > self.seg {
                assert(pts[self.seg + 1].1 <= pts[j].1);
            }
        }
        self.pos = k + 1;
        Some(step)
    }
}

/// Turns the pitch-bend events of one buffer into one step per sample. Between two
/// consecutive points the stream runs linearly over the samples `[t0, t1)`; after the last
/// event it holds that event's value. Also returns the value to carry into the next buffer.
pub fn to_pitch_envelope<T: Copy>(events: &[(T, i32)], prev: T, num_samples: usize) -> (r: (
    Vec<LerpStep<T>>,
    T,
))
    requires
        num_samples <= i32::MAX,
        bends_well_formed(events@, num_samples as nat),
    ensures
        r.0@.len() == num_samples,
        r.1 == last_bend(events@, prev),
        forall|j: int, k: int|
            #![trigger in_segment(bend_points(events@, prev, num_samples as nat), j, k)]
            in_segment(bend_points(events@, prev, num_samples as nat), j, k) ==> r.0@[k]
                == segment_step(bend_points(events@, prev, num_samples as nat), j, k),
{
    let ghost pts = bend_points(events@, prev, num_samples as nat);
    let mut cursor = PitchEnvelope::new(events, prev, num_samples);
    let mut out: Vec<LerpStep<T>> = Vec::new();
    for k in 0..num_samples
        invariant
            cursor.wf(),
            cursor.points() == pts,
            cursor.num_samples == num_samples,
            cursor.pos == k,
            out@.len() == k,
            forall|j: int, kk: int|
                #![trigger in_segment(pts, j, kk)]
                in_segment(pts, j, kk) && kk < k ==> out@[kk] == segment_step(pts, j, kk),
    {
        if let Some(step) = cursor.next_step() {
            out.push(step);
        }
    }
    proof {
        lemma_points_sorted(events@, prev, num_samples as nat);
    }
    (out, cursor.last_bend())
}

} // verus!
