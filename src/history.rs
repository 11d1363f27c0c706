use std::collections::VecDeque;
use vstd::prelude::*;

verus! {

/// Number of points each history keeps: two minutes at a two second cadence.
pub const HISTORY_CAPACITY: usize = 60;

/// One point of a metric's time series: milliseconds since the monitor
/// started, and the metric's reading in its own unit (hundredths of a
/// percent, or bytes per second).
#[derive(Clone, Copy, Debug, PartialEq, Eq, Structural)]
pub struct HistoryPoint {
    pub time_ms: u64,
    pub value: u64,
}

/// The last `cap` entries of `s`, or all of `s` when it is not longer.
pub open spec fn keep_last(s: Seq<HistoryPoint>, cap: nat) -> Seq<HistoryPoint> {
    if s.len() > cap {
        s.subrange(s.len() - cap, s.len() as int)
    } else {
        s
    }
}

/// A series after pushing every point of `points`, in order, into a ring of
/// capacity `cap` that held `s`.
pub open spec fn push_all(s: Seq<HistoryPoint>, cap: nat, points: Seq<HistoryPoint>) -> Seq<
    HistoryPoint,
>
    decreases points.len(),
{
    if points.len() == 0 {
        s
    } else {
        keep_last(push_all(s, cap, points.drop_last()).push(points.last()), cap)
    }
}

/// A fixed-capacity time series: appending past the capacity evicts the
/// oldest points, so the series always holds the most recent ones in the
/// order they came.
#[derive(Debug)]
pub struct HistoryRing {
    points: VecDeque<HistoryPoint>,
    capacity: usize,
}

impl View for HistoryRing {
    type V = Seq<HistoryPoint>;

    closed spec fn view(&self) -> Seq<HistoryPoint> {
        self.points@
    }
}

impl HistoryRing {
    /// The number of points the ring keeps at most.
    pub closed spec fn spec_capacity(&self) -> nat {
        self.capacity as nat
    }

    /// The ring holds no more points than its capacity.
    pub open spec fn wf(&self) -> bool {
        self@.len() <= self.spec_capacity()
    }

    /// An empty ring that keeps at most `capacity` points.
    pub fn new(capacity: usize) -> (r: Self)
        ensures
            r.wf(),
            r@ == Seq::<HistoryPoint>::empty(),
            r.spec_capacity() == capacity,
    {
        HistoryRing { points: VecDeque::new(), capacity }
    }

    /// Appends `point`, then evicts from the front until the ring is back
    /// within its capacity.
    pub fn push(&mut self, point: HistoryPoint)
        requires
            old(self).wf(),
        ensures
            final(self).wf(),
            final(self).spec_capacity() == old(self).spec_capacity(),
            final(self)@ == keep_last(old(self)@.push(point), old(self).spec_capacity()),
    {
        self.points.push_back(point);
        let ghost pushed = self.points@;
        while self.points.len() > self.capacity
            invariant
                pushed == old(self)@.push(point),
                pushed.len() <= self.capacity + 1,
                self.capacity == old(self).capacity,
                self.points.len() > self.capacity ==> self.points@ == pushed,
                self.points.len() <= self.capacity ==> self.points@ == keep_last(
                    pushed,
                    self.capacity as nat,
                ),
            decreases self.points.len(),
        {
            self.points.pop_front();
            assert(self.points@ =~= pushed.subrange(pushed.len() - self.capacity, pushed.len() as int));
        }
    }

    /// Empties the series; the capacity stays.
    pub fn clear(&mut self)
        ensures
            final(self).wf(),
            final(self)@ == Seq::<HistoryPoint>::empty(),
            final(self).spec_capacity() == old(self).spec_capacity(),
    {
        self.points.clear();
    }

    /// Number of points held.
    pub fn len(&self) -> (r: usize)
        ensures
            r == self@.len(),
    {
        self.points.len()
    }

    /// Whether the series holds no point.
    pub fn is_empty(&self) -> (r: bool)
        ensures
            r == (self@.len() == 0),
    {
        self.points.len() == 0
    }

    /// The capacity the ring was made with.
    pub fn capacity(&self) -> (r: usize)
        ensures
            r == self.spec_capacity(),
    {
        self.capacity
    }

    /// The `i`-th oldest point.
    pub fn get(&self, i: usize) -> (r: HistoryPoint)
        requires
            i < self@.len(),
        ensures
            r == self@[i as int],
    {
        self.points[i]
    }

    /// The points, oldest first.
    pub fn to_vec(&self) -> (r: Vec<HistoryPoint>)
        ensures
            r@ == self@,
    {
        let mut out: Vec<HistoryPoint> = Vec::new();
        let n = self.points.len();
        let mut i: usize = 0;
        while i < n
            invariant
                n == self@.len(),
                i <= n,
                out@ == self@.subrange(0, i as int),
            decreases n - i,
        {
            out.push(self.points[i]);
            i += 1;
        }
        assert(out@ =~= self@);
        out
    }

    /// The most recent point, if any.
    pub fn last(&self) -> (r: Option<HistoryPoint>)
        ensures
            self@.len() == 0 ==> r.is_none(),
            self@.len() > 0 ==> r == Some(self@.last()),
    {
        let n = self.points.len();
        if n == 0 {
            None
        } else {
            Some(self.points[n - 1])
        }
    }

    /// A copy holding the same points and the same capacity.
    pub fn duplicate(&self) -> (r: Self)
        ensures
            r@ == self@,
            r.spec_capacity() == self.spec_capacity(),
    {
        let mut points: VecDeque<HistoryPoint> = VecDeque::new();
        let n = self.points.len();
        let mut i: usize = 0;
        while i < n
            invariant
                n == self@.len(),
                i <= n,
                points@ == self@.subrange(0, i as int),
            decreases n - i,
        {
            points.push_back(self.points[i]);
            i += 1;
        }
        assert(points@ =~= self@);
        HistoryRing { points, capacity: self.capacity }
    }
}

/// Whatever a ring held before, once at least `cap` points have been pushed
/// into it, it holds exactly the last `cap` of them, in the order they were
/// pushed.
pub proof fn lemma_history_keeps_last_pushed(s: Seq<HistoryPoint>, cap: nat, points: Seq<HistoryPoint>)
    requires
        s.len() <= cap,
    ensures
        push_all(s, cap, points) == keep_last(s + points, cap),
        points.len() >= cap ==> push_all(s, cap, points) == points.subrange(
            points.len() - cap,
            points.len() as int,
        ),
        push_all(s, cap, points).len() <= cap,
    decreases points.len(),
{
    if points.len() == 0 {
        assert(s + points =~= s);
    } else {
        let prev = points.drop_last();
        lemma_history_keeps_last_pushed(s, cap, prev);
        let a = keep_last(s + prev, cap);
        let full = s + points;
        assert(full =~= (s + prev).push(points.last()));
        assert(keep_last(a.push(points.last()), cap) =~= keep_last(full, cap));
    }
    if points.len() >= cap {
        assert(keep_last(s + points, cap) =~= points.subrange(
            points.len() - cap,
            points.len() as int,
        ));
    }
}

} // verus!
