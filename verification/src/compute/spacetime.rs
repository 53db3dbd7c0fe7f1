use vstd::prelude::*;

verus! {

/// Nanoseconds in one second.
pub const NANOS_PER_SECOND: i128 = 1_000_000_000;

/// The largest instant a point may hold, in nanoseconds from the epoch
/// (ten million million seconds); the smallest is its negation.
pub const MAX_TIME: i128 = 10_000_000_000_000_000_000_000;

/// Whether `nanos` is an instant that a point may hold.
pub open spec fn time_in_range(nanos: int) -> bool {
    -MAX_TIME <= nanos <= MAX_TIME
}

/// The whole seconds from the epoch up to the instant `nanos`, rounded down.
pub open spec fn epoch_seconds(nanos: int) -> int {
    nanos / (NANOS_PER_SECOND as int)
}

/// Whether the instant `t` lies in the interval `[start, end]`.
pub open spec fn within(t: int, start: int, end: int) -> bool {
    start <= t <= end
}

/// Whether one of the intervals `[a_start, a_end]` and `[b_start, b_end]`
/// begins strictly inside the other.
pub open spec fn starts_inside(a_start: int, a_end: int, b_start: int, b_end: int) -> bool {
    (b_start > a_start && b_start < a_end) || (a_start > b_start && a_start < b_end)
}

/// The time between the intervals `[a_start, a_end]` and `[b_start, b_end]`:
/// zero where one begins inside the other or where they meet, and otherwise
/// what lies between the end of the earlier and the start of the later.
pub open spec fn temporal_gap(a_start: int, a_end: int, b_start: int, b_end: int) -> int {
    let later_start = if a_start >= b_start {
        a_start
    } else {
        b_start
    };
    let earlier_end = if a_end <= b_end {
        a_end
    } else {
        b_end
    };
    if starts_inside(a_start, a_end, b_start, b_end) || later_start <= earlier_end {
        0
    } else {
        later_start - earlier_end
    }
}

/// What a point says: the subject was at (`latitude`, `longitude`), both in
/// ten-millionths of a degree, at some instant of `[start_time, end_time]`,
/// both in nanoseconds from the epoch.
pub ghost struct PointView {
    pub latitude: int,
    pub longitude: int,
    pub start_time: int,
    pub end_time: int,
}

impl PointView {
    /// The point's interval is not empty and lies in the range of instants,
    /// and its coordinates fit the machine.
    pub open spec fn wf(self) -> bool {
        &&& i64::MIN <= self.latitude <= i64::MAX
        &&& i64::MIN <= self.longitude <= i64::MAX
        &&& time_in_range(self.start_time)
        &&& time_in_range(self.end_time)
        &&& self.start_time <= self.end_time
    }

    /// The start of the interval in whole seconds.
    pub open spec fn start_seconds(self) -> int {
        epoch_seconds(self.start_time)
    }

    /// The end of the interval in whole seconds.
    pub open spec fn end_seconds(self) -> int {
        epoch_seconds(self.end_time)
    }

    /// Whether the point's interval and `[start, end]`, all in whole seconds,
    /// overlap: one of them begins strictly inside the other.
    pub open spec fn temporal_overlap(self, start: int, end: int) -> bool {
        starts_inside(self.start_seconds(), self.end_seconds(), start, end)
    }

    /// The seconds between the point's interval and `[start, end]`.
    pub open spec fn temporal_distance(self, start: int, end: int) -> int {
        temporal_gap(self.start_seconds(), self.end_seconds(), start, end)
    }
}

/// Whether each point of `points` ends before the next one starts, or as it
/// starts.
pub open spec fn time_ordered(points: Seq<PointView>) -> bool {
    forall|i: int|
        0 <= i && i + 1 < points.len() ==> (#[trigger] points[i]).end_time <= points[i
            + 1].start_time
}

/// Whether every point of `points` is well-formed.
pub open spec fn all_wf(points: Seq<PointView>) -> bool {
    forall|i: int| 0 <= i < points.len() ==> (#[trigger] points[i]).wf()
}

/// The gap is never negative, and it does not depend on which interval is
/// named first.
pub proof fn lemma_temporal_gap_symmetric(a_start: int, a_end: int, b_start: int, b_end: int)
    ensures
        temporal_gap(a_start, a_end, b_start, b_end) >= 0,
        temporal_gap(a_start, a_end, b_start, b_end) == temporal_gap(b_start, b_end, a_start, a_end),
{
}

/// Of two intervals that are not empty: the gap is zero exactly when they
/// share an instant; otherwise it is the start of the later one less the end
/// of the earlier one.
pub proof fn lemma_temporal_gap_of_intervals(a_start: int, a_end: int, b_start: int, b_end: int)
    requires
        a_start <= a_end,
        b_start <= b_end,
    ensures
        temporal_gap(a_start, a_end, b_start, b_end) == 0 <==> (exists|t: int| #[trigger]
            within(t, a_start, a_end) && within(t, b_start, b_end)),
        a_end < b_start ==> temporal_gap(a_start, a_end, b_start, b_end) == b_start - a_end,
        b_end < a_start ==> temporal_gap(a_start, a_end, b_start, b_end) == a_start - b_end,
{
    if a_end < b_start || b_end < a_start {
        assert(temporal_gap(a_start, a_end, b_start, b_end) > 0);
    } else {
        let t = if a_start >= b_start {
            a_start
        } else {
            b_start
        };
        assert(within(t, a_start, a_end) && within(t, b_start, b_end));
    }
}

/// The whole seconds of an instant given in nanoseconds, rounded down.
pub(crate) fn seconds_of(nanos: i128) -> (seconds: i64)
    requires
        time_in_range(nanos as int),
    ensures
        seconds == epoch_seconds(nanos as int),
{
    let whole: i128 = nanos / NANOS_PER_SECOND;
    let rest: i128 = nanos % NANOS_PER_SECOND;
    if rest < 0 {
        (whole - 1) as i64
    } else {
        whole as i64
    }
}

/// One point of a trajectory.
#[derive(Debug, Clone, Copy, PartialEq, Eq)]
pub struct SpaceTimePoint {
    latitude: i64,
    longitude: i64,
    start_time: i128,
    end_time: i128,
}

impl View for SpaceTimePoint {
    type V = PointView;

    closed spec fn view(&self) -> PointView {
        PointView {
            latitude: self.latitude as int,
            longitude: self.longitude as int,
            start_time: self.start_time as int,
            end_time: self.end_time as int,
        }
    }
}

impl SpaceTimePoint {
    #[verifier::type_invariant]
    spec fn inv(&self) -> bool {
        self@.wf()
    }

    /// Makes the point, unless its interval is empty or leaves the range of
    /// instants.
    pub fn new(latitude: i64, longitude: i64, start_time: i128, end_time: i128) -> (point: Option<
        SpaceTimePoint,
    >)
        ensures
            point is Some <==> time_in_range(start_time as int) && time_in_range(end_time as int)
                && start_time <= end_time,
            point matches Some(p) ==> p@ == (PointView {
                latitude: latitude as int,
                longitude: longitude as int,
                start_time: start_time as int,
                end_time: end_time as int,
            }),
    {
        if -MAX_TIME <= start_time && start_time <= end_time && end_time <= MAX_TIME {
            Some(SpaceTimePoint { latitude, longitude, start_time, end_time })
        } else {
            None
        }
    }

    /// The latitude in ten-millionths of a degree.
    pub fn latitude(&self) -> (value: i64)
        ensures
            value == self@.latitude,
            self@.wf(),
    {
        proof {
            use_type_invariant(self);
        }
        self.latitude
    }

    /// The longitude in ten-millionths of a degree.
    pub fn longitude(&self) -> (value: i64)
        ensures
            value == self@.longitude,
            self@.wf(),
    {
        proof {
            use_type_invariant(self);
        }
        self.longitude
    }

    /// The start of the interval in nanoseconds from the epoch.
    pub fn start_time(&self) -> (value: i128)
        ensures
            value == self@.start_time,
            self@.wf(),
    {
        proof {
            use_type_invariant(self);
        }
        self.start_time
    }

    /// The end of the interval in nanoseconds from the epoch.
    pub fn end_time(&self) -> (value: i128)
        ensures
            value == self@.end_time,
            self@.wf(),
    {
        proof {
            use_type_invariant(self);
        }
        self.end_time
    }

    /// The start of the interval in whole seconds from the epoch.
    pub fn start_seconds(&self) -> (seconds: i64)
        ensures
            seconds == self@.start_seconds(),
            self@.wf(),
    {
        proof {
            use_type_invariant(self);
        }
        seconds_of(self.start_time)
    }

    /// The end of the interval in whole seconds from the epoch.
    pub fn end_seconds(&self) -> (seconds: i64)
        ensures
            seconds == self@.end_seconds(),
            self@.wf(),
    {
        proof {
            use_type_invariant(self);
        }
        seconds_of(self.end_time)
    }

    /// Whether the point's interval and `[start_time, end_time]`, given in
    /// whole seconds from the epoch, overlap.
    pub fn temporal_overlap(&self, start_time: i64, end_time: i64) -> (overlap: bool)
        ensures
            overlap == self@.temporal_overlap(start_time as int, end_time as int),
    {
        let self_start = self.start_seconds();
        let self_end = self.end_seconds();
        (start_time > self_start && start_time < self_end) || (self_start > start_time
            && self_start < end_time)
    }

    /// The seconds between the point's interval and `[start_time, end_time]`,
    /// given in whole seconds from the epoch: zero where they overlap or
    /// meet.
    pub fn temporal_distance(&self, start_time: i64, end_time: i64) -> (gap: u64)
        ensures
            gap == self@.temporal_distance(start_time as int, end_time as int),
    {
        if self.temporal_overlap(start_time, end_time) {
            return 0;
        }
        let self_start = self.start_seconds();
        let self_end = self.end_seconds();
        let later_start: i128 = if self_start >= start_time {
            self_start as i128
        } else {
            start_time as i128
        };
        let earlier_end: i128 = if self_end <= end_time {
            self_end as i128
        } else {
            end_time as i128
        };
        if later_start <= earlier_end {
            0
        } else {
            (later_start - earlier_end) as u64
        }
    }
}

/// A trajectory: points in the order of time, none reaching into the next.
#[derive(Debug)]
pub struct SpaceTimeRecord {
    points: Vec<SpaceTimePoint>,
}

impl View for SpaceTimeRecord {
    type V = Seq<PointView>;

    closed spec fn view(&self) -> Seq<PointView> {
        self.points@.map_values(|p: SpaceTimePoint| p@)
    }
}

/// The views of the points of `points`, in their order.
pub open spec fn views_of(points: Seq<SpaceTimePoint>) -> Seq<PointView> {
    points.map_values(|p: SpaceTimePoint| p@)
}

impl SpaceTimeRecord {
    #[verifier::type_invariant]
    spec fn inv(&self) -> bool {
        all_wf(self@) && time_ordered(self@)
    }

    /// Whether `points` are in the order of time, none reaching into the next.
    pub fn is_time_ordered(points: &Vec<SpaceTimePoint>) -> (ordered: bool)
        ensures
            ordered == time_ordered(views_of(points@)),
            all_wf(views_of(points@)),
    {
        let ghost views = views_of(points@);
        let mut ordered = true;
        let mut i: usize = 0;
        while i < points.len()
            invariant
                i <= points.len(),
                views == views_of(points@),
                forall|j: int| 0 <= j < i ==> (#[trigger] views[j]).wf(),
                ordered <==> forall|j: int|
                    0 <= j && j + 1 < i ==> (#[trigger] views[j]).end_time <= views[j
                        + 1].start_time,
            decreases points.len() - i,
        {
            let start = points[i].start_time();
            if i > 0 {
                let previous_end = points[i - 1].end_time();
                if previous_end > start {
                    assert(views[i - 1].end_time > views[i - 1 + 1].start_time);
                    ordered = false;
                }
            }
            i = i + 1;
        }
        ordered
    }

    /// Makes the record of `points`, kept in their order, if they are in the
    /// order of time.
    pub fn from_points(points: Vec<SpaceTimePoint>) -> (record: Option<SpaceTimeRecord>)
        ensures
            record is Some <==> time_ordered(views_of(points@)),
            record matches Some(r) ==> r@ == views_of(points@),
            all_wf(views_of(points@)),
    {
        if Self::is_time_ordered(&points) {
            assert((SpaceTimeRecord { points })@ == views_of(points@));
            Some(SpaceTimeRecord { points })
        } else {
            None
        }
    }

    /// The number of points.
    pub fn len(&self) -> (n: usize)
        ensures
            n == self@.len(),
    {
        self.points.len()
    }

    /// The point at `index`.
    pub fn point(&self, index: usize) -> (point: &SpaceTimePoint)
        requires
            index < self@.len(),
        ensures
            point@ == self@[index as int],
            point@.wf(),
    {
        proof {
            use_type_invariant(self);
        }
        &self.points[index]
    }

    /// The point at `index`, if there is one.
    pub fn get(&self, index: usize) -> (point: Option<SpaceTimePoint>)
        ensures
            point is Some <==> index < self@.len(),
            point matches Some(p) ==> p@ == self@[index as int] && p@.wf(),
    {
        if index < self.points.len() {
            Some(*self.point(index))
        } else {
            None
        }
    }

    /// The points in their order.
    pub fn points(&self) -> (points: &Vec<SpaceTimePoint>)
        ensures
            views_of(points@) == self@,
            time_ordered(self@),
            all_wf(self@),
    {
        proof {
            use_type_invariant(self);
        }
        &self.points
    }
}

/// In a record every point is well-formed, each ends no later than the next
/// starts, and so the starts and the ends both never decrease.
pub proof fn lemma_ordered_points_never_go_back(points: Seq<PointView>, i: int, j: int)
    requires
        all_wf(points),
        time_ordered(points),
        0 <= i <= j < points.len(),
    ensures
        points[i].start_time <= points[j].start_time,
        points[i].end_time <= points[j].end_time,
        i < j ==> points[i].end_time <= points[j].start_time,
    decreases j - i,
{
    if i < j {
        lemma_ordered_points_never_go_back(points, i, j - 1);
        assert(points[j - 1].end_time <= points[j].start_time);
        assert(points[j - 1].wf());
        assert(points[j].wf());
    }
}

} // verus!
