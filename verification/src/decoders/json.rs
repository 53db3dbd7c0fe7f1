use crate::compute::spacetime::{
    time_in_range, time_ordered, views_of, PointView, SpaceTimePoint,
};
use crate::decoders::errors::{DecoderError, DecoderErrorKind};
use crate::decoders::geo::{e7_is_scaled, geolocation_of, parse_geolocation, parse_geolocation_e7};
use crate::decoders::text::{integer_of, parse_i64};
use crate::decoders::time::{
    midpoint, midpoint_of, millis_timestamp_of, parse_timestamp_millis, parse_timestamp_str,
    part_of_span, quotient_towards_zero, step_towards, timestamp_of,
};
use crate::decoders::{
    collect_points, concat_from, lemma_prepend_twice, make_point, point_between, points_outcome,
    prepend, results_of, IntoSpaceTimePoints, PointsResult, PointsSpec,
};
use vstd::prelude::*;

verus! {

/// Nanoseconds in one minute.
pub const NANOS_PER_MINUTE: i128 = 60_000_000_000;

// ---------------------------------------------------------------------
// Samples: `{"locations": [...]}`
// ---------------------------------------------------------------------
/// One sample of a list of locations: a place and one instant, written
/// either as milliseconds from the epoch or in the form of RFC 3339.
#[derive(Debug)]
pub struct LocationEntry {
    pub latitude_e7: i64,
    pub longitude_e7: i64,
    pub timestamp_ms: Option<String>,
    pub timestamp: Option<String>,
}

/// What a `LocationEntry` holds, with its texts as sequences of characters.
pub ghost struct LocationEntryView {
    pub latitude_e7: int,
    pub longitude_e7: int,
    pub timestamp_ms: Option<Seq<char>>,
    pub timestamp: Option<Seq<char>>,
}

/// The text of an optional string.
pub open spec fn text_view(text: Option<String>) -> Option<Seq<char>> {
    match text {
        Some(t) => Some(t@),
        None => None,
    }
}

impl View for LocationEntry {
    type V = LocationEntryView;

    open spec fn view(&self) -> LocationEntryView {
        LocationEntryView {
            latitude_e7: self.latitude_e7 as int,
            longitude_e7: self.longitude_e7 as int,
            timestamp_ms: text_view(self.timestamp_ms),
            timestamp: text_view(self.timestamp),
        }
    }
}

/// A list of samples, the latest first.
#[derive(Debug)]
pub struct LocationEntries {
    pub locations: Vec<LocationEntry>,
}

impl View for LocationEntries {
    type V = Seq<LocationEntryView>;

    open spec fn view(&self) -> Seq<LocationEntryView> {
        self.locations@.map_values(|e: LocationEntry| e@)
    }
}

/// An instant read from a text, or the failure to read the time.
pub open spec fn instant_or_failure(instant: Option<int>) -> Result<int, DecoderErrorKind> {
    match instant {
        Some(t) => Ok(t),
        None => Err(DecoderErrorKind::TimeParse),
    }
}

impl LocationEntryView {
    /// The instant of the sample: from the milliseconds where they are
    /// given, else from the RFC 3339 text; a failure where neither is.
    pub open spec fn instant(self) -> Result<int, DecoderErrorKind> {
        match self.timestamp_ms {
            Some(ms) => instant_or_failure(millis_timestamp_of(ms)),
            None => match self.timestamp {
                Some(t) => instant_or_failure(timestamp_of(t)),
                None => Err(DecoderErrorKind::TimeParse),
            },
        }
    }

    /// The point of the sample: it starts and ends at the sample's instant.
    pub open spec fn point(self) -> Result<PointView, DecoderErrorKind> {
        match self.instant() {
            Err(kind) => Err(kind),
            Ok(t) => if !e7_is_scaled(self.latitude_e7) || !e7_is_scaled(self.longitude_e7) {
                Err(DecoderErrorKind::GeoParse)
            } else {
                point_between(self.latitude_e7, self.longitude_e7, t, t)
            },
        }
    }
}

/// The points of the samples `entries[..upto]`, taken from the last to the
/// first: the list has the latest sample first, the points come out in the
/// order of time.
pub open spec fn samples_points(entries: Seq<LocationEntryView>, upto: int) -> PointsSpec
    decreases upto,
{
    if upto <= 0 {
        Ok(Seq::empty())
    } else {
        match entries[upto - 1].point() {
            Err(kind) => Err(kind),
            Ok(p) => prepend(seq![p], samples_points(entries, upto - 1)),
        }
    }
}

/// The points of samples come out in the reverse of the samples' order.
pub proof fn lemma_samples_come_out_reversed(entries: Seq<LocationEntryView>, upto: int)
    requires
        0 <= upto <= entries.len(),
        samples_points(entries, upto) is Ok,
    ensures
        samples_points(entries, upto)->Ok_0.len() == upto,
        forall|i: int|
            0 <= i < upto ==> entries[upto - 1 - i].point() == Ok::<PointView, DecoderErrorKind>(
                #[trigger] samples_points(entries, upto)->Ok_0[i],
            ),
    decreases upto,
{
    if upto > 0 {
        let rest = samples_points(entries, upto - 1);
        assert(rest is Ok);
        lemma_samples_come_out_reversed(entries, upto - 1);
        let p = entries[upto - 1].point()->Ok_0;
        let all = samples_points(entries, upto)->Ok_0;
        assert(all == seq![p] + rest->Ok_0);
        assert forall|i: int| 0 <= i < upto implies entries[upto - 1 - i].point() == Ok::<
            PointView,
            DecoderErrorKind,
        >(#[trigger] all[i]) by {
            if i > 0 {
                assert(all[i] == rest->Ok_0[i - 1]);
            }
        }
    }
}

/// Samples that are listed with the latest first, none earlier than one
/// that follows it in the list, decode to points in the order of time.
pub proof fn lemma_latest_first_decodes_in_time_order(entries: Seq<LocationEntryView>)
    requires
        samples_points(entries, entries.len() as int) is Ok,
        forall|i: int, j: int|
            0 <= i < j < entries.len() ==> (#[trigger] entries[i].instant())->Ok_0 >= (
            #[trigger] entries[j].instant())->Ok_0,
    ensures
        time_ordered(
            samples_points(entries, entries.len() as int)->Ok_0,
        ),
{
    let n = entries.len() as int;
    let points = samples_points(entries, n)->Ok_0;
    lemma_samples_come_out_reversed(entries, n);
    assert forall|i: int| 0 <= i && i + 1 < points.len() implies (#[trigger] points[i]).end_time
        <= points[i + 1].start_time by {
        let later = entries[n - 1 - i];
        let earlier = entries[n - 2 - i];
        assert(later.point() == Ok::<PointView, DecoderErrorKind>(points[i]));
        assert(earlier.point() == Ok::<PointView, DecoderErrorKind>(points[i + 1]));
        assert(earlier.instant()->Ok_0 >= later.instant()->Ok_0);
    }
}

impl LocationEntry {
    /// The instant of the sample in nanoseconds from the epoch.
    pub fn get_timestamp(&self) -> (instant: Result<i128, DecoderError>)
        ensures
            match instant {
                Ok(t) => self@.instant() == Ok::<int, DecoderErrorKind>(t as int),
                Err(e) => self@.instant() == Err::<int, DecoderErrorKind>(e.spec_kind()),
            },
    {
        match &self.timestamp_ms {
            Some(ms) => parse_timestamp_millis(ms.as_str()),
            None => match &self.timestamp {
                Some(t) => parse_timestamp_str(t.as_str()),
                None => Err(
                    DecoderError::of_kind(DecoderErrorKind::TimeParse, "Location missing timestamp"),
                ),
            },
        }
    }

    /// The point of the sample.
    pub fn to_space_time_point(&self) -> (point: Result<SpaceTimePoint, DecoderError>)
        ensures
            match point {
                Ok(p) => self@.point() == Ok::<PointView, DecoderErrorKind>(p@),
                Err(e) => self@.point() == Err::<PointView, DecoderErrorKind>(e.spec_kind()),
            },
    {
        let instant = match self.get_timestamp() {
            Ok(t) => t,
            Err(e) => { return Err(e); },
        };
        let latitude = match parse_geolocation_e7(self.latitude_e7) {
            Ok(v) => v,
            Err(e) => { return Err(e); },
        };
        let longitude = match parse_geolocation_e7(self.longitude_e7) {
            Ok(v) => v,
            Err(e) => { return Err(e); },
        };
        make_point(latitude, longitude, instant, instant)
    }
}

impl LocationEntries {
    /// The points of the samples in the order of time: the list is read
    /// from its end. The first sample that cannot be read fails the whole.
    pub fn to_space_time_points(&self) -> (points: PointsResult)
        ensures
            points_outcome(points) == samples_points(self@, self@.len() as int),
    {
        let n = self.locations.len();
        let mut points: Vec<SpaceTimePoint> = Vec::new();
        let mut left: usize = n;
        while left > 0
            invariant
                left <= n,
                n == self.locations.len(),
                samples_points(self@, n as int) == prepend(
                    views_of(points@),
                    samples_points(self@, left as int),
                ),
            decreases left,
        {
            let entry = &self.locations[left - 1];
            assert(self@[left - 1] == entry@);
            match entry.to_space_time_point() {
                Err(e) => { return Err(e); },
                Ok(p) => {
                    proof {
                        lemma_prepend_twice(
                            views_of(points@),
                            seq![p@],
                            samples_points(self@, left - 1),
                        );
                        assert(views_of(points@.push(p)) == views_of(points@) + seq![p@]);
                    }
                    points.push(p);
                },
            }
            left = left - 1;
        }
        assert(views_of(points@) + Seq::<PointView>::empty() == views_of(points@));
        Ok(points)
    }
}

// ---------------------------------------------------------------------
// Entries: `[{"startTime": .., "endTime": .., ..}, ..]`
// ---------------------------------------------------------------------
/// One step of the path of an entry: a place, and the minutes from the
/// entry's start at which the step ends.
#[derive(Debug)]
pub struct TimelinePath {
    pub point: String,
    pub duration_minutes_offset_from_start_time: String,
}

/// What a `TimelinePath` holds, with its texts as sequences of characters.
pub ghost struct TimelinePathView {
    pub point: Seq<char>,
    pub offset: Seq<char>,
}

impl View for TimelinePath {
    type V = TimelinePathView;

    open spec fn view(&self) -> TimelinePathView {
        TimelinePathView {
            point: self.point@,
            offset: self.duration_minutes_offset_from_start_time@,
        }
    }
}

/// A movement: the places where it starts and ends.
#[derive(Debug)]
pub struct Activity {
    pub start: String,
    pub end: String,
}

/// What a `Activity` holds, with its texts as sequences of characters.
pub ghost struct ActivityView {
    pub start: Seq<char>,
    pub end: Seq<char>,
}

impl View for Activity {
    type V = ActivityView;

    open spec fn view(&self) -> ActivityView {
        ActivityView { start: self.start@, end: self.end@ }
    }
}

/// A stay: the place of its most likely candidate.
#[derive(Debug)]
pub struct Visit {
    pub place_location: String,
}

/// One entry of a flat list: an interval, and a stay, a path or a movement.
#[derive(Debug)]
pub struct JsonEntry {
    pub start_time: String,
    pub end_time: String,
    pub visit: Option<Visit>,
    pub timeline_path: Option<Vec<TimelinePath>>,
    pub activity: Option<Activity>,
}

/// What a `JsonEntry` holds, with its texts as sequences of characters.
pub ghost struct JsonEntryView {
    pub start_time: Seq<char>,
    pub end_time: Seq<char>,
    pub visit: Option<Seq<char>>,
    pub timeline_path: Option<Seq<TimelinePathView>>,
    pub activity: Option<ActivityView>,
}

impl View for JsonEntry {
    type V = JsonEntryView;

    open spec fn view(&self) -> JsonEntryView {
        JsonEntryView {
            start_time: self.start_time@,
            end_time: self.end_time@,
            visit: match self.visit {
                Some(v) => Some(v.place_location@),
                None => None,
            },
            timeline_path: match self.timeline_path {
                Some(path) => Some(path@.map_values(|step: TimelinePath| step@)),
                None => None,
            },
            activity: match self.activity {
                Some(a) => Some(a@),
                None => None,
            },
        }
    }
}

/// What an entry holds.
#[derive(Debug, Clone, Copy, PartialEq, Eq, Structural)]
pub enum EntryType {
    Visit,
    TimelinePath,
    StartEnd,
}

/// The two instants of an interval written as two RFC 3339 texts; the start
/// is read first.
pub open spec fn span_of(start: Seq<char>, end: Seq<char>) -> Result<(int, int), DecoderErrorKind> {
    match timestamp_of(start) {
        None => Err(DecoderErrorKind::TimeParse),
        Some(s) => match timestamp_of(end) {
            None => Err(DecoderErrorKind::TimeParse),
            Some(e) => Ok((s, e)),
        },
    }
}

/// Reads the two instants of an interval.
pub fn parse_span(start: &str, end: &str) -> (span: Result<(i128, i128), DecoderError>)
    ensures
        match span {
            Ok(s) => span_of(start@, end@) == Ok::<(int, int), DecoderErrorKind>(
                (s.0 as int, s.1 as int),
            ) && time_in_range(s.0 as int)
                && time_in_range(s.1 as int),
            Err(e) => span_of(start@, end@) == Err::<(int, int), DecoderErrorKind>(e.spec_kind()),
        },
{
    let s = parse_timestamp_str(start)?;
    let e = parse_timestamp_str(end)?;
    Ok((s, e))
}

/// The place that a text names, or the failure to read it.
pub open spec fn place_or_failure(text: Seq<char>) -> Result<(int, int), DecoderErrorKind> {
    match geolocation_of(text) {
        Some(place) => Ok(place),
        None => Err(DecoderErrorKind::GeoParse),
    }
}

/// The instant that lies the minutes written in `offset` after `start`.
pub open spec fn offset_instant(start: int, offset: Seq<char>) -> Result<int, DecoderErrorKind> {
    match integer_of(offset) {
        Some(minutes) => if i64::MIN <= minutes <= i64::MAX {
            Ok(start + minutes * NANOS_PER_MINUTE)
        } else {
            Err(DecoderErrorKind::TimeParse)
        },
        None => Err(DecoderErrorKind::TimeParse),
    }
}

/// The points of the steps `steps[i..]` of a path over `[path_start,
/// path_end]`, the step before them having ended at `last_end`. Each step
/// starts where the one before ended; it ends at its offset from the path's
/// start, the last one at the path's end.
pub open spec fn path_points(
    steps: Seq<TimelinePathView>,
    path_start: int,
    path_end: int,
    i: int,
    last_end: int,
) -> PointsSpec
    decreases steps.len() - i,
{
    if i < 0 || i >= steps.len() {
        Ok(Seq::empty())
    } else {
        match place_or_failure(steps[i].point) {
            Err(kind) => Err(kind),
            Ok(place) => {
                let end = if i + 1 == steps.len() {
                    Ok(path_end)
                } else {
                    offset_instant(path_start, steps[i].offset)
                };
                match end {
                    Err(kind) => Err(kind),
                    Ok(step_end) => match point_between(place.0, place.1, last_end, step_end) {
                        Err(kind) => Err(kind),
                        Ok(p) => prepend(
                            seq![p],
                            path_points(steps, path_start, path_end, i + 1, step_end),
                        ),
                    },
                }
            },
        }
    }
}

impl JsonEntryView {
    /// What the entry holds: a movement before a stay, a stay before a path;
    /// a failure where it holds none of them.
    pub open spec fn entry_type(self) -> Result<EntryType, DecoderErrorKind> {
        if self.activity is Some {
            Ok(EntryType::StartEnd)
        } else if self.visit is Some {
            Ok(EntryType::Visit)
        } else if self.timeline_path is Some {
            Ok(EntryType::TimelinePath)
        } else {
            Err(DecoderErrorKind::EmptyEntry)
        }
    }

    /// The one point of a stay: the place over the whole interval.
    pub open spec fn visit_points(self) -> PointsSpec {
        match span_of(self.start_time, self.end_time) {
            Err(kind) => Err(kind),
            Ok(span) => match self.visit {
                None => Err(DecoderErrorKind::EmptyEntry),
                Some(text) => match place_or_failure(text) {
                    Err(kind) => Err(kind),
                    Ok(place) => match point_between(place.0, place.1, span.0, span.1) {
                        Err(kind) => Err(kind),
                        Ok(p) => Ok(seq![p]),
                    },
                },
            },
        }
    }

    /// The two points of a movement: the place of the start over the first
    /// half of the interval, the place of the end over the second half.
    pub open spec fn start_end_points(self) -> PointsSpec {
        match span_of(self.start_time, self.end_time) {
            Err(kind) => Err(kind),
            Ok(span) => match self.activity {
                None => Err(DecoderErrorKind::EmptyEntry),
                Some(activity) => match place_or_failure(activity.start) {
                    Err(kind) => Err(kind),
                    Ok(from) => match place_or_failure(activity.end) {
                        Err(kind) => Err(kind),
                        Ok(to) => {
                            let middle = midpoint(span.0, span.1);
                            match point_between(from.0, from.1, span.0, middle) {
                                Err(kind) => Err(kind),
                                Ok(first) => match point_between(to.0, to.1, middle, span.1) {
                                    Err(kind) => Err(kind),
                                    Ok(second) => Ok(seq![first, second]),
                                },
                            }
                        },
                    },
                },
            },
        }
    }

    /// The points of a path, one for each step.
    pub open spec fn timeline_path_points(self) -> PointsSpec {
        match span_of(self.start_time, self.end_time) {
            Err(kind) => Err(kind),
            Ok(span) => match self.timeline_path {
                None => Err(DecoderErrorKind::EmptyEntry),
                Some(steps) => path_points(steps, span.0, span.1, 0, span.0),
            },
        }
    }

    /// The points of the entry, by what it holds.
    pub open spec fn points(self) -> PointsSpec {
        match self.entry_type() {
            Err(kind) => Err(kind),
            Ok(EntryType::StartEnd) => self.start_end_points(),
            Ok(EntryType::Visit) => self.visit_points(),
            Ok(EntryType::TimelinePath) => self.timeline_path_points(),
        }
    }
}

/// The place that `text` names, in ten-millionths of a degree.
pub fn parse_place(text: &str) -> (place: Result<(i64, i64), DecoderError>)
    ensures
        match place {
            Ok(p) => place_or_failure(text@) == Ok::<(int, int), DecoderErrorKind>(
                (p.0 as int, p.1 as int),
            ),
            Err(e) => place_or_failure(text@) == Err::<(int, int), DecoderErrorKind>(
                e.spec_kind(),
            ),
        },
{
    parse_geolocation(text)
}

/// The instant that lies the minutes written in `offset` after `start`.
pub(crate) fn parse_offset(start: i128, offset: &str) -> (instant: Result<i128, DecoderError>)
    requires
        time_in_range(start as int),
    ensures
        match instant {
            Ok(t) => offset_instant(start as int, offset@) == Ok::<int, DecoderErrorKind>(t as int),
            Err(e) => offset_instant(start as int, offset@) == Err::<int, DecoderErrorKind>(
                e.spec_kind(),
            ),
        },
{
    match parse_i64(offset) {
        Some(minutes) => Ok(start + (minutes as i128) * NANOS_PER_MINUTE),
        None => Err(DecoderError::of_kind(DecoderErrorKind::TimeParse, "invalid offset in minutes")),
    }
}

impl JsonEntry {
    /// What the entry holds.
    pub fn get_entry_type(&self) -> (entry_type: Result<EntryType, DecoderError>)
        ensures
            match entry_type {
                Ok(t) => self@.entry_type() == Ok::<EntryType, DecoderErrorKind>(t),
                Err(e) => self@.entry_type() == Err::<EntryType, DecoderErrorKind>(e.spec_kind()),
            },
    {
        if self.activity.is_some() {
            Ok(EntryType::StartEnd)
        } else if self.visit.is_some() {
            Ok(EntryType::Visit)
        } else if self.timeline_path.is_some() {
            Ok(EntryType::TimelinePath)
        } else {
            Err(DecoderError::of_kind(DecoderErrorKind::EmptyEntry, "No Data Found for entry"))
        }
    }

    /// The one point of a stay.
    pub fn parse_visit(&self) -> (points: PointsResult)
        ensures
            points_outcome(points) == self@.visit_points(),
    {
        let span = parse_span(self.start_time.as_str(), self.end_time.as_str())?;
        let visit = match &self.visit {
            Some(v) => v,
            None => {
                return Err(
                    DecoderError::of_kind(
                        DecoderErrorKind::EmptyEntry,
                        "Entry classified as Visit but was empty",
                    ),
                );
            },
        };
        let place = parse_place(visit.place_location.as_str())?;
        let point = make_point(place.0, place.1, span.0, span.1)?;
        let mut points: Vec<SpaceTimePoint> = Vec::new();
        points.push(point);
        assert(views_of(points@) == seq![point@]);
        Ok(points)
    }

    /// The two points of a movement.
    pub fn parse_start_end_entry(&self) -> (points: PointsResult)
        ensures
            points_outcome(points) == self@.start_end_points(),
    {
        let span = parse_span(self.start_time.as_str(), self.end_time.as_str())?;
        let middle = midpoint_of(span.0, span.1);
        let activity = match &self.activity {
            Some(a) => a,
            None => {
                return Err(
                    DecoderError::of_kind(
                        DecoderErrorKind::EmptyEntry,
                        "Entry classified as StartEnd Entry but was empty",
                    ),
                );
            },
        };
        let from = parse_place(activity.start.as_str())?;
        let to = parse_place(activity.end.as_str())?;
        let first = make_point(from.0, from.1, span.0, middle)?;
        let second = make_point(to.0, to.1, middle, span.1)?;
        let mut points: Vec<SpaceTimePoint> = Vec::new();
        points.push(first);
        points.push(second);
        assert(views_of(points@) == seq![first@, second@]);
        Ok(points)
    }

    /// The points of a path, one for each step.
    pub fn parse_timeline_path(&self) -> (points: PointsResult)
        ensures
            points_outcome(points) == self@.timeline_path_points(),
    {
        let span = parse_span(self.start_time.as_str(), self.end_time.as_str())?;
        let timeline = match &self.timeline_path {
            Some(t) => t,
            None => {
                return Err(
                    DecoderError::of_kind(
                        DecoderErrorKind::EmptyEntry,
                        "Entry classified as TimelinePath but was empty",
                    ),
                );
            },
        };
        let ghost steps = timeline@.map_values(|step: TimelinePath| step@);
        let ghost whole = path_points(steps, span.0 as int, span.1 as int, 0, span.0 as int);
        let n = timeline.len();
        let mut points: Vec<SpaceTimePoint> = Vec::new();
        let mut last_end: i128 = span.0;
        let mut i: usize = 0;
        while i < n
            invariant
                i <= n,
                n == timeline.len(),
                steps == timeline@.map_values(|step: TimelinePath| step@),
                time_in_range(span.0 as int),
                self@.timeline_path_points() == whole,
                whole == prepend(
                    views_of(points@),
                    path_points(steps, span.0 as int, span.1 as int, i as int, last_end as int),
                ),
            decreases n - i,
        {
            let step = &timeline[i];
            assert(steps[i as int] == step@);
            let place = parse_place(step.point.as_str())?;
            let step_end = if i + 1 == n {
                span.1
            } else {
                parse_offset(span.0, step.duration_minutes_offset_from_start_time.as_str())?
            };
            let point = make_point(place.0, place.1, last_end, step_end)?;
            proof {
                lemma_prepend_twice(
                    views_of(points@),
                    seq![point@],
                    path_points(steps, span.0 as int, span.1 as int, i + 1, step_end as int),
                );
                assert(views_of(points@.push(point)) == views_of(points@) + seq![point@]);
            }
            points.push(point);
            last_end = step_end;
            i = i + 1;
        }
        assert(views_of(points@) + Seq::<PointView>::empty() == views_of(points@));
        Ok(points)
    }

}

impl IntoSpaceTimePoints for JsonEntry {
    open spec fn points_spec(&self) -> PointsSpec {
        self@.points()
    }

    /// The points of the entry, by what it holds.
    fn to_space_time_points(&self) -> (points: PointsResult) {
        match self.get_entry_type()? {
            EntryType::StartEnd => self.parse_start_end_entry(),
            EntryType::Visit => self.parse_visit(),
            EntryType::TimelinePath => self.parse_timeline_path(),
        }
    }
}

// ---------------------------------------------------------------------
// Timeline objects: `{"timelineObjects": [...]}`
// ---------------------------------------------------------------------
/// A place in ten-millionths of a degree; either coordinate may be missing.
#[derive(Debug, Clone, Copy, PartialEq, Eq, Structural)]
pub struct Location {
    pub latitude_e7: Option<i64>,
    pub longitude_e7: Option<i64>,
}

/// An interval written as two RFC 3339 texts.
#[derive(Debug)]
pub struct JsonDuration {
    pub start_timestamp: String,
    pub end_timestamp: String,
}

/// What a `JsonDuration` holds, with its texts as sequences of characters.
pub ghost struct DurationView {
    pub start_timestamp: Seq<char>,
    pub end_timestamp: Seq<char>,
}

impl View for JsonDuration {
    type V = DurationView;

    open spec fn view(&self) -> DurationView {
        DurationView { start_timestamp: self.start_timestamp@, end_timestamp: self.end_timestamp@ }
    }
}

/// A recorded point of a movement: a place and the instant it was taken.
#[derive(Debug)]
pub struct RawPoint {
    pub location: Location,
    pub timestamp: String,
}

/// What a `RawPoint` holds, with its texts as sequences of characters.
pub ghost struct RawPointView {
    pub location: Location,
    pub timestamp: Seq<char>,
}

impl View for RawPoint {
    type V = RawPointView;

    open spec fn view(&self) -> RawPointView {
        RawPointView { location: self.location, timestamp: self.timestamp@ }
    }
}

/// A stay at a place.
#[derive(Debug)]
pub struct PlaceVisit {
    pub location: Location,
    pub duration: JsonDuration,
}

/// What a `PlaceVisit` holds, with its texts as sequences of characters.
pub ghost struct PlaceVisitView {
    pub location: Location,
    pub duration: DurationView,
}

impl View for PlaceVisit {
    type V = PlaceVisitView;

    open spec fn view(&self) -> PlaceVisitView {
        PlaceVisitView { location: self.location, duration: self.duration@ }
    }
}

/// A movement from one place to another, with the recorded points or the
/// inferred waypoints between them where there are any.
#[derive(Debug)]
pub struct ActivitySegment {
    pub start_location: Location,
    pub end_location: Location,
    pub duration: JsonDuration,
    pub simplified_raw_path: Option<Vec<RawPoint>>,
    pub waypoint_path: Option<Vec<Location>>,
}

/// What a `ActivitySegment` holds, with its texts as sequences of characters.
pub ghost struct ActivitySegmentView {
    pub start_location: Location,
    pub end_location: Location,
    pub duration: DurationView,
    pub simplified_raw_path: Option<Seq<RawPointView>>,
    pub waypoint_path: Option<Seq<Location>>,
}

impl View for ActivitySegment {
    type V = ActivitySegmentView;

    open spec fn view(&self) -> ActivitySegmentView {
        ActivitySegmentView {
            start_location: self.start_location,
            end_location: self.end_location,
            duration: self.duration@,
            simplified_raw_path: match self.simplified_raw_path {
                Some(path) => Some(path@.map_values(|p: RawPoint| p@)),
                None => None,
            },
            waypoint_path: match self.waypoint_path {
                Some(path) => Some(path@),
                None => None,
            },
        }
    }
}

/// One object of a timeline: a stay or a movement.
#[derive(Debug)]
pub struct TimelineObject {
    pub place_visit: Option<PlaceVisit>,
    pub activity_segment: Option<ActivitySegment>,
}

/// What a `TimelineObject` holds, with its texts as sequences of characters.
pub ghost struct TimelineObjectView {
    pub place_visit: Option<PlaceVisitView>,
    pub activity_segment: Option<ActivitySegmentView>,
}

impl View for TimelineObject {
    type V = TimelineObjectView;

    open spec fn view(&self) -> TimelineObjectView {
        TimelineObjectView {
            place_visit: match self.place_visit {
                Some(v) => Some(v@),
                None => None,
            },
            activity_segment: match self.activity_segment {
                Some(a) => Some(a@),
                None => None,
            },
        }
    }
}

/// A timeline: its objects in the order of time.
#[derive(Debug)]
pub struct TimeLineObjects {
    pub timeline_objects: Vec<TimelineObject>,
}

impl View for TimeLineObjects {
    type V = Seq<TimelineObjectView>;

    open spec fn view(&self) -> Seq<TimelineObjectView> {
        self.timeline_objects@.map_values(|o: TimelineObject| o@)
    }
}

/// What a timeline object holds.
#[derive(Debug, Clone, Copy, PartialEq, Eq, Structural)]
pub enum TimelineType {
    PlaceVisit,
    ActivitySegment,
}

/// What lies between the two ends of a movement.
#[derive(Debug, Clone, Copy, PartialEq, Eq, Structural)]
pub enum PointType {
    RawPoints,
    Waypoints,
    NoPoints,
}

/// The place of `location` over `[start, end]`: no point where a coordinate
/// is missing, a failure where one was not scaled.
pub open spec fn located_point(location: Location, start: int, end: int) -> Result<
    Option<PointView>,
    DecoderErrorKind,
> {
    match (location.latitude_e7, location.longitude_e7) {
        (Some(latitude), Some(longitude)) => if !e7_is_scaled(latitude as int) || !e7_is_scaled(
            longitude as int,
        ) {
            Err(DecoderErrorKind::GeoParse)
        } else {
            match point_between(latitude as int, longitude as int, start, end) {
                Ok(p) => Ok(Some(p)),
                Err(kind) => Err(kind),
            }
        },
        _ => Ok(None),
    }
}

/// The points that an optional point stands for: itself, or none.
pub open spec fn optional_points(point: Option<PointView>) -> Seq<PointView> {
    match point {
        Some(p) => seq![p],
        None => Seq::empty(),
    }
}

impl PlaceVisitView {
    /// The one point of the stay; none where a coordinate is missing. The
    /// coordinates are read before the interval.
    pub open spec fn points(self) -> PointsSpec {
        match (self.location.latitude_e7, self.location.longitude_e7) {
            (Some(latitude), Some(longitude)) => if !e7_is_scaled(latitude as int)
                || !e7_is_scaled(longitude as int) {
                Err(DecoderErrorKind::GeoParse)
            } else {
                match span_of(self.duration.start_timestamp, self.duration.end_timestamp) {
                    Err(kind) => Err(kind),
                    Ok(span) => match point_between(
                        latitude as int,
                        longitude as int,
                        span.0,
                        span.1,
                    ) {
                        Err(kind) => Err(kind),
                        Ok(p) => Ok(seq![p]),
                    },
                }
            },
            _ => Ok(Seq::empty()),
        }
    }
}

impl ActivitySegmentView {
    /// What lies between the ends: recorded points before waypoints.
    pub open spec fn point_type(self) -> PointType {
        if self.simplified_raw_path is Some {
            PointType::RawPoints
        } else if self.waypoint_path is Some {
            PointType::Waypoints
        } else {
            PointType::NoPoints
        }
    }

    /// How many places lie between the ends.
    pub open spec fn path_len(self) -> nat {
        match self.point_type() {
            PointType::RawPoints => self.simplified_raw_path->0.len(),
            PointType::Waypoints => self.waypoint_path->0.len(),
            PointType::NoPoints => 0,
        }
    }

    /// How many places the movement has, its two ends included.
    pub open spec fn num_points(self) -> int {
        2 + self.path_len() as int
    }

    /// The `i`th place of the movement: its start, then what lies between,
    /// then its end.
    pub open spec fn waypoint(self, i: int) -> Location {
        if i <= 0 {
            self.start_location
        } else if i >= self.num_points() - 1 {
            self.end_location
        } else {
            match self.point_type() {
                PointType::RawPoints => self.simplified_raw_path->0[i - 1].location,
                PointType::Waypoints => self.waypoint_path->0[i - 1],
                PointType::NoPoints => self.end_location,
            }
        }
    }

    /// The instant of the `j`th recorded point, or the failure to read it.
    pub open spec fn raw_instant(self, j: int) -> Result<int, DecoderErrorKind> {
        instant_or_failure(timestamp_of(self.simplified_raw_path->0[j].timestamp))
    }

    /// When the `i`th place of a movement over `[start, end]` ends, the one
    /// before it having ended at `last_end`. The last place ends with the
    /// movement. Among recorded points a place ends halfway between the
    /// instant of the recorded point before it (the start of the movement
    /// for the first place) and the instant of the next one (the end of the
    /// movement for the last but one). Otherwise every place lasts the same
    /// part of the movement.
    pub open spec fn point_end(self, start: int, end: int, i: int, last_end: int) -> Result<
        int,
        DecoderErrorKind,
    > {
        let n = self.num_points();
        if i >= n - 1 {
            Ok(end)
        } else if self.point_type() == PointType::RawPoints {
            let current = if i <= 0 {
                Ok(start)
            } else {
                self.raw_instant(i - 1)
            };
            match current {
                Err(kind) => Err(kind),
                Ok(cur) => {
                    let following = if i == n - 2 {
                        Ok(end)
                    } else {
                        self.raw_instant(i)
                    };
                    match following {
                        Err(kind) => Err(kind),
                        Ok(next) => Ok(midpoint(cur, next)),
                    }
                },
            }
        } else {
            Ok(last_end + quotient_towards_zero(end - start, n))
        }
    }

    /// The points of the places from the `i`th on. A place without both
    /// coordinates gives no point, but the time moves on past it.
    pub open spec fn points_from(self, start: int, end: int, i: int, last_end: int) -> PointsSpec
        decreases self.num_points() - i,
    {
        if i < 0 || i >= self.num_points() {
            Ok(Seq::empty())
        } else {
            match self.point_end(start, end, i, last_end) {
                Err(kind) => Err(kind),
                Ok(this_end) => match located_point(self.waypoint(i), last_end, this_end) {
                    Err(kind) => Err(kind),
                    Ok(point) => prepend(
                        optional_points(point),
                        self.points_from(start, end, i + 1, this_end),
                    ),
                },
            }
        }
    }

    /// The points of the movement. A movement with more places than the
    /// machine can count is refused as malformed.
    pub open spec fn points(self) -> PointsSpec {
        match span_of(self.duration.start_timestamp, self.duration.end_timestamp) {
            Err(kind) => Err(kind),
            Ok(span) => if self.num_points() > usize::MAX {
                Err(DecoderErrorKind::Deserialize)
            } else {
                self.points_from(span.0, span.1, 0, span.0)
            },
        }
    }
}

impl TimelineObjectView {
    /// What the object holds: a stay before a movement; a failure where it
    /// holds neither.
    pub open spec fn timeline_type(self) -> Result<TimelineType, DecoderErrorKind> {
        if self.place_visit is Some {
            Ok(TimelineType::PlaceVisit)
        } else if self.activity_segment is Some {
            Ok(TimelineType::ActivitySegment)
        } else {
            Err(DecoderErrorKind::EmptyEntry)
        }
    }

    /// The points of the object, by what it holds.
    pub open spec fn points(self) -> PointsSpec {
        match self.timeline_type() {
            Err(kind) => Err(kind),
            Ok(TimelineType::PlaceVisit) => self.place_visit->0.points(),
            Ok(TimelineType::ActivitySegment) => self.activity_segment->0.points(),
        }
    }
}

/// Every part of the way from `start` to `end` lies between them, however
/// many of the `n` parts are taken.
pub proof fn lemma_steps_stay_between(start: int, end: int, n: int, k: int)
    requires
        n >= 1,
        0 <= k <= n,
    ensures
        start <= end ==> start <= step_towards(start, end, n, k) <= end,
        end <= start ==> end <= step_towards(start, end, n, k) <= start,
{
    let span = end - start;
    if span >= 0 {
        let q = span / n;
        assert(0 <= k * q <= span) by (nonlinear_arith)
            requires
                span >= 0,
                n >= 1,
                0 <= k <= n,
                q == span / n,
        ;
    } else {
        let q = (-span) / n;
        assert(0 <= k * q <= -span) by (nonlinear_arith)
            requires
                span < 0,
                n >= 1,
                0 <= k <= n,
                q == (-span) / n,
        ;
        assert(k * (-q) == -(k * q)) by (nonlinear_arith);
    }
}

/// A movement with nothing between its ends, whose ends both have their
/// coordinates, gives two points: the start over the first half of the
/// movement and the end over the second half.
pub proof fn lemma_bare_segment_has_two_points(segment: ActivitySegmentView, start: int, end: int)
    requires
        segment.simplified_raw_path is None,
        segment.waypoint_path is None,
        span_of(segment.duration.start_timestamp, segment.duration.end_timestamp) == Ok::<
            (int, int),
            DecoderErrorKind,
        >((start, end)),
        time_in_range(start),
        time_in_range(end),
        start <= end,
        located_point(segment.start_location, start, midpoint(start, end)) matches Ok(Some(_)),
        located_point(segment.end_location, midpoint(start, end), end) matches Ok(Some(_)),
    ensures
        segment.points() == Ok::<Seq<PointView>, DecoderErrorKind>(
            seq![
                located_point(segment.start_location, start, midpoint(start, end))->Ok_0->0,
                located_point(segment.end_location, midpoint(start, end), end)->Ok_0->0,
            ],
        ),
        located_point(segment.start_location, start, midpoint(start, end))->Ok_0->0.start_time
            == start,
        located_point(segment.end_location, midpoint(start, end), end)->Ok_0->0.end_time == end,
        start <= midpoint(start, end) <= end,
{
    let middle = midpoint(start, end);
    let first = located_point(segment.start_location, start, middle)->Ok_0->0;
    let second = located_point(segment.end_location, middle, end)->Ok_0->0;
    assert(segment.num_points() == 2);
    assert(segment.point_end(start, end, 0, start) == Ok::<int, DecoderErrorKind>(middle));
    assert(segment.point_end(start, end, 1, middle) == Ok::<int, DecoderErrorKind>(end));
    assert(segment.points_from(start, end, 2, end) == Ok::<Seq<PointView>, DecoderErrorKind>(
        Seq::empty(),
    ));
    assert(segment.points_from(start, end, 1, middle) == Ok::<Seq<PointView>, DecoderErrorKind>(
        seq![second],
    )) by {
        assert(seq![second] + Seq::<PointView>::empty() == seq![second]);
    }
    assert(segment.points_from(start, end, 0, start) == Ok::<Seq<PointView>, DecoderErrorKind>(
        seq![first, second],
    )) by {
        assert(seq![first] + seq![second] == seq![first, second]);
    }
}

/// Reads the place of `location` over `[start, end]`.
pub fn locate(location: &Location, start: i128, end: i128) -> (point: Result<
    Option<SpaceTimePoint>,
    DecoderError,
>)
    ensures
        match point {
            Ok(Some(p)) => located_point(*location, start as int, end as int) == Ok::<
                Option<PointView>,
                DecoderErrorKind,
            >(Some(p@)),
            Ok(None) => located_point(*location, start as int, end as int) == Ok::<
                Option<PointView>,
                DecoderErrorKind,
            >(None),
            Err(e) => located_point(*location, start as int, end as int) == Err::<
                Option<PointView>,
                DecoderErrorKind,
            >(e.spec_kind()),
        },
{
    match (location.latitude_e7, location.longitude_e7) {
        (Some(latitude_e7), Some(longitude_e7)) => {
            let latitude = parse_geolocation_e7(latitude_e7)?;
            let longitude = parse_geolocation_e7(longitude_e7)?;
            let point = make_point(latitude, longitude, start, end)?;
            Ok(Some(point))
        },
        _ => Ok(None),
    }
}

impl PlaceVisit {
    /// The one point of the stay; none where a coordinate is missing.
    pub fn to_space_time_points(&self) -> (points: PointsResult)
        ensures
            points_outcome(points) == self@.points(),
    {
        let mut points: Vec<SpaceTimePoint> = Vec::new();
        match (self.location.latitude_e7, self.location.longitude_e7) {
            (Some(latitude_e7), Some(longitude_e7)) => {
                let latitude = parse_geolocation_e7(latitude_e7)?;
                let longitude = parse_geolocation_e7(longitude_e7)?;
                let span = parse_span(
                    self.duration.start_timestamp.as_str(),
                    self.duration.end_timestamp.as_str(),
                )?;
                let point = make_point(latitude, longitude, span.0, span.1)?;
                points.push(point);
                assert(views_of(points@) == seq![point@]);
                Ok(points)
            },
            _ => {
                assert(views_of(points@) == Seq::<PointView>::empty());
                Ok(points)
            },
        }
    }
}

impl ActivitySegment {
    /// What lies between the ends of the movement.
    pub fn get_point_type(&self) -> (point_type: PointType)
        ensures
            point_type == self@.point_type(),
    {
        if self.simplified_raw_path.is_some() {
            PointType::RawPoints
        } else if self.waypoint_path.is_some() {
            PointType::Waypoints
        } else {
            PointType::NoPoints
        }
    }

    /// How many places lie between the ends.
    pub fn path_len(&self) -> (n: usize)
        ensures
            n == self@.path_len(),
    {
        match &self.simplified_raw_path {
            Some(path) => path.len(),
            None => match &self.waypoint_path {
                Some(path) => path.len(),
                None => 0,
            },
        }
    }

    /// The `i`th place of the movement.
    fn waypoint(&self, i: usize) -> (location: Location)
        requires
            i < self@.num_points(),
        ensures
            location == self@.waypoint(i as int),
    {
        let between = self.path_len();
        if i == 0 {
            self.start_location
        } else if i > between {
            self.end_location
        } else {
            match &self.simplified_raw_path {
                Some(path) => path[i - 1].location,
                None => match &self.waypoint_path {
                    Some(path) => path[i - 1],
                    None => self.end_location,
                },
            }
        }
    }

    /// The instant of the `j`th recorded point.
    fn raw_instant(&self, j: usize) -> (instant: Result<i128, DecoderError>)
        requires
            self@.point_type() == PointType::RawPoints,
            j < self@.path_len(),
        ensures
            match instant {
                Ok(t) => self@.raw_instant(j as int) == Ok::<int, DecoderErrorKind>(t as int)
                    && time_in_range(t as int),
                Err(e) => self@.raw_instant(j as int) == Err::<int, DecoderErrorKind>(
                    e.spec_kind(),
                ),
            },
    {
        match &self.simplified_raw_path {
            Some(path) => parse_timestamp_str(path[j].timestamp.as_str()),
            None => Err(DecoderError::of_kind(DecoderErrorKind::Deserialize, "no recorded points")),
        }
    }

    /// When the `i`th place of the movement ends.
    fn point_end(&self, start: i128, end: i128, part: i128, i: usize, last_end: i128) -> (instant:
        Result<i128, DecoderError>)
        requires
            time_in_range(start as int),
            time_in_range(end as int),
            time_in_range(last_end as int),
            self@.num_points() <= usize::MAX,
            i < self@.num_points(),
            part == quotient_towards_zero(end - start, self@.num_points()),
            self@.point_type() != PointType::RawPoints ==> last_end
                == step_towards(
                start as int,
                end as int,
                self@.num_points(),
                i as int,
            ),
        ensures
            match instant {
                Ok(t) => self@.point_end(start as int, end as int, i as int, last_end as int)
                    == Ok::<int, DecoderErrorKind>(t as int)
                    && time_in_range(t as int) && (i + 1
                    < self@.num_points() && self@.point_type() != PointType::RawPoints ==> t
                    == step_towards(
                    start as int,
                    end as int,
                    self@.num_points(),
                    i + 1,
                )),
                Err(e) => self@.point_end(start as int, end as int, i as int, last_end as int)
                    == Err::<int, DecoderErrorKind>(e.spec_kind()),
            },
    {
        let between = self.path_len();
        if i == between + 1 {
            return Ok(end);
        }
        match self.get_point_type() {
            PointType::RawPoints => {
                let current = if i == 0 {
                    start
                } else {
                    self.raw_instant(i - 1)?
                };
                let following = if i == between {
                    end
                } else {
                    self.raw_instant(i)?
                };
                Ok(midpoint_of(current, following))
            },
            _ => {
                proof {
                    let n = self@.num_points();
                    lemma_steps_stay_between(start as int, end as int, n, i + 1);
                    assert((i + 1) * part == i * part + part) by (nonlinear_arith);
                }
                Ok(last_end + part)
            },
        }
    }

    /// The points of the movement: one for each of its places that has both
    /// coordinates.
    pub fn to_space_time_points(&self) -> (points: PointsResult)
        ensures
            points_outcome(points) == self@.points(),
    {
        let span = parse_span(
            self.duration.start_timestamp.as_str(),
            self.duration.end_timestamp.as_str(),
        )?;
        let between = self.path_len();
        if between > usize::MAX - 2 {
            return Err(
                DecoderError::of_kind(DecoderErrorKind::Deserialize, "a movement has too many places"),
            );
        }
        let n = between + 2;
        let part = part_of_span(span.0, span.1, n);
        let ghost whole = self@.points_from(span.0 as int, span.1 as int, 0, span.0 as int);
        let mut points: Vec<SpaceTimePoint> = Vec::new();
        let mut last_end: i128 = span.0;
        let mut i: usize = 0;
        assert(span.0 == step_towards(span.0 as int, span.1 as int, n as int, 0))
            by (nonlinear_arith)
            requires
                step_towards(span.0 as int, span.1 as int, n as int, 0)
                    == span.0 + 0 * quotient_towards_zero(
                    span.1 - span.0,
                    n as int,
                ),
        ;
        while i < n
            invariant
                i <= n,
                n == self@.num_points(),
                n <= usize::MAX,
                time_in_range(span.0 as int),
                time_in_range(span.1 as int),
                time_in_range(last_end as int),
                part == quotient_towards_zero(span.1 - span.0, n as int),
                i < n && self@.point_type() != PointType::RawPoints ==> last_end
                    == step_towards(
                    span.0 as int,
                    span.1 as int,
                    n as int,
                    i as int,
                ),
                self@.points() == whole,
                whole == prepend(
                    views_of(points@),
                    self@.points_from(span.0 as int, span.1 as int, i as int, last_end as int),
                ),
            decreases n - i,
        {
            let this_end = self.point_end(span.0, span.1, part, i, last_end)?;
            let location = self.waypoint(i);
            let located = locate(&location, last_end, this_end)?;
            let ghost rest = self@.points_from(span.0 as int, span.1 as int, i + 1, this_end as int);
            match located {
                Some(point) => {
                    proof {
                        lemma_prepend_twice(views_of(points@), seq![point@], rest);
                        assert(views_of(points@.push(point)) == views_of(points@) + seq![point@]);
                    }
                    points.push(point);
                },
                None => {
                    proof {
                        lemma_prepend_twice(views_of(points@), Seq::<PointView>::empty(), rest);
                        assert(views_of(points@) + Seq::<PointView>::empty() == views_of(points@));
                    }
                },
            }
            last_end = this_end;
            i = i + 1;
        }
        assert(views_of(points@) + Seq::<PointView>::empty() == views_of(points@));
        Ok(points)
    }
}

impl TimelineObject {
    /// What the object holds.
    pub fn get_timeline_type(&self) -> (timeline_type: Result<TimelineType, DecoderError>)
        ensures
            match timeline_type {
                Ok(t) => self@.timeline_type() == Ok::<TimelineType, DecoderErrorKind>(t),
                Err(e) => self@.timeline_type() == Err::<TimelineType, DecoderErrorKind>(
                    e.spec_kind(),
                ),
            },
    {
        if self.place_visit.is_some() {
            Ok(TimelineType::PlaceVisit)
        } else if self.activity_segment.is_some() {
            Ok(TimelineType::ActivitySegment)
        } else {
            Err(DecoderError::of_kind(DecoderErrorKind::EmptyEntry, "Empty TimelineObject"))
        }
    }

    /// What lies between the ends of the movement that the object holds; a
    /// failure where it holds none.
    pub fn get_point_type(&self) -> (point_type: Result<PointType, DecoderError>)
        ensures
            point_type is Ok <==> self@.activity_segment is Some,
            point_type matches Ok(t) ==> t == self@.activity_segment->0.point_type(),
            point_type matches Err(e) ==> e.spec_kind() == DecoderErrorKind::EmptyEntry,
    {
        match &self.activity_segment {
            Some(segment) => Ok(segment.get_point_type()),
            None => Err(
                DecoderError::of_kind(
                    DecoderErrorKind::EmptyEntry,
                    "Attempted to get PointType but activity segment missing",
                ),
            ),
        }
    }

    /// The point of the stay that the object holds; a failure where it holds
    /// none.
    pub fn parse_place_visit(&self) -> (points: PointsResult)
        ensures
            points_outcome(points) == match self@.place_visit {
                Some(visit) => visit.points(),
                None => Err(DecoderErrorKind::EmptyEntry),
            },
    {
        match &self.place_visit {
            Some(visit) => visit.to_space_time_points(),
            None => Err(
                DecoderError::of_kind(
                    DecoderErrorKind::EmptyEntry,
                    "TimelineObject classified as PlaceVisit but was empty",
                ),
            ),
        }
    }

    /// The points of the movement that the object holds; a failure where it
    /// holds none.
    pub fn parse_activity_segment(&self) -> (points: PointsResult)
        ensures
            points_outcome(points) == match self@.activity_segment {
                Some(segment) => segment.points(),
                None => Err(DecoderErrorKind::EmptyEntry),
            },
    {
        match &self.activity_segment {
            Some(segment) => segment.to_space_time_points(),
            None => Err(
                DecoderError::of_kind(
                    DecoderErrorKind::EmptyEntry,
                    "TimelineObject classified as ActivitySegment but was empty",
                ),
            ),
        }
    }

}

impl IntoSpaceTimePoints for TimelineObject {
    open spec fn points_spec(&self) -> PointsSpec {
        self@.points()
    }

    /// The points of the object, by what it holds.
    fn to_space_time_points(&self) -> (points: PointsResult) {
        match self.get_timeline_type()? {
            TimelineType::PlaceVisit => self.parse_place_visit(),
            TimelineType::ActivitySegment => self.parse_activity_segment(),
        }
    }
}

// ---------------------------------------------------------------------
// The three shapes of a document
// ---------------------------------------------------------------------
/// A decoded document in one of its three shapes.
#[derive(Debug)]
pub enum JsonRecord {
    /// A flat list of entries.
    JsonEntries(Vec<JsonEntry>),
    /// A timeline of stays and movements.
    TimelineObjects(TimeLineObjects),
    /// A list of samples, the latest first.
    LocationEntries(LocationEntries),
}

/// What a `JsonRecord` holds, with its texts as sequences of characters.
pub ghost enum JsonRecordView {
    JsonEntries(Seq<JsonEntryView>),
    TimelineObjects(Seq<TimelineObjectView>),
    LocationEntries(Seq<LocationEntryView>),
}

impl JsonRecordView {
    /// The points of all entries or objects in their order, or of the
    /// samples from the last to the first.
    pub open spec fn points(self) -> PointsSpec {
        match self {
            JsonRecordView::JsonEntries(entries) => concat_from(
                entries.map_values(|e: JsonEntryView| e.points()),
                0,
            ),
            JsonRecordView::TimelineObjects(objects) => concat_from(
                objects.map_values(|o: TimelineObjectView| o.points()),
                0,
            ),
            JsonRecordView::LocationEntries(samples) => samples_points(
                samples,
                samples.len() as int,
            ),
        }
    }
}

impl View for JsonRecord {
    type V = JsonRecordView;

    open spec fn view(&self) -> JsonRecordView {
        match self {
            JsonRecord::JsonEntries(entries) => JsonRecordView::JsonEntries(
                entries@.map_values(|e: JsonEntry| e@),
            ),
            JsonRecord::TimelineObjects(timeline) => JsonRecordView::TimelineObjects(timeline@),
            JsonRecord::LocationEntries(samples) => JsonRecordView::LocationEntries(samples@),
        }
    }
}

impl IntoSpaceTimePoints for JsonRecord {
    open spec fn points_spec(&self) -> PointsSpec {
        self@.points()
    }

    /// Decodes the document. The first part that fails ends the decoding
    /// with its failure: no points come back then.
    fn to_space_time_points(&self) -> (points: PointsResult) {
        match self {
            JsonRecord::JsonEntries(entries) => {
                assert(results_of(entries@) == entries@.map_values(|e: JsonEntry| e@).map_values(
                    |e: JsonEntryView| e.points(),
                ));
                collect_points(entries)
            },
            JsonRecord::TimelineObjects(timeline) => {
                assert(results_of(timeline.timeline_objects@) == timeline@.map_values(
                    |o: TimelineObjectView| o.points(),
                ));
                collect_points(&timeline.timeline_objects)
            },
            JsonRecord::LocationEntries(samples) => samples.to_space_time_points(),
        }
    }
}

} // verus!
