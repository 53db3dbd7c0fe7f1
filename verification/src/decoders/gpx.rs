use crate::compute::spacetime::{views_of, PointView, SpaceTimePoint};
use crate::decoders::errors::{DecoderError, DecoderErrorKind};
use crate::decoders::geo::{decimal_e7, parse_decimal_e7};
use crate::decoders::text::chars_of;
use crate::decoders::time::{parse_relaxed_timestamp, relaxed_timestamp_of};
use crate::decoders::xml::{
    ends_once, event_attribute, event_kind, event_name, event_text, next_event, open_reader,
    xml_attribute, xml_events, xml_kind, xml_name, xml_pending, xml_text, XmlKind,
};
use crate::decoders::{
    collect_points, concat_from, lemma_prepend_twice, make_point, point_between, points_outcome,
    prepend, results_of, IntoSpaceTimePoints, PointsResult, PointsSpec,
};
use vstd::prelude::*;
use vstd::string::*;

verus! {

/// One point of a track: a place in ten-millionths of a degree, and the
/// instant it was taken, as written.
#[derive(Debug)]
pub struct TrackPoint {
    pub lat: i64,
    pub lon: i64,
    pub time: String,
}

/// What a `TrackPoint` holds, with its texts as sequences of characters.
pub ghost struct TrackPointView {
    pub lat: int,
    pub lon: int,
    pub time: Seq<char>,
}

impl View for TrackPoint {
    type V = TrackPointView;

    open spec fn view(&self) -> TrackPointView {
        TrackPointView { lat: self.lat as int, lon: self.lon as int, time: self.time@ }
    }
}

/// A run of points taken without a break.
#[derive(Debug)]
pub struct TrackSegment {
    pub trkpt: Vec<TrackPoint>,
}

impl View for TrackSegment {
    type V = Seq<TrackPointView>;

    open spec fn view(&self) -> Seq<TrackPointView> {
        self.trkpt@.map_values(|p: TrackPoint| p@)
    }
}

/// A track: its segments in their order.
#[derive(Debug)]
pub struct Track {
    pub trkseg: Vec<TrackSegment>,
}

impl View for Track {
    type V = Seq<Seq<TrackPointView>>;

    open spec fn view(&self) -> Seq<Seq<TrackPointView>> {
        self.trkseg@.map_values(|s: TrackSegment| s@)
    }
}

/// The tracks of a document.
#[derive(Debug)]
pub struct GpxRecords {
    pub trk: Vec<Track>,
}

impl View for GpxRecords {
    type V = Seq<Seq<Seq<TrackPointView>>>;

    open spec fn view(&self) -> Seq<Seq<Seq<TrackPointView>>> {
        self.trk@.map_values(|t: Track| t@)
    }
}

/// The points of the segments of a track, one segment after the other.
pub open spec fn track_points(segments: Seq<Seq<TrackPointView>>) -> PointsSpec {
    concat_from(segments.map_values(|s: Seq<TrackPointView>| segment_points(s, 0)), 0)
}

/// The points of the tracks of a document, one track after the other.
pub open spec fn tracks_points(tracks: Seq<Seq<Seq<TrackPointView>>>) -> PointsSpec {
    concat_from(tracks.map_values(|t: Seq<Seq<TrackPointView>>| track_points(t)), 0)
}

/// The instant that a track point's text names, or the failure to read it.
pub open spec fn track_instant(time: Seq<char>) -> Result<int, DecoderErrorKind> {
    match relaxed_timestamp_of(time) {
        Some(t) => Ok(t),
        None => Err(DecoderErrorKind::TimeParse),
    }
}

/// The points of the track points `points[i..]` of one segment. Each lasts
/// from its own instant to that of the point after it in the segment; the
/// last one ends as it starts.
pub open spec fn segment_points(points: Seq<TrackPointView>, i: int) -> PointsSpec
    decreases points.len() - i,
{
    if i < 0 || i >= points.len() {
        Ok(Seq::empty())
    } else {
        match track_instant(points[i].time) {
            Err(kind) => Err(kind),
            Ok(start) => {
                let end = if i + 1 < points.len() {
                    track_instant(points[i + 1].time)
                } else {
                    Ok(start)
                };
                match end {
                    Err(kind) => Err(kind),
                    Ok(end_time) => match point_between(
                        points[i].lat,
                        points[i].lon,
                        start,
                        end_time,
                    ) {
                        Err(kind) => Err(kind),
                        Ok(p) => prepend(seq![p], segment_points(points, i + 1)),
                    },
                }
            },
        }
    }
}

/// Reads the instant of a track point.
fn parse_track_instant(time: &str) -> (instant: Result<i128, DecoderError>)
    ensures
        match instant {
            Ok(t) => track_instant(time@) == Ok::<int, DecoderErrorKind>(t as int),
            Err(e) => track_instant(time@) == Err::<int, DecoderErrorKind>(e.spec_kind()),
        },
{
    parse_relaxed_timestamp(time)
}

impl IntoSpaceTimePoints for TrackSegment {
    open spec fn points_spec(&self) -> PointsSpec {
        segment_points(self@, 0)
    }

    /// The points of the segment, one for each track point.
    fn to_space_time_points(&self) -> (points: PointsResult) {
        let ghost whole = segment_points(self@, 0);
        let n = self.trkpt.len();
        let mut points: Vec<SpaceTimePoint> = Vec::new();
        let mut i: usize = 0;
        while i < n
            invariant
                i <= n,
                n == self.trkpt.len(),
                whole == segment_points(self@, 0),
                whole == prepend(views_of(points@), segment_points(self@, i as int)),
            decreases n - i,
        {
            let point = &self.trkpt[i];
            assert(self@[i as int] == point@);
            let start_time = parse_track_instant(point.time.as_str())?;
            let end_time = if i + 1 < n {
                let next = &self.trkpt[i + 1];
                assert(self@[i + 1] == next@);
                parse_track_instant(next.time.as_str())?
            } else {
                start_time
            };
            let made = make_point(point.lat, point.lon, start_time, end_time)?;
            proof {
                lemma_prepend_twice(views_of(points@), seq![made@], segment_points(self@, i + 1));
                assert(views_of(points@.push(made)) == views_of(points@) + seq![made@]);
            }
            points.push(made);
            i = i + 1;
        }
        assert(views_of(points@) + Seq::<PointView>::empty() == views_of(points@));
        Ok(points)
    }
}

impl IntoSpaceTimePoints for Track {
    open spec fn points_spec(&self) -> PointsSpec {
        track_points(self@)
    }

    /// The points of the track: those of its segments, one segment after
    /// the other.
    fn to_space_time_points(&self) -> (points: PointsResult) {
        assert(results_of(self.trkseg@) == self@.map_values(
            |s: Seq<TrackPointView>| segment_points(s, 0),
        ));
        collect_points(&self.trkseg)
    }
}

impl IntoSpaceTimePoints for GpxRecords {
    open spec fn points_spec(&self) -> PointsSpec {
        tracks_points(self@)
    }

    /// The points of the document: those of its tracks, one track after the
    /// other. The first track point that cannot be read ends the decoding
    /// with its failure.
    fn to_space_time_points(&self) -> (points: PointsResult) {
        assert(results_of(self.trk@) == self@.map_values(
            |t: Seq<Seq<TrackPointView>>| track_points(t),
        ));
        collect_points(&self.trk)
    }
}

// ---------------------------------------------------------------------
// Reading the text of a document
// ---------------------------------------------------------------------
/// Where an element stands in a document: the root, a track in the root, a
/// segment in a track, a point in a segment, the time in a point, or
/// anything else.
#[derive(Debug, Clone, Copy, PartialEq, Eq, Structural)]
pub enum Level {
    Root,
    Track,
    Segment,
    Point,
    Time,
    Other,
}

/// Where an element with the given name stands that is opened in an element
/// that stands at `parent`, or outside of all elements.
pub open spec fn child_level(parent: Option<Level>, name: Seq<char>) -> Level {
    match parent {
        None => Level::Root,
        Some(Level::Root) => if name == "trk"@ {
            Level::Track
        } else {
            Level::Other
        },
        Some(Level::Track) => if name == "trkseg"@ {
            Level::Segment
        } else {
            Level::Other
        },
        Some(Level::Segment) => if name == "trkpt"@ {
            Level::Point
        } else {
            Level::Other
        },
        Some(Level::Point) => if name == "time"@ {
            Level::Time
        } else {
            Level::Other
        },
        Some(_) => Level::Other,
    }
}

/// What has been read of a document: the elements that are open, the
/// tracks that are closed, the closed segments of the open track, the
/// closed points of the open segment, and the place and the time of the
/// open point.
pub ghost struct GpxState {
    pub stack: Seq<Level>,
    pub tracks: Seq<Seq<Seq<TrackPointView>>>,
    pub segments: Seq<Seq<TrackPointView>>,
    pub points: Seq<TrackPointView>,
    pub lat: int,
    pub lon: int,
    pub time: Option<Seq<char>>,
}

/// The state before anything is read.
pub open spec fn initial_state() -> GpxState {
    GpxState {
        stack: Seq::empty(),
        tracks: Seq::empty(),
        segments: Seq::empty(),
        points: Seq::empty(),
        lat: 0,
        lon: 0,
        time: None,
    }
}

/// The innermost open element, if any.
pub open spec fn top_level(stack: Seq<Level>) -> Option<Level> {
    if stack.len() == 0 {
        None
    } else {
        Some(stack.last())
    }
}

/// The state after a start tag. A point must have the attributes `lat` and
/// `lon`, both decimal numbers: the state is `None` where it has not.
pub open spec fn opened(state: GpxState, event: quick_xml::events::Event<'static>) -> Option<
    GpxState,
> {
    match xml_name(event) {
        None => None,
        Some(name) => {
            let level = child_level(top_level(state.stack), name);
            if level == Level::Point {
                match (xml_attribute(event, "lat"@), xml_attribute(event, "lon"@)) {
                    (Some(lat_text), Some(lon_text)) => match (
                        decimal_e7(lat_text),
                        decimal_e7(lon_text),
                    ) {
                        (Some(lat), Some(lon)) => Some(
                            GpxState {
                                stack: state.stack.push(level),
                                lat,
                                lon,
                                time: None,
                                ..state
                            },
                        ),
                        _ => None,
                    },
                    _ => None,
                }
            } else {
                Some(GpxState { stack: state.stack.push(level), ..state })
            }
        },
    }
}

/// The state after an end tag. A point must have got its time: the state
/// is `None` where it has not, or where no element is open.
pub open spec fn closed(state: GpxState) -> Option<GpxState> {
    if state.stack.len() == 0 {
        None
    } else {
        let stack = state.stack.drop_last();
        match state.stack.last() {
            Level::Point => match state.time {
                Some(time) => Some(
                    GpxState {
                        stack,
                        points: state.points.push(
                            TrackPointView { lat: state.lat, lon: state.lon, time },
                        ),
                        time: None,
                        ..state
                    },
                ),
                None => None,
            },
            Level::Segment => Some(
                GpxState {
                    stack,
                    segments: state.segments.push(state.points),
                    points: Seq::empty(),
                    ..state
                },
            ),
            Level::Track => Some(
                GpxState {
                    stack,
                    tracks: state.tracks.push(state.segments),
                    segments: Seq::empty(),
                    ..state
                },
            ),
            _ => Some(GpxState { stack, ..state }),
        }
    }
}

/// The state after a text: in the time of a point the text is added to
/// the time; elsewhere it counts for nothing.
pub open spec fn texted(state: GpxState, event: quick_xml::events::Event<'static>) -> GpxState {
    if top_level(state.stack) == Some(Level::Time) {
        match xml_text(event) {
            Some(text) => GpxState {
                time: Some(
                    match state.time {
                        Some(before) => before + text,
                        None => text,
                    },
                ),
                ..state
            },
            None => state,
        }
    } else {
        state
    }
}

/// The state after an event; `None` where the document is malformed.
pub open spec fn stepped(state: GpxState, event: quick_xml::events::Event<'static>) -> Option<
    GpxState,
> {
    match xml_kind(event) {
        XmlKind::Start => opened(state, event),
        XmlKind::Empty => match opened(state, event) {
            Some(inside) => closed(inside),
            None => None,
        },
        XmlKind::End => closed(state),
        XmlKind::Text => Some(texted(state, event)),
        _ => Some(state),
    }
}

/// The tracks that `events` give when they are read from `state` on;
/// `None` where a read fails, the document is malformed, or it ends while
/// an element is open.
pub open spec fn gpx_read(
    events: Seq<Option<quick_xml::events::Event<'static>>>,
    state: GpxState,
) -> Option<Seq<Seq<Seq<TrackPointView>>>>
    decreases events.len(),
{
    if events.len() == 0 {
        None
    } else {
        match events[0] {
            None => None,
            Some(event) => if xml_kind(event) == XmlKind::Eof {
                if state.stack.len() == 0 {
                    Some(state.tracks)
                } else {
                    None
                }
            } else {
                match stepped(state, event) {
                    None => None,
                    Some(next) => gpx_read(events.skip(1), next),
                }
            },
        }
    }
}

/// The tracks of the document that `text` is; `None` where it is malformed.
pub open spec fn gpx_document(text: Seq<char>) -> Option<Seq<Seq<Seq<TrackPointView>>>> {
    gpx_read(xml_events(text), initial_state())
}

/// What has been read of a document.
struct GpxBuilder {
    stack: Vec<Level>,
    tracks: Vec<Track>,
    segments: Vec<TrackSegment>,
    points: Vec<TrackPoint>,
    lat: i64,
    lon: i64,
    time: Option<String>,
}

impl View for GpxBuilder {
    type V = GpxState;

    closed spec fn view(&self) -> GpxState {
        GpxState {
            stack: self.stack@,
            tracks: self.tracks@.map_values(|t: Track| t@),
            segments: self.segments@.map_values(|s: TrackSegment| s@),
            points: self.points@.map_values(|p: TrackPoint| p@),
            lat: self.lat as int,
            lon: self.lon as int,
            time: match self.time {
                Some(t) => Some(t@),
                None => None,
            },
        }
    }
}

/// Whether two texts are the same.
fn same_text(a: &str, b: &str) -> (same: bool)
    ensures
        same == (a@ == b@),
{
    String::from_str(a) == String::from_str(b)
}

/// Where an element with the given name stands.
fn level_of(parent: Option<Level>, name: &str) -> (level: Level)
    ensures
        level == child_level(parent, name@),
{
    match parent {
        None => Level::Root,
        Some(Level::Root) => if same_text(name, "trk") {
            Level::Track
        } else {
            Level::Other
        },
        Some(Level::Track) => if same_text(name, "trkseg") {
            Level::Segment
        } else {
            Level::Other
        },
        Some(Level::Segment) => if same_text(name, "trkpt") {
            Level::Point
        } else {
            Level::Other
        },
        Some(Level::Point) => if same_text(name, "time") {
            Level::Time
        } else {
            Level::Other
        },
        Some(_) => Level::Other,
    }
}

/// Reads the attribute `key` of a start tag as a decimal number in
/// ten-millionths.
fn attribute_e7(event: &quick_xml::events::Event<'static>, key: &str) -> (value: Option<i64>)
    ensures
        match value {
            Some(v) => xml_attribute(*event, key@) matches Some(text) && decimal_e7(text) == Some(
                v as int,
            ),
            None => xml_attribute(*event, key@) matches Some(text) ==> decimal_e7(text) is None,
        },
{
    let text = event_attribute(event, key)?;
    let chars = chars_of(text.as_str());
    assert(chars@.subrange(0, chars.len() as int) == text@);
    parse_decimal_e7(&chars, 0, chars.len())
}

impl GpxBuilder {
    fn new() -> (builder: GpxBuilder)
        ensures
            builder@ == initial_state(),
    {
        let builder = GpxBuilder {
            stack: Vec::new(),
            tracks: Vec::new(),
            segments: Vec::new(),
            points: Vec::new(),
            lat: 0,
            lon: 0,
            time: None,
        };
        assert(builder@.tracks == Seq::<Seq<Seq<TrackPointView>>>::empty());
        assert(builder@.segments == Seq::<Seq<TrackPointView>>::empty());
        assert(builder@.points == Seq::<TrackPointView>::empty());
        builder
    }

    fn top(&self) -> (level: Option<Level>)
        ensures
            level == top_level(self@.stack),
    {
        if self.stack.len() == 0 {
            None
        } else {
            Some(self.stack[self.stack.len() - 1])
        }
    }

    fn open(self, event: &quick_xml::events::Event<'static>) -> (after: Option<GpxBuilder>)
        ensures
            match after {
                Some(b) => opened(self@, *event) == Some(b@),
                None => opened(self@, *event) is None,
            },
    {
        let name = event_name(event)?;
        let level = level_of(self.top(), name.as_str());
        let mut builder = self;
        if level == Level::Point {
            let lat = attribute_e7(event, "lat")?;
            let lon = attribute_e7(event, "lon")?;
            builder.lat = lat;
            builder.lon = lon;
            builder.time = None;
        }
        builder.stack.push(level);
        Some(builder)
    }

    fn close(self) -> (after: Option<GpxBuilder>)
        ensures
            match after {
                Some(b) => closed(self@) == Some(b@),
                None => closed(self@) is None,
            },
    {
        let mut builder = self;
        let ghost before = builder@;
        let level = builder.stack.pop()?;
        match level {
            Level::Point => {
                let time = builder.time?;
                let point = TrackPoint { lat: builder.lat, lon: builder.lon, time };
                builder.time = None;
                assert(builder.points@.push(point).map_values(|p: TrackPoint| p@)
                    == before.points.push(point@));
                builder.points.push(point);
            },
            Level::Segment => {
                let segment = TrackSegment { trkpt: builder.points };
                builder.points = Vec::new();
                assert(builder.segments@.push(segment).map_values(|s: TrackSegment| s@)
                    == before.segments.push(segment@));
                assert(builder.points@.map_values(|p: TrackPoint| p@) == Seq::<
                    TrackPointView,
                >::empty());
                builder.segments.push(segment);
            },
            Level::Track => {
                let track = Track { trkseg: builder.segments };
                builder.segments = Vec::new();
                assert(builder.tracks@.push(track).map_values(|t: Track| t@) == before.tracks.push(
                    track@,
                ));
                assert(builder.segments@.map_values(|s: TrackSegment| s@) == Seq::<
                    Seq<TrackPointView>,
                >::empty());
                builder.tracks.push(track);
            },
            _ => {},
        }
        Some(builder)
    }

    fn text(self, event: &quick_xml::events::Event<'static>) -> (after: GpxBuilder)
        ensures
            after@ == texted(self@, *event),
    {
        let mut builder = self;
        if builder.top() == Some(Level::Time) {
            match event_text(event) {
                Some(text) => {
                    let time = match builder.time {
                        Some(before) => before.concat(text.as_str()),
                        None => text,
                    };
                    builder.time = Some(time);
                },
                None => {},
            }
        }
        builder
    }

    fn step(self, event: &quick_xml::events::Event<'static>) -> (after: Option<GpxBuilder>)
        ensures
            match after {
                Some(b) => stepped(self@, *event) == Some(b@),
                None => stepped(self@, *event) is None,
            },
    {
        match event_kind(event) {
            XmlKind::Start => self.open(event),
            XmlKind::Empty => {
                let inside = self.open(event)?;
                inside.close()
            },
            XmlKind::End => self.close(),
            XmlKind::Text => Some(self.text(event)),
            _ => Some(self),
        }
    }
}

impl GpxRecords {
    /// Reads a document from its text: the points of the segments of the
    /// tracks in the root element, each with its place, given by the
    /// attributes `lat` and `lon`, and the text of its time.
    pub fn from_str(content: &str) -> (records: Result<GpxRecords, DecoderError>)
        ensures
            match records {
                Ok(r) => gpx_document(content@) == Some(r@),
                Err(e) => gpx_document(content@) is None && e.spec_kind()
                    == DecoderErrorKind::Deserialize,
            },
    {
        let mut reader = open_reader(content);
        let mut builder = GpxBuilder::new();
        loop
            invariant
                ends_once(xml_pending(reader)),
                gpx_document(content@) == gpx_read(xml_pending(reader), builder@),
            decreases xml_pending(reader).len(),
        {
            let ghost pending = xml_pending(reader);
            let event = match next_event(&mut reader) {
                Some(event) => event,
                None => {
                    return Err(
                        DecoderError::of_kind(
                            DecoderErrorKind::Deserialize,
                            "the document is not well-formed",
                        ),
                    );
                },
            };
            if event_kind(&event) == XmlKind::Eof {
                if builder.stack.len() == 0 {
                    return Ok(GpxRecords { trk: builder.tracks });
                }
                return Err(
                    DecoderError::of_kind(
                        DecoderErrorKind::Deserialize,
                        "the document ends inside an element",
                    ),
                );
            }
            builder = match builder.step(&event) {
                Some(next) => next,
                None => {
                    return Err(
                        DecoderError::of_kind(
                            DecoderErrorKind::Deserialize,
                            "a track point lacks its place or its time",
                        ),
                    );
                },
            };
            proof {
                let rest = pending.skip(1);
                assert(pending.len() >= 2);
                assert(rest.last() == pending.last());
                assert forall|i: int| 0 <= i < rest.len() - 1 implies (#[trigger] rest[i]) is Some
                    && xml_kind(rest[i]->0) != XmlKind::Eof by {
                    assert(rest[i] == pending[i + 1]);
                }
            }
        }
    }
}

} // verus!
