use crate::decoders::document::{
    get_array, get_elements, get_integer, get_optional_part, get_optional_text, get_part,
    get_present, get_text, integer_of, is_null, is_object, json_document, json_integer,
    json_is_null, json_is_object, json_member, member, option_view, option_views, optional_part,
    optional_text, parse_document, present_member, read_array, required_array, required_integer,
    required_part, required_text, views, FromJson,
};
use crate::decoders::errors::{DecoderError, DecoderErrorKind};
use crate::decoders::json::{
    Activity, ActivitySegment, ActivitySegmentView, ActivityView, DurationView, JsonDuration,
    JsonEntry, JsonEntryView, JsonRecord, JsonRecordView, Location, LocationEntries,
    LocationEntry, LocationEntryView, PlaceVisit, PlaceVisitView, RawPoint, RawPointView,
    TimeLineObjects, TimelineObject, TimelineObjectView, TimelinePath, TimelinePathView, Visit,
};
use vstd::prelude::*;

verus! {

/// A coordinate that may be `null`: `None` where there is something else
/// than a whole number.
pub open spec fn coordinate_value(value: serde_json::Value) -> Option<Option<i64>> {
    if json_is_null(value) {
        Some(None)
    } else {
        match json_integer(value) {
            Some(i) => Some(Some(i)),
            None => None,
        }
    }
}

/// The coordinate of a place under one of its two names. It may be missing;
/// `None` where it is given under both names, or is no whole number.
pub open spec fn coordinate(object: serde_json::Value, name: Seq<char>, alias: Seq<char>) -> Option<
    Option<i64>,
> {
    match (json_member(object, name), json_member(object, alias)) {
        (Some(_), Some(_)) => None,
        (Some(m), None) => coordinate_value(m),
        (None, Some(m)) => coordinate_value(m),
        (None, None) => Some(None),
    }
}

/// The list under `inner` of the part under `key`, which may be missing or
/// `null`. `None` where what is there does not have that form.
pub open spec fn optional_list<T: FromJson>(
    object: serde_json::Value,
    key: Seq<char>,
    inner: Seq<char>,
) -> Option<Option<Seq<T::V>>> {
    match present_member(object, key) {
        None => Some(None),
        Some(m) => match required_array::<T>(m, inner) {
            Some(items) => Some(Some(items)),
            None => None,
        },
    }
}

/// The list under `key`, which may be missing or `null`.
pub open spec fn optional_elements<T: FromJson>(object: serde_json::Value, key: Seq<char>)
    -> Option<Option<Seq<T::V>>> {
    match present_member(object, key) {
        None => Some(None),
        Some(m) => match read_array::<T>(m) {
            Some(items) => Some(Some(items)),
            None => None,
        },
    }
}

fn get_coordinate_value(value: &serde_json::Value) -> (found: Option<Option<i64>>)
    ensures
        found == coordinate_value(*value),
{
    if is_null(value) {
        Some(None)
    } else {
        match integer_of(value) {
            Some(i) => Some(Some(i)),
            None => None,
        }
    }
}

fn get_coordinate(object: &serde_json::Value, name: &str, alias: &str) -> (found: Option<
    Option<i64>,
>)
    ensures
        found == coordinate(*object, name@, alias@),
{
    match (member(object, name), member(object, alias)) {
        (Some(_), Some(_)) => None,
        (Some(m), None) => get_coordinate_value(m),
        (None, Some(m)) => get_coordinate_value(m),
        (None, None) => Some(None),
    }
}

fn get_optional_list<T: FromJson>(object: &serde_json::Value, key: &str, inner: &str) -> (found:
    Option<Option<Vec<T>>>)
    ensures
        match found {
            Some(list) => optional_list::<T>(*object, key@, inner@) == Some(option_views(list)),
            None => optional_list::<T>(*object, key@, inner@) is None,
        },
{
    match get_present(object, key) {
        None => Some(None),
        Some(m) => match get_array::<T>(m, inner) {
            Some(items) => Some(Some(items)),
            None => None,
        },
    }
}

fn get_optional_elements<T: FromJson>(object: &serde_json::Value, key: &str) -> (found: Option<
    Option<Vec<T>>,
>)
    ensures
        match found {
            Some(list) => optional_elements::<T>(*object, key@) == Some(option_views(list)),
            None => optional_elements::<T>(*object, key@) is None,
        },
{
    match get_present(object, key) {
        None => Some(None),
        Some(m) => match get_elements::<T>(m) {
            Some(items) => Some(Some(items)),
            None => None,
        },
    }
}

impl View for Location {
    type V = Location;

    open spec fn view(&self) -> Location {
        *self
    }
}

impl FromJson for Location {
    /// An object with `latitudeE7` (or `latE7`) and `longitudeE7` (or
    /// `lngE7`), each of which may be missing.
    open spec fn from_json_spec(value: serde_json::Value) -> Option<Location> {
        if !json_is_object(value) {
            None
        } else {
            match (
                coordinate(value, "latitudeE7"@, "latE7"@),
                coordinate(value, "longitudeE7"@, "lngE7"@),
            ) {
                (Some(latitude_e7), Some(longitude_e7)) => Some(
                    Location { latitude_e7, longitude_e7 },
                ),
                _ => None,
            }
        }
    }

    fn from_json(value: &serde_json::Value) -> (read: Option<Location>) {
        if !is_object(value) {
            return None;
        }
        let latitude_e7 = get_coordinate(value, "latitudeE7", "latE7")?;
        let longitude_e7 = get_coordinate(value, "longitudeE7", "lngE7")?;
        Some(Location { latitude_e7, longitude_e7 })
    }
}

impl FromJson for JsonDuration {
    /// An object with the texts `startTimestamp` and `endTimestamp`.
    open spec fn from_json_spec(value: serde_json::Value) -> Option<DurationView> {
        match (required_text(value, "startTimestamp"@), required_text(value, "endTimestamp"@)) {
            (Some(start_timestamp), Some(end_timestamp)) => Some(
                DurationView { start_timestamp, end_timestamp },
            ),
            _ => None,
        }
    }

    fn from_json(value: &serde_json::Value) -> (read: Option<JsonDuration>) {
        let start_timestamp = get_text(value, "startTimestamp")?;
        let end_timestamp = get_text(value, "endTimestamp")?;
        Some(JsonDuration { start_timestamp, end_timestamp })
    }
}

impl FromJson for RawPoint {
    /// A place with the text `timestamp` beside its coordinates.
    open spec fn from_json_spec(value: serde_json::Value) -> Option<RawPointView> {
        match (Location::from_json_spec(value), required_text(value, "timestamp"@)) {
            (Some(location), Some(timestamp)) => Some(RawPointView { location, timestamp }),
            _ => None,
        }
    }

    fn from_json(value: &serde_json::Value) -> (read: Option<RawPoint>) {
        let location = Location::from_json(value)?;
        let timestamp = get_text(value, "timestamp")?;
        Some(RawPoint { location, timestamp })
    }
}

impl FromJson for PlaceVisit {
    /// An object with the place `location` and the interval `duration`.
    open spec fn from_json_spec(value: serde_json::Value) -> Option<PlaceVisitView> {
        match (
            required_part::<Location>(value, "location"@),
            required_part::<JsonDuration>(value, "duration"@),
        ) {
            (Some(location), Some(duration)) => Some(PlaceVisitView { location, duration }),
            _ => None,
        }
    }

    fn from_json(value: &serde_json::Value) -> (read: Option<PlaceVisit>) {
        let location = get_part::<Location>(value, "location")?;
        let duration = get_part::<JsonDuration>(value, "duration")?;
        Some(PlaceVisit { location, duration })
    }
}

impl FromJson for ActivitySegment {
    /// An object with the places `startLocation` and `endLocation` and the
    /// interval `duration`; it may have the recorded points under
    /// `simplifiedRawPath.points` and the waypoints under
    /// `waypointPath.waypoints`.
    open spec fn from_json_spec(value: serde_json::Value) -> Option<ActivitySegmentView> {
        match (
            required_part::<Location>(value, "startLocation"@),
            required_part::<Location>(value, "endLocation"@),
            required_part::<JsonDuration>(value, "duration"@),
            optional_list::<RawPoint>(value, "simplifiedRawPath"@, "points"@),
            optional_list::<Location>(value, "waypointPath"@, "waypoints"@),
        ) {
            (
                Some(start_location),
                Some(end_location),
                Some(duration),
                Some(simplified_raw_path),
                Some(waypoint_path),
            ) => Some(
                ActivitySegmentView {
                    start_location,
                    end_location,
                    duration,
                    simplified_raw_path,
                    waypoint_path,
                },
            ),
            _ => None,
        }
    }

    fn from_json(value: &serde_json::Value) -> (read: Option<ActivitySegment>) {
        let start_location = get_part::<Location>(value, "startLocation")?;
        let end_location = get_part::<Location>(value, "endLocation")?;
        let duration = get_part::<JsonDuration>(value, "duration")?;
        let simplified_raw_path = get_optional_list::<RawPoint>(
            value,
            "simplifiedRawPath",
            "points",
        )?;
        let waypoint_path = get_optional_list::<Location>(value, "waypointPath", "waypoints")?;
        proof {
            if waypoint_path is Some {
                assert(views(waypoint_path->0@) == waypoint_path->0@);
            }
            if simplified_raw_path is Some {
                assert(views(simplified_raw_path->0@) == simplified_raw_path->0@.map_values(
                    |p: RawPoint| p@,
                ));
            }
        }
        Some(
            ActivitySegment {
                start_location,
                end_location,
                duration,
                simplified_raw_path,
                waypoint_path,
            },
        )
    }
}

impl FromJson for TimelineObject {
    /// An object that may have the stay `placeVisit` and the movement
    /// `activitySegment`.
    open spec fn from_json_spec(value: serde_json::Value) -> Option<TimelineObjectView> {
        if !json_is_object(value) {
            None
        } else {
            match (
                optional_part::<PlaceVisit>(value, "placeVisit"@),
                optional_part::<ActivitySegment>(value, "activitySegment"@),
            ) {
                (Some(place_visit), Some(activity_segment)) => Some(
                    TimelineObjectView { place_visit, activity_segment },
                ),
                _ => None,
            }
        }
    }

    fn from_json(value: &serde_json::Value) -> (read: Option<TimelineObject>) {
        if !is_object(value) {
            return None;
        }
        let place_visit = get_optional_part::<PlaceVisit>(value, "placeVisit")?;
        let activity_segment = get_optional_part::<ActivitySegment>(value, "activitySegment")?;
        Some(TimelineObject { place_visit, activity_segment })
    }
}

impl FromJson for TimeLineObjects {
    /// An object with the list `timelineObjects`.
    open spec fn from_json_spec(value: serde_json::Value) -> Option<Seq<TimelineObjectView>> {
        required_array::<TimelineObject>(value, "timelineObjects"@)
    }

    fn from_json(value: &serde_json::Value) -> (read: Option<TimeLineObjects>) {
        let timeline_objects = get_array::<TimelineObject>(value, "timelineObjects")?;
        assert(views(timeline_objects@) == timeline_objects@.map_values(|o: TimelineObject| o@));
        Some(TimeLineObjects { timeline_objects })
    }
}

impl FromJson for LocationEntry {
    /// An object with the whole numbers `latitudeE7` and `longitudeE7`; it
    /// may have the texts `timestampMs` and `timestamp`.
    open spec fn from_json_spec(value: serde_json::Value) -> Option<LocationEntryView> {
        match (
            required_integer(value, "latitudeE7"@),
            required_integer(value, "longitudeE7"@),
            optional_text(value, "timestampMs"@),
            optional_text(value, "timestamp"@),
        ) {
            (Some(latitude_e7), Some(longitude_e7), Some(timestamp_ms), Some(timestamp)) => Some(
                LocationEntryView {
                    latitude_e7: latitude_e7 as int,
                    longitude_e7: longitude_e7 as int,
                    timestamp_ms,
                    timestamp,
                },
            ),
            _ => None,
        }
    }

    fn from_json(value: &serde_json::Value) -> (read: Option<LocationEntry>) {
        let latitude_e7 = get_integer(value, "latitudeE7")?;
        let longitude_e7 = get_integer(value, "longitudeE7")?;
        let timestamp_ms = get_optional_text(value, "timestampMs")?;
        let timestamp = get_optional_text(value, "timestamp")?;
        Some(LocationEntry { latitude_e7, longitude_e7, timestamp_ms, timestamp })
    }
}

impl FromJson for LocationEntries {
    /// An object with the list `locations`.
    open spec fn from_json_spec(value: serde_json::Value) -> Option<Seq<LocationEntryView>> {
        required_array::<LocationEntry>(value, "locations"@)
    }

    fn from_json(value: &serde_json::Value) -> (read: Option<LocationEntries>) {
        let locations = get_array::<LocationEntry>(value, "locations")?;
        assert(views(locations@) == locations@.map_values(|e: LocationEntry| e@));
        Some(LocationEntries { locations })
    }
}

impl FromJson for TimelinePath {
    /// An object with the texts `point` and
    /// `durationMinutesOffsetFromStartTime`.
    open spec fn from_json_spec(value: serde_json::Value) -> Option<TimelinePathView> {
        match (
            required_text(value, "point"@),
            required_text(value, "durationMinutesOffsetFromStartTime"@),
        ) {
            (Some(point), Some(offset)) => Some(TimelinePathView { point, offset }),
            _ => None,
        }
    }

    fn from_json(value: &serde_json::Value) -> (read: Option<TimelinePath>) {
        let point = get_text(value, "point")?;
        let duration_minutes_offset_from_start_time = get_text(
            value,
            "durationMinutesOffsetFromStartTime",
        )?;
        Some(TimelinePath { point, duration_minutes_offset_from_start_time })
    }
}

impl FromJson for Activity {
    /// An object with the texts `start` and `end`.
    open spec fn from_json_spec(value: serde_json::Value) -> Option<ActivityView> {
        match (required_text(value, "start"@), required_text(value, "end"@)) {
            (Some(start), Some(end)) => Some(ActivityView { start, end }),
            _ => None,
        }
    }

    fn from_json(value: &serde_json::Value) -> (read: Option<Activity>) {
        let start = get_text(value, "start")?;
        let end = get_text(value, "end")?;
        Some(Activity { start, end })
    }
}

impl View for Visit {
    type V = Seq<char>;

    open spec fn view(&self) -> Seq<char> {
        self.place_location@
    }
}

impl FromJson for Visit {
    /// An object with the text `placeLocation` in its `topCandidate`.
    open spec fn from_json_spec(value: serde_json::Value) -> Option<Seq<char>> {
        match json_member(value, "topCandidate"@) {
            Some(candidate) => required_text(candidate, "placeLocation"@),
            None => None,
        }
    }

    fn from_json(value: &serde_json::Value) -> (read: Option<Visit>) {
        let candidate = member(value, "topCandidate")?;
        let place_location = get_text(candidate, "placeLocation")?;
        Some(Visit { place_location })
    }
}

impl FromJson for JsonEntry {
    /// An object with the texts `startTime` and `endTime`; it may have the
    /// stay `visit`, the list `timelinePath` and the movement `activity`.
    open spec fn from_json_spec(value: serde_json::Value) -> Option<JsonEntryView> {
        match (
            required_text(value, "startTime"@),
            required_text(value, "endTime"@),
            optional_part::<Visit>(value, "visit"@),
            optional_elements::<TimelinePath>(value, "timelinePath"@),
            optional_part::<Activity>(value, "activity"@),
        ) {
            (Some(start_time), Some(end_time), Some(visit), Some(timeline_path), Some(activity)) => Some(
                JsonEntryView { start_time, end_time, visit, timeline_path, activity },
            ),
            _ => None,
        }
    }

    fn from_json(value: &serde_json::Value) -> (read: Option<JsonEntry>) {
        let start_time = get_text(value, "startTime")?;
        let end_time = get_text(value, "endTime")?;
        let visit = get_optional_part::<Visit>(value, "visit")?;
        let timeline_path = get_optional_elements::<TimelinePath>(value, "timelinePath")?;
        let activity = get_optional_part::<Activity>(value, "activity")?;
        proof {
            if timeline_path is Some {
                assert(views(timeline_path->0@) == timeline_path->0@.map_values(
                    |step: TimelinePath| step@,
                ));
            }
        }
        Some(JsonEntry { start_time, end_time, visit, timeline_path, activity })
    }
}

impl FromJson for JsonRecord {
    /// A document in the first of the three shapes that it has: a list of
    /// entries, an object with a timeline, an object with samples.
    open spec fn from_json_spec(value: serde_json::Value) -> Option<JsonRecordView> {
        match read_array::<JsonEntry>(value) {
            Some(entries) => Some(JsonRecordView::JsonEntries(entries)),
            None => match TimeLineObjects::from_json_spec(value) {
                Some(objects) => Some(JsonRecordView::TimelineObjects(objects)),
                None => match LocationEntries::from_json_spec(value) {
                    Some(samples) => Some(JsonRecordView::LocationEntries(samples)),
                    None => None,
                },
            },
        }
    }

    fn from_json(value: &serde_json::Value) -> (read: Option<JsonRecord>) {
        match get_elements::<JsonEntry>(value) {
            Some(entries) => Some(JsonRecord::JsonEntries(entries)),
            None => match TimeLineObjects::from_json(value) {
                Some(objects) => Some(JsonRecord::TimelineObjects(objects)),
                None => match LocationEntries::from_json(value) {
                    Some(samples) => Some(JsonRecord::LocationEntries(samples)),
                    None => None,
                },
            },
        }
    }
}

/// The document that `text` is, in the first of the three shapes that it
/// has. `None` where `text` is not well-formed or has none of them.
pub open spec fn document_record(text: Seq<char>) -> Option<JsonRecordView> {
    match json_document(text) {
        Some(value) => JsonRecord::from_json_spec(value),
        None => None,
    }
}

impl JsonRecord {
    /// Reads a document from its text.
    pub fn from_str(content: &str) -> (record: Result<JsonRecord, DecoderError>)
        ensures
            match record {
                Ok(r) => document_record(content@) == Some(r@),
                Err(e) => document_record(content@) is None && e.spec_kind()
                    == DecoderErrorKind::Deserialize,
            },
    {
        match parse_document(content) {
            Ok(value) => match JsonRecord::from_json(&value) {
                Some(record) => Ok(record),
                None => Err(
                    DecoderError::of_kind(
                        DecoderErrorKind::Deserialize,
                        "data did not match any shape of location history",
                    ),
                ),
            },
            Err(detail) => Err(DecoderError::DeserializeError(detail)),
        }
    }
}

} // verus!
