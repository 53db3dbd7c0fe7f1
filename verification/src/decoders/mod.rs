pub mod document;
pub mod errors;
pub mod geo;
pub mod gpx;
pub mod json;
pub mod schema;
pub mod text;
pub mod time;
pub mod xml;

use crate::compute::spacetime::{
    all_wf, time_ordered, views_of, PointView, SpaceTimePoint, SpaceTimeRecord,
};
use crate::decoders::errors::{DecoderError, DecoderErrorKind};
use crate::decoders::gpx::{gpx_document, tracks_points, GpxRecords};
use crate::decoders::json::JsonRecord;
use crate::decoders::schema::document_record;
use vstd::prelude::*;

verus! {

/// What decoding gives: the points, or the first failure.
pub type PointsResult = Result<Vec<SpaceTimePoint>, DecoderError>;

/// What decoding is to give: the points, or the kind of the first failure.
pub type PointsSpec = Result<Seq<PointView>, DecoderErrorKind>;

/// The formats of location history that can be decoded.
#[derive(Debug, Clone, Copy, PartialEq, Eq, Structural)]
pub enum FileFormat {
    Json,
    Gpx,
}

/// What `result` amounts to: the views of its points, or the kind of its
/// failure.
pub open spec fn points_outcome(result: PointsResult) -> PointsSpec {
    match result {
        Ok(points) => Ok(views_of(points@)),
        Err(error) => Err(error.spec_kind()),
    }
}

/// `rest` with `front` put before its points; a failure stays as it is.
pub open spec fn prepend(front: Seq<PointView>, rest: PointsSpec) -> PointsSpec {
    match rest {
        Ok(points) => Ok(front + points),
        Err(kind) => Err(kind),
    }
}

/// The point at the given place over `[start_time, end_time]`; a failure to
/// read the time where that is no interval within the range of instants.
pub open spec fn point_between(latitude: int, longitude: int, start_time: int, end_time: int)
    -> Result<PointView, DecoderErrorKind> {
    let point = PointView { latitude, longitude, start_time, end_time };
    if point.wf() {
        Ok(point)
    } else {
        Err(DecoderErrorKind::TimeParse)
    }
}

/// Makes the point at the given place over `[start_time, end_time]`.
pub fn make_point(latitude: i64, longitude: i64, start_time: i128, end_time: i128) -> (point:
    Result<SpaceTimePoint, DecoderError>)
    ensures
        match point {
            Ok(p) => point_between(
                latitude as int,
                longitude as int,
                start_time as int,
                end_time as int,
            ) == Ok::<PointView, DecoderErrorKind>(p@),
            Err(e) => point_between(
                latitude as int,
                longitude as int,
                start_time as int,
                end_time as int,
            ) == Err::<PointView, DecoderErrorKind>(e.spec_kind()),
        },
{
    match SpaceTimePoint::new(latitude, longitude, start_time, end_time) {
        Some(p) => Ok(p),
        None => Err(
            DecoderError::of_kind(DecoderErrorKind::TimeParse, "a point ends before it starts"),
        ),
    }
}

/// Putting points before a result, and more points before that, is putting
/// all of them before it at once.
pub proof fn lemma_prepend_twice(first: Seq<PointView>, second: Seq<PointView>, rest: PointsSpec)
    ensures
        prepend(first, prepend(second, rest)) == prepend(first + second, rest),
{
    match rest {
        Ok(points) => {
            assert(first + (second + points) == (first + second) + points);
        },
        Err(_) => {},
    }
}

/// The points of the results `results[i..]`, one after the other, or the
/// first failure among them.
pub open spec fn concat_from(results: Seq<PointsSpec>, i: int) -> PointsSpec
    decreases results.len() - i,
{
    if i < 0 || i >= results.len() {
        Ok(Seq::empty())
    } else {
        match results[i] {
            Err(kind) => Err(kind),
            Ok(points) => prepend(points, concat_from(results, i + 1)),
        }
    }
}

/// A part of a location history that stands for points.
pub trait IntoSpaceTimePoints {
    /// The points that this part stands for, or the kind of the first
    /// failure to read it.
    spec fn points_spec(&self) -> PointsSpec;

    /// Decodes the part.
    fn to_space_time_points(&self) -> (points: PointsResult)
        ensures
            points_outcome(points) == self.points_spec(),
    ;
}

/// What each of `items` is to give, in their order.
pub open spec fn results_of<T: IntoSpaceTimePoints>(items: Seq<T>) -> Seq<PointsSpec> {
    items.map_values(|item: T| item.points_spec())
}

/// Decodes `items` one after the other and puts their points together. The
/// first item that fails ends the decoding with its failure.
pub fn collect_points<T: IntoSpaceTimePoints>(items: &Vec<T>) -> (points: PointsResult)
    ensures
        points_outcome(points) == concat_from(results_of(items@), 0),
{
    let ghost results = results_of(items@);
    let mut points: Vec<SpaceTimePoint> = Vec::new();
    let mut i: usize = 0;
    while i < items.len()
        invariant
            i <= items.len(),
            results == results_of(items@),
            concat_from(results, 0) == prepend(views_of(points@), concat_from(results, i as int)),
        decreases items.len() - i,
    {
        let mut more = match items[i].to_space_time_points() {
            Ok(more) => more,
            Err(e) => {
                return Err(e);
            },
        };
        proof {
            assert(results[i as int] == Ok::<Seq<PointView>, DecoderErrorKind>(views_of(more@)));
            lemma_prepend_twice(
                views_of(points@),
                views_of(more@),
                concat_from(results, i + 1),
            );
            assert(views_of(points@ + more@) == views_of(points@) + views_of(more@));
        }
        points.append(&mut more);
        i = i + 1;
    }
    assert(views_of(points@) + Seq::<PointView>::empty() == views_of(points@));
    Ok(points)
}

/// What decoding into a record gives: the record, or the first failure.
pub type RecordResult = Result<SpaceTimeRecord, DecoderError>;

/// What `result` amounts to: the views of the record's points, or the kind
/// of its failure.
pub open spec fn record_outcome(result: RecordResult) -> PointsSpec {
    match result {
        Ok(record) => Ok(record@),
        Err(error) => Err(error.spec_kind()),
    }
}

/// The record of decoded points: the points themselves where they are in
/// the order of time, none reaching into the next; a failure to read the
/// time where they are not.
pub open spec fn record_of(points: PointsSpec) -> PointsSpec {
    match points {
        Ok(decoded) => if time_ordered(decoded) {
            Ok(decoded)
        } else {
            Err(DecoderErrorKind::TimeParse)
        },
        Err(kind) => Err(kind),
    }
}

/// The points that the text of a document stands for in the given format,
/// or the kind of the first failure: a failure to deserialize where the
/// text is not well-formed or has no known shape.
pub open spec fn decoded_points(content: Seq<char>, format: FileFormat) -> PointsSpec {
    match format {
        FileFormat::Json => match document_record(content) {
            Some(record) => record.points(),
            None => Err(DecoderErrorKind::Deserialize),
        },
        FileFormat::Gpx => match gpx_document(content) {
            Some(tracks) => tracks_points(tracks),
            None => Err(DecoderErrorKind::Deserialize),
        },
    }
}

impl SpaceTimeRecord {
    /// Decodes `source` into a record. The points are kept in the order in
    /// which they were decoded: they are not sorted, and a source whose
    /// points are out of order is refused.
    pub fn decode<T: IntoSpaceTimePoints>(source: &T) -> (record: RecordResult)
        ensures
            record_outcome(record) == record_of(source.points_spec()),
            record matches Ok(r) ==> time_ordered(r@) && all_wf(r@),
    {
        let points = source.to_space_time_points()?;
        match SpaceTimeRecord::from_points(points) {
            Some(record) => Ok(record),
            None => Err(
                DecoderError::of_kind(
                    DecoderErrorKind::TimeParse,
                    "the points are not in the order of time",
                ),
            ),
        }
    }

    /// Decodes the text of a document in the given format into a record.
    /// Any failure fails the whole: no part of a record comes back. In a
    /// record every point ends before the next one starts, or as it starts.
    pub fn new(content: &str, format: FileFormat) -> (record: RecordResult)
        ensures
            record_outcome(record) == record_of(decoded_points(content@, format)),
            record matches Ok(r) ==> time_ordered(r@) && all_wf(r@),
    {
        match format {
            FileFormat::Json => {
                let document = JsonRecord::from_str(content)?;
                SpaceTimeRecord::decode(&document)
            },
            FileFormat::Gpx => {
                let document = GpxRecords::from_str(content)?;
                SpaceTimeRecord::decode(&document)
            },
        }
    }
}

} // verus!
