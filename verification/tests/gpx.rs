use chance_encounter::compute::spacetime::SpaceTimeRecord;
use chance_encounter::decoders::errors::DecoderErrorKind;
use chance_encounter::decoders::gpx::{GpxRecords, Track, TrackPoint, TrackSegment};
use chance_encounter::decoders::{FileFormat, IntoSpaceTimePoints};

fn decoded(content: &str) -> Vec<(i64, i64, i128, i128)> {
    let record = SpaceTimeRecord::new(content, FileFormat::Gpx).expect("Failed to parse GPX content");
    record
        .points()
        .iter()
        .map(|p| (p.latitude(), p.longitude(), p.start_time(), p.end_time()))
        .collect()
}

fn failure(content: &str) -> DecoderErrorKind {
    SpaceTimeRecord::new(content, FileFormat::Gpx).unwrap_err().kind()
}

#[test]
fn gpx_with_one_point_decodes_to_one_point() {
    let content = r#"<?xml version="1.0" encoding="UTF-8"?>
        <gpx version="1.1">
            <trk>
                <trkseg>
                    <trkpt lat="37.7749" lon="-122.4194">
                        <time>2023-06-29T10:00:00Z</time>
                    </trkpt>
                </trkseg>
            </trk>
        </gpx>
        "#;
    assert_eq!(decoded(content), vec![(377749000, -1224194000, 1688032800000000000, 1688032800000000000)]);
}

#[test]
fn gpx_point_lasts_to_the_next_of_its_segment() {
    let content = r#"<gpx version="1.1" creator="test">
        <metadata><time>2001-01-01T00:00:00Z</time></metadata>
        <trk>
            <name>Morning</name>
            <trkseg>
                <trkpt lat="37.7749" lon="-122.4194"><ele>12.5</ele><time>2023-06-29T10:00:00Z</time></trkpt>
                <trkpt lon="-122.4195" lat="37.7750"><time>2023-06-29T10:00:05Z</time></trkpt>
            </trkseg>
            <trkseg>
                <trkpt lat="37.7751" lon="-122.4196"><time>2023-06-29T10:00:09Z</time></trkpt>
            </trkseg>
            <trkseg/>
        </trk>
        <trk/>
        <trk><trkseg><trkpt lat="1" lon="2"><time>2023-06-29 10:00:09Z</time><extensions><time>x</time></extensions></trkpt></trkseg></trk>
    </gpx>"#;
    assert_eq!(
        decoded(content),
        vec![
            (377749000, -1224194000, 1688032800000000000, 1688032805000000000),
            (377750000, -1224195000, 1688032805000000000, 1688032805000000000),
            (377751000, -1224196000, 1688032809000000000, 1688032809000000000),
            (10000000, 20000000, 1688032809000000000, 1688032809000000000),
        ]
    );
    let records = GpxRecords::from_str(content).unwrap();
    assert_eq!(records.trk.len(), 3);
    assert_eq!(records.trk[0].trkseg.len(), 3);
    assert_eq!(records.trk[0].trkseg[0].trkpt.len(), 2);
    assert_eq!(records.trk[0].trkseg[2].trkpt.len(), 0);
    assert_eq!(records.trk[1].trkseg.len(), 0);
    assert_eq!(records.trk[2].trkseg[0].trkpt[0].time, "2023-06-29 10:00:09Z");
}

#[test]
fn gpx_without_tracks_decodes_to_no_points() {
    assert_eq!(decoded("<gpx/>"), vec![]);
    assert_eq!(decoded("<gpx></gpx>"), vec![]);
    assert_eq!(decoded("<gpx><wpt lat=\"1\" lon=\"2\"><time>x</time></wpt></gpx>"), vec![]);
    assert_eq!(decoded("<gpx><trkseg><trkpt/></trkseg></gpx>"), vec![]);
    assert_eq!(decoded(""), vec![]);
}

#[test]
fn gpx_that_is_malformed_is_refused() {
    for content in [
        "<gpx>",
        "<gpx><trk></gpx>",
        "</gpx>",
        "<gpx><trk><trkseg><trkpt lat=\"1\"><time>2023-06-29T10:00:00Z</time></trkpt></trkseg></trk></gpx>",
        "<gpx><trk><trkseg><trkpt lat=\"1\" lon=\"east\"><time>2023-06-29T10:00:00Z</time></trkpt></trkseg></trk></gpx>",
        "<gpx><trk><trkseg><trkpt lat=\"1\" lon=\"2\"></trkpt></trkseg></trk></gpx>",
        "<gpx><trk><trkseg><trkpt lat=\"1\" lon=\"2\"/></trkseg></trk></gpx>",
    ] {
        assert_eq!(failure(content), DecoderErrorKind::Deserialize, "{}", content);
    }
}

#[test]
fn gpx_with_a_malformed_time_is_refused() {
    let content = "<gpx><trk><trkseg><trkpt lat=\"1\" lon=\"2\"><time>noon</time></trkpt></trkseg></trk></gpx>";
    assert_eq!(failure(content), DecoderErrorKind::TimeParse);
    let backwards = "<gpx><trk><trkseg>\
        <trkpt lat=\"1\" lon=\"2\"><time>2023-06-29T10:00:05Z</time></trkpt>\
        <trkpt lat=\"1\" lon=\"2\"><time>2023-06-29T10:00:00Z</time></trkpt>\
        </trkseg></trk></gpx>";
    assert_eq!(failure(backwards), DecoderErrorKind::TimeParse);
}

#[test]
fn tracks_decode_without_their_text() {
    let point = |lat: i64, lon: i64, time: &str| TrackPoint { lat, lon, time: time.to_string() };
    let track = Track {
        trkseg: vec![
            TrackSegment {
                trkpt: vec![
                    point(377749000, -1224194000, "2023-06-29T10:00:00Z"),
                    point(377750000, -1224195000, "2023-06-29T10:00:05Z"),
                ],
            },
            TrackSegment { trkpt: vec![point(377751000, -1224196000, "2023-06-29T10:00:09Z")] },
        ],
    };
    let points = track.to_space_time_points().unwrap();
    assert_eq!(points.len(), 3);
    assert_eq!((points[0].start_time(), points[0].end_time()), (1688032800000000000, 1688032805000000000));
    assert_eq!((points[1].start_time(), points[1].end_time()), (1688032805000000000, 1688032805000000000));
    assert_eq!(points[2].latitude(), 377751000);
    let records = GpxRecords { trk: vec![track, Track { trkseg: vec![] }] };
    assert_eq!(SpaceTimeRecord::decode(&records).unwrap().len(), 3);
    let broken = Track { trkseg: vec![TrackSegment { trkpt: vec![point(1, 2, "noon")] }] };
    assert_eq!(broken.to_space_time_points().unwrap_err().kind(), DecoderErrorKind::TimeParse);
}
