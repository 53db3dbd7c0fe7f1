use chance_encounter::compute::spacetime::{SpaceTimePoint, SpaceTimeRecord};
use chance_encounter::decoders::errors::DecoderErrorKind;
use chance_encounter::decoders::json::JsonRecord;
use chance_encounter::decoders::{FileFormat, IntoSpaceTimePoints};

fn quadruple(point: &SpaceTimePoint) -> (i64, i64, i128, i128) {
    (point.latitude(), point.longitude(), point.start_time(), point.end_time())
}

fn decoded(content: &str) -> Vec<(i64, i64, i128, i128)> {
    let record = SpaceTimeRecord::new(content, FileFormat::Json).expect("Failed to parse JSON content");
    record.points().iter().map(quadruple).collect()
}

fn failure(content: &str) -> DecoderErrorKind {
    SpaceTimeRecord::new(content, FileFormat::Json).unwrap_err().kind()
}

const JSON_ENTRIES: &str = r#"
    [
        {
            "endTime": "2015-01-25T09:11:16.547-08:00",
            "startTime": "2015-01-24T20:16:07.217-08:00",
            "visit": {
                "hierarchyLevel": "0",
                "topCandidate": {
                    "probability": "0.999080",
                    "semanticType": "Unknown",
                    "placeID": "R3DACT3D",
                    "placeLocation": "geo:35.456789,-120.567890"
                },
                "probability": "0.780000"
            }
        },
        {
            "endTime" : "2016-06-11T10:59:38.241-04:00",
            "startTime" : "2016-06-11T10:37:59.047-04:00",
            "activity" : {
                "end" : "geo:38.765432,-76.987654",
                "topCandidate" : {
                    "type" : "in passenger vehicle",
                    "probability" : "0.000000"
                },
                "distanceMeters" : "3146.000000",
                "start" : "geo:38.812345,-77.039527"
            }
        },
        {
            "endTime" : "2017-08-15T08:00:00.000Z",
            "startTime" : "2017-08-15T06:00:00.000Z",
            "timelinePath" : [
            {
                "point" : "geo:37.654321,-122.345678",
                "durationMinutesOffsetFromStartTime" : "56"
            },
            {
                "point" : "geo:37.657890,-122.341234",
                "durationMinutesOffsetFromStartTime" : "59"
            }
            ]
        }
    ]
"#;

const TIMELINE_OBJECTS: &str = r#"
    {
    "timelineObjects": [
        {
        "activitySegment": {
            "startLocation": {
            "latitudeE7": 391122849,
            "longitudeE7": -848646131,
            "sourceInfo": {
                "deviceTag": 1931280707
            }
            },
            "endLocation": {
            "latitudeE7": 391361546,
            "longitudeE7": -848427170,
            "sourceInfo": {
                "deviceTag": 1931280707
            }
            },
            "duration": {
            "startTimestamp": "2022-07-02T17:05:39.060Z",
            "endTimestamp": "2022-07-02T17:10:29.999Z"
            },
            "distance": 3279,
            "activityType": "IN_PASSENGER_VEHICLE",
            "confidence": "HIGH",
            "activities": [
            {
                "activityType": "IN_PASSENGER_VEHICLE",
                "probability": 0
            }
            ],
            "waypointPath": {
            "waypoints": [
                {
                "latE7": 391122779,
                "lngE7": -848646163
                },
                {
                "latE7": 391354293,
                "lngE7": -848428039
                }
            ],
            "source": "INFERRED",
            "distanceMeters": 3996.997910197294,
            "travelMode": "DRIVE",
            "confidence": 1
            },
            "editConfirmationStatus": "CONFIRMED"
        }
        },
        {
        "placeVisit": {
            "location": {
            "latitudeE7": 391364127,
            "longitudeE7": -848425601,
            "semanticType": "TYPE_ALIASED_LOCATION",
            "sourceInfo": {
                "deviceTag": 1931280707
            },
            "locationConfidence": 94.2616,
            "calibratedProbability": 82.84482
            },
            "duration": {
            "startTimestamp": "2022-07-02T17:10:29.999Z",
            "endTimestamp": "2022-07-02T21:53:54.024Z"
            },
            "placeConfidence": "HIGH_CONFIDENCE",
            "centerLatE7": 391360208,
            "centerLngE7": -848424538,
            "visitConfidence": 91,
            "editConfirmationStatus": "NOT_CONFIRMED",
            "locationConfidence": 80,
            "placeVisitType": "SINGLE_PLACE",
            "placeVisitImportance": "MAIN"
        }
        }
    ]
    }
"#;

const LOCATIONS: &str = r#"
    {
    "locations": [
        {
        "timestampMs": "1545965352966",
        "latitudeE7": 442367395,
        "longitudeE7": -764915858,
        "accuracy": 10,
        "velocity": 1,
        "heading": 147,
        "altitude": 112,
        "verticalAccuracy": 24
        },
        {
        "timestampMs": "1545950209000",
        "latitudeE7": 442376572,
        "longitudeE7": -764913977,
        "accuracy": 10,
        "velocity": 0,
        "altitude": 79,
        "verticalAccuracy": 16
        },
        {
        "timestampMs": "1545949883998",
        "latitudeE7": 442350519,
        "longitudeE7": -764875263,
        "accuracy": 5,
        "velocity": 1,
        "heading": 291,
        "altitude": 96,
        "verticalAccuracy": 3
        },
        {
        "timestampMs": "1545949718083",
        "latitudeE7": 442350467,
        "longitudeE7": -764838955,
        "accuracy": 10,
        "velocity": 0,
        "heading": 154,
        "altitude": 85,
        "verticalAccuracy": 16
        },
        {
        "timestampMs": "1545936860513",
        "latitudeE7": 442349325,
        "longitudeE7": -764826912,
        "accuracy": 65,
        "altitude": 92,
        "verticalAccuracy": 14
        }
    ]
    }
"#;

#[test]
fn test_json_decoder_json_entry() {
    let decoded_data = SpaceTimeRecord::new(JSON_ENTRIES, FileFormat::Json).expect("Failed to parse JSON content");
    let points = decoded_data.points();
    assert_eq!(points.len(), 5);
}

#[test]
fn test_json_decoder_timeline_object() {
    let decoded_data = SpaceTimeRecord::new(TIMELINE_OBJECTS, FileFormat::Json).expect("Failed to parse JSON content");
    let points = decoded_data.points();
    assert_eq!(points.len(), 5);
}

#[test]
fn test_json_decoder_location_entry() {
    let decoded_data = SpaceTimeRecord::new(LOCATIONS, FileFormat::Json).expect("Failed to parse JSON content");
    let points = decoded_data.points();
    assert_eq!(points.len(), 5);
}

#[test]
fn entries_decode_to_their_points() {
    assert_eq!(
        decoded(JSON_ENTRIES),
        vec![
            (354567890, -1205678900, 1422159367217000000, 1422205876547000000),
            (388123450, -770395270, 1465655879047000000, 1465656528644000000),
            (387654320, -769876540, 1465656528644000000, 1465657178241000000),
            (376543210, -1223456780, 1502776800000000000, 1502780160000000000),
            (376578900, -1223412340, 1502780160000000000, 1502784000000000000),
        ]
    );
}

#[test]
fn timeline_objects_decode_to_their_points() {
    assert_eq!(
        decoded(TIMELINE_OBJECTS),
        vec![
            (391122849, -848646131, 1656781539060000000, 1656781611794750000),
            (391122779, -848646163, 1656781611794750000, 1656781684529500000),
            (391354293, -848428039, 1656781684529500000, 1656781757264250000),
            (391361546, -848427170, 1656781757264250000, 1656781829999000000),
            (391364127, -848425601, 1656781829999000000, 1656798834024000000),
        ]
    );
}

#[test]
fn locations_decode_from_the_last_to_the_first() {
    assert_eq!(
        decoded(LOCATIONS),
        vec![
            (442349325, -764826912, 1545936860513000000, 1545936860513000000),
            (442350467, -764838955, 1545949718083000000, 1545949718083000000),
            (442350519, -764875263, 1545949883998000000, 1545949883998000000),
            (442376572, -764913977, 1545950209000000000, 1545950209000000000),
            (442367395, -764915858, 1545965352966000000, 1545965352966000000),
        ]
    );
}

#[test]
fn decoded_records_are_in_the_order_of_time() {
    for content in [JSON_ENTRIES, TIMELINE_OBJECTS, LOCATIONS] {
        let points = decoded(content);
        for pair in points.windows(2) {
            assert!(pair[0].3 <= pair[1].2);
        }
        for point in &points {
            assert!(point.2 <= point.3);
        }
    }
}

#[test]
fn locations_take_a_timestamp_in_either_form() {
    let content = r#"{"locations": [
        {"latitudeE7": 442367395, "longitudeE7": -764915858, "timestamp": "2018-12-28T02:49:12.966Z"},
        {"latitudeE7": 442376572, "longitudeE7": -764913977, "timestampMs": "1545950209000", "timestamp": "never read"}
    ]}"#;
    assert_eq!(
        decoded(content),
        vec![
            (442376572, -764913977, 1545950209000000000, 1545950209000000000),
            (442367395, -764915858, 1545965352966000000, 1545965352966000000),
        ]
    );
}

#[test]
fn locations_in_the_order_of_time_are_refused() {
    let content = r#"{"locations": [
        {"latitudeE7": 442376572, "longitudeE7": -764913977, "timestampMs": "1545950209000"},
        {"latitudeE7": 442367395, "longitudeE7": -764915858, "timestampMs": "1545965352966"}
    ]}"#;
    assert_eq!(failure(content), DecoderErrorKind::TimeParse);
}

#[test]
fn location_without_a_timestamp_is_refused() {
    let content = r#"{"locations": [{"latitudeE7": 442376572, "longitudeE7": -764913977}]}"#;
    assert_eq!(failure(content), DecoderErrorKind::TimeParse);
    let null = r#"{"locations": [{"latitudeE7": 442376572, "longitudeE7": -764913977, "timestampMs": null}]}"#;
    assert_eq!(failure(null), DecoderErrorKind::TimeParse);
}

#[test]
fn location_that_was_not_scaled_is_refused() {
    let content = r#"{"locations": [{"latitudeE7": 44, "longitudeE7": -764913977, "timestampMs": "1545950209000"}]}"#;
    assert_eq!(failure(content), DecoderErrorKind::GeoParse);
    let longitude = r#"{"locations": [{"latitudeE7": 442376572, "longitudeE7": -7649139, "timestampMs": "1545950209000"}]}"#;
    assert_eq!(failure(longitude), DecoderErrorKind::GeoParse);
}

#[test]
fn empty_documents_decode_to_no_points() {
    assert_eq!(decoded("[]"), vec![]);
    assert_eq!(decoded(r#"{"timelineObjects": []}"#), vec![]);
    assert_eq!(decoded(r#"{"locations": []}"#), vec![]);
}

#[test]
fn text_that_is_no_document_is_refused() {
    for content in [
        "",
        "{",
        "[1, 2",
        "null",
        "42",
        "\"text\"",
        "{}",
        "[1]",
        r#"{"timelineObjects": 1}"#,
        r#"{"locations": {}}"#,
        r#"{"locations": [{"latitudeE7": "442376572", "longitudeE7": -764913977}]}"#,
        r#"{"locations": [{"latitudeE7": 4.5, "longitudeE7": -764913977}]}"#,
        r#"{"locations": [{"longitudeE7": -764913977, "timestampMs": "1"}]}"#,
        r#"{"locations": [{"latitudeE7": 442376572, "longitudeE7": -764913977, "timestampMs": 1545950209000}]}"#,
        r#"[{"startTime": "2017-08-15T06:00:00.000Z"}]"#,
        r#"[{"startTime": "2017-08-15T06:00:00.000Z", "endTime": 5}]"#,
        r#"[{"startTime": "a", "endTime": "b", "visit": {}}]"#,
        r#"[{"startTime": "a", "endTime": "b", "visit": {"topCandidate": {}}}]"#,
        r#"[{"startTime": "a", "endTime": "b", "activity": {"start": "geo:1,2"}}]"#,
        r#"[{"startTime": "a", "endTime": "b", "timelinePath": {}}]"#,
        r#"[{"startTime": "a", "endTime": "b", "timelinePath": [{"point": "geo:1,2"}]}]"#,
        r#"{"timelineObjects": [1]}"#,
        r#"{"timelineObjects": [{"placeVisit": {"location": {}}}]}"#,
        r#"{"timelineObjects": [{"placeVisit": {"location": {"latitudeE7": "1"}, "duration": {"startTimestamp": "a", "endTimestamp": "b"}}}]}"#,
        r#"{"timelineObjects": [{"placeVisit": {"location": {"latitudeE7": 391364127, "latE7": 391364127}, "duration": {"startTimestamp": "a", "endTimestamp": "b"}}}]}"#,
        r#"{"timelineObjects": [{"activitySegment": {"startLocation": {}, "endLocation": {}, "duration": {"startTimestamp": "a", "endTimestamp": "b"}, "waypointPath": {}}}]}"#,
        r#"{"timelineObjects": [{"activitySegment": {"startLocation": {}, "endLocation": {}, "duration": {"startTimestamp": "a", "endTimestamp": "b"}, "simplifiedRawPath": {"points": [{"latE7": 1}]}}}]}"#,
    ] {
        assert_eq!(failure(content), DecoderErrorKind::Deserialize, "{}", content);
    }
}

#[test]
fn document_has_the_first_shape_that_fits() {
    let both = r#"{
        "timelineObjects": [],
        "locations": [{"latitudeE7": 442376572, "longitudeE7": -764913977, "timestampMs": "1545950209000"}]
    }"#;
    assert!(matches!(JsonRecord::from_str(both), Ok(JsonRecord::TimelineObjects(_))));
    let second = r#"{
        "timelineObjects": 7,
        "locations": [{"latitudeE7": 442376572, "longitudeE7": -764913977, "timestampMs": "1545950209000"}]
    }"#;
    assert!(matches!(JsonRecord::from_str(second), Ok(JsonRecord::LocationEntries(_))));
    assert!(matches!(JsonRecord::from_str("[]"), Ok(JsonRecord::JsonEntries(_))));
    assert_eq!(decoded(second).len(), 1);
}

#[test]
fn entry_that_holds_nothing_is_refused() {
    let content = r#"[{"startTime": "2017-08-15T06:00:00.000Z", "endTime": "2017-08-15T08:00:00.000Z"}]"#;
    assert_eq!(failure(content), DecoderErrorKind::EmptyEntry);
    let nulls = r#"[{"startTime": "2017-08-15T06:00:00.000Z", "endTime": "2017-08-15T08:00:00.000Z",
        "visit": null, "activity": null, "timelinePath": null}]"#;
    assert_eq!(failure(nulls), DecoderErrorKind::EmptyEntry);
    assert_eq!(failure(r#"{"timelineObjects": [{}]}"#), DecoderErrorKind::EmptyEntry);
    assert_eq!(failure(r#"{"timelineObjects": [{"other": 1}]}"#), DecoderErrorKind::EmptyEntry);
}

#[test]
fn entry_with_a_movement_is_read_as_a_movement() {
    let content = r#"[{
        "startTime": "2017-08-15T06:00:00.000Z", "endTime": "2017-08-15T08:00:00.000Z",
        "visit": {"topCandidate": {"placeLocation": "geo:1,1"}},
        "timelinePath": [],
        "activity": {"start": "geo:37.654321,-122.345678", "end": "geo:37.657890,-122.341234"}
    }]"#;
    assert_eq!(
        decoded(content),
        vec![
            (376543210, -1223456780, 1502776800000000000, 1502780400000000000),
            (376578900, -1223412340, 1502780400000000000, 1502784000000000000),
        ]
    );
    let stay = r#"[{
        "startTime": "2017-08-15T06:00:00.000Z", "endTime": "2017-08-15T08:00:00.000Z",
        "visit": {"topCandidate": {"placeLocation": "geo:1,1"}},
        "timelinePath": [{"point": "geo:2,2", "durationMinutesOffsetFromStartTime": "1"}]
    }]"#;
    assert_eq!(decoded(stay), vec![(10000000, 10000000, 1502776800000000000, 1502784000000000000)]);
}

#[test]
fn entry_with_a_malformed_time_is_refused() {
    let content = r#"[{"startTime": "six", "endTime": "2017-08-15T08:00:00.000Z",
        "activity": {"start": "geo:1,2", "end": "geo:1,2"}}]"#;
    assert_eq!(failure(content), DecoderErrorKind::TimeParse);
    let offset = r#"[{"startTime": "2017-08-15T06:00:00.000Z", "endTime": "2017-08-15T08:00:00.000Z",
        "timelinePath": [
            {"point": "geo:1,2", "durationMinutesOffsetFromStartTime": "soon"},
            {"point": "geo:1,2", "durationMinutesOffsetFromStartTime": "59"}
        ]}]"#;
    assert_eq!(failure(offset), DecoderErrorKind::TimeParse);
    let backwards = r#"[{"startTime": "2017-08-15T08:00:00.000Z", "endTime": "2017-08-15T06:00:00.000Z",
        "visit": {"topCandidate": {"placeLocation": "geo:1,1"}}}]"#;
    assert_eq!(failure(backwards), DecoderErrorKind::TimeParse);
    let far = r#"[{"startTime": "2017-08-15T06:00:00.000Z", "endTime": "2017-08-15T08:00:00.000Z",
        "timelinePath": [
            {"point": "geo:1,2", "durationMinutesOffsetFromStartTime": "9223372036854775807"},
            {"point": "geo:1,2", "durationMinutesOffsetFromStartTime": "59"}
        ]}]"#;
    assert_eq!(failure(far), DecoderErrorKind::TimeParse);
}

#[test]
fn entry_with_a_malformed_place_is_refused() {
    let content = r#"[{"startTime": "2017-08-15T06:00:00.000Z", "endTime": "2017-08-15T08:00:00.000Z",
        "activity": {"start": "geo:1;2", "end": "geo:1,2"}}]"#;
    assert_eq!(failure(content), DecoderErrorKind::GeoParse);
    let path = r#"[{"startTime": "2017-08-15T06:00:00.000Z", "endTime": "2017-08-15T08:00:00.000Z",
        "timelinePath": [{"point": "here", "durationMinutesOffsetFromStartTime": "5"}]}]"#;
    assert_eq!(failure(path), DecoderErrorKind::GeoParse);
}

#[test]
fn last_offset_of_a_path_is_not_read() {
    let content = r#"[{"startTime": "2017-08-15T06:00:00.000Z", "endTime": "2017-08-15T08:00:00.000Z",
        "timelinePath": [
            {"point": "geo:1,2", "durationMinutesOffsetFromStartTime": "-30"},
            {"point": "geo:3,4", "durationMinutesOffsetFromStartTime": "not read"}
        ]}]"#;
    assert_eq!(failure(content), DecoderErrorKind::TimeParse);
    let one = r#"[{"startTime": "2017-08-15T06:00:00.000Z", "endTime": "2017-08-15T08:00:00.000Z",
        "timelinePath": [{"point": "geo:3,4", "durationMinutesOffsetFromStartTime": "not read"}]}]"#;
    assert_eq!(decoded(one), vec![(30000000, 40000000, 1502776800000000000, 1502784000000000000)]);
}

#[test]
fn segment_without_a_path_gives_two_points() {
    let content = r#"{"timelineObjects": [{"activitySegment": {
        "startLocation": {"latitudeE7": 391122849, "longitudeE7": -848646131},
        "endLocation": {"latitudeE7": 391361546, "longitudeE7": -848427170},
        "duration": {"startTimestamp": "2022-07-02T17:05:39.060Z", "endTimestamp": "2022-07-02T17:10:29.999Z"}
    }}]}"#;
    assert_eq!(
        decoded(content),
        vec![
            (391122849, -848646131, 1656781539060000000, 1656781684529500000),
            (391361546, -848427170, 1656781684529500000, 1656781829999000000),
        ]
    );
}

#[test]
fn segment_with_recorded_points_ends_each_halfway_to_the_next() {
    let content = r#"{"timelineObjects": [{"activitySegment": {
        "startLocation": {"latitudeE7": 391122849, "longitudeE7": -848646131},
        "endLocation": {"latitudeE7": 391361546, "longitudeE7": -848427170},
        "duration": {"startTimestamp": "2022-07-02T17:00:00Z", "endTimestamp": "2022-07-02T18:00:00Z"},
        "simplifiedRawPath": {"points": [
            {"latE7": 391200000, "lngE7": -848600000, "timestamp": "2022-07-02T17:10:00Z", "accuracyMeters": 5},
            {"latE7": 391300000, "lngE7": -848500000, "timestamp": "2022-07-02T17:40:00Z", "accuracyMeters": 5}
        ]},
        "waypointPath": {"waypoints": [{"latE7": 1, "lngE7": 1}]}
    }}]}"#;
    let start: i128 = 1656781200000000000;
    let minute: i128 = 60_000_000_000;
    assert_eq!(
        decoded(content),
        vec![
            (391122849, -848646131, start, start + 5 * minute),
            (391200000, -848600000, start + 5 * minute, start + 25 * minute),
            (391300000, -848500000, start + 25 * minute, start + 50 * minute),
            (391361546, -848427170, start + 50 * minute, start + 60 * minute),
        ]
    );
}

#[test]
fn waypoint_without_coordinates_gives_no_point_but_takes_its_time() {
    let content = r#"{"timelineObjects": [{"activitySegment": {
        "startLocation": {"latitudeE7": 391122849, "longitudeE7": -848646131},
        "endLocation": {"latitudeE7": 391361546, "longitudeE7": -848427170},
        "duration": {"startTimestamp": "2022-07-02T17:00:00Z", "endTimestamp": "2022-07-02T18:00:00Z"},
        "waypointPath": {"waypoints": [{"latE7": 391200000}, {"latE7": 391300000, "lngE7": -848500000}]}
    }}]}"#;
    let start: i128 = 1656781200000000000;
    let minute: i128 = 60_000_000_000;
    assert_eq!(
        decoded(content),
        vec![
            (391122849, -848646131, start, start + 15 * minute),
            (391300000, -848500000, start + 30 * minute, start + 45 * minute),
            (391361546, -848427170, start + 45 * minute, start + 60 * minute),
        ]
    );
}

#[test]
fn place_visit_without_coordinates_gives_no_point() {
    let content = r#"{"timelineObjects": [{"placeVisit": {
        "location": {"latitudeE7": 391364127},
        "duration": {"startTimestamp": "never read", "endTimestamp": "never read"}
    }}]}"#;
    assert_eq!(decoded(content), vec![]);
    let null = r#"{"timelineObjects": [{"placeVisit": {
        "location": {"latitudeE7": 391364127, "longitudeE7": null},
        "duration": {"startTimestamp": "never read", "endTimestamp": "never read"}
    }}]}"#;
    assert_eq!(decoded(null), vec![]);
}

#[test]
fn timeline_object_with_a_stay_is_read_as_a_stay() {
    let content = r#"{"timelineObjects": [{
        "placeVisit": {
            "location": {"latitudeE7": 391364127, "longitudeE7": -848425601},
            "duration": {"startTimestamp": "2022-07-02T17:00:00Z", "endTimestamp": "2022-07-02T18:00:00Z"}
        },
        "activitySegment": {
            "startLocation": {}, "endLocation": {},
            "duration": {"startTimestamp": "never read", "endTimestamp": "never read"}
        }
    }]}"#;
    assert_eq!(decoded(content), vec![(391364127, -848425601, 1656781200000000000, 1656784800000000000)]);
}

#[test]
fn timeline_object_with_a_malformed_part_is_refused() {
    let time = r#"{"timelineObjects": [{"placeVisit": {
        "location": {"latitudeE7": 391364127, "longitudeE7": -848425601},
        "duration": {"startTimestamp": "2022-07-02", "endTimestamp": "2022-07-02T18:00:00Z"}
    }}]}"#;
    assert_eq!(failure(time), DecoderErrorKind::TimeParse);
    let place = r#"{"timelineObjects": [{"placeVisit": {
        "location": {"latitudeE7": 39, "longitudeE7": -848425601},
        "duration": {"startTimestamp": "2022-07-02T17:00:00Z", "endTimestamp": "2022-07-02T18:00:00Z"}
    }}]}"#;
    assert_eq!(failure(place), DecoderErrorKind::GeoParse);
    let raw = r#"{"timelineObjects": [{"activitySegment": {
        "startLocation": {"latitudeE7": 391122849, "longitudeE7": -848646131},
        "endLocation": {"latitudeE7": 391361546, "longitudeE7": -848427170},
        "duration": {"startTimestamp": "2022-07-02T17:00:00Z", "endTimestamp": "2022-07-02T18:00:00Z"},
        "simplifiedRawPath": {"points": [{"latE7": 391200000, "lngE7": -848600000, "timestamp": "then"}]}
    }}]}"#;
    assert_eq!(failure(raw), DecoderErrorKind::TimeParse);
}

#[test]
fn objects_out_of_order_are_refused() {
    let content = r#"{"timelineObjects": [
        {"placeVisit": {
            "location": {"latitudeE7": 391364127, "longitudeE7": -848425601},
            "duration": {"startTimestamp": "2022-07-02T17:00:00Z", "endTimestamp": "2022-07-02T18:00:00Z"}
        }},
        {"placeVisit": {
            "location": {"latitudeE7": 391364127, "longitudeE7": -848425601},
            "duration": {"startTimestamp": "2022-07-02T17:59:59Z", "endTimestamp": "2022-07-02T19:00:00Z"}
        }}
    ]}"#;
    assert_eq!(failure(content), DecoderErrorKind::TimeParse);
    let document = JsonRecord::from_str(content).unwrap();
    assert_eq!(document.to_space_time_points().unwrap().len(), 2);
    assert!(SpaceTimeRecord::decode(&document).is_err());
}

#[test]
fn failures_carry_what_the_readers_say() {
    let syntax = SpaceTimeRecord::new("{", FileFormat::Json).unwrap_err();
    assert!(
        syntax.message().starts_with("Deserialize Error: Failed to deserialize json Eof at line, col 1,1"),
        "{}",
        syntax.message()
    );
    let trailing = SpaceTimeRecord::new("[] []", FileFormat::Json).unwrap_err();
    assert_eq!(trailing.message(), "Deserialize Error: Failed to deserialize json Syntax at line, col 1,4");
    let time = r#"[{"startTime": "six", "endTime": "2017-08-15T08:00:00.000Z",
        "activity": {"start": "geo:1,2", "end": "geo:1,2"}}]"#;
    let error = SpaceTimeRecord::new(time, FileFormat::Json).unwrap_err();
    assert_eq!(error.message(), "UTC Parsing Error: premature end of input");
}
