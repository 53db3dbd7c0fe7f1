use chance_encounter::decoders::errors::DecoderErrorKind;
use chance_encounter::errors::Error;
use chance_encounter::process::load_records;
use chance_encounter::utils::errors::FileProcessingError;
use chance_encounter::utils::fileutils::FileContent;

fn file(name: &str, content: &str) -> FileContent {
    FileContent { filename: name.to_string(), content: content.to_string() }
}

const ONE: &str = r#"{"locations": [{"latitudeE7": 442376572, "longitudeE7": -764913977, "timestampMs": "1545950209000"}]}"#;
const TWO: &str = r#"{"locations": [
    {"latitudeE7": 442367395, "longitudeE7": -764915858, "timestampMs": "1545965352966"},
    {"latitudeE7": 442376572, "longitudeE7": -764913977, "timestampMs": "1545950209000"}
]}"#;

#[test]
fn missing_inputs_are_pending() {
    match load_records(None) {
        Err(Error::FileProcessingError(FileProcessingError::MissingFileError)) => {}
        other => panic!("{:?}", other.map(|_| ())),
    }
    assert!(load_records(None).unwrap_err().is_pending());
}

#[test]
fn both_inputs_are_decoded() {
    let (first, second) = load_records(Some((file("a.json", ONE), file("b.json", TWO)))).unwrap();
    assert_eq!(first.len(), 1);
    assert_eq!(second.len(), 2);
    assert_eq!(second.point(0).start_time(), 1545950209000000000);
}

#[test]
fn first_failure_is_reported() {
    let error = load_records(Some((file("a.json", "{"), file("b.json", "[{}]")))).unwrap_err();
    assert!(!error.is_pending());
    match error {
        Error::DecoderError(e) => assert_eq!(e.kind(), DecoderErrorKind::Deserialize),
        other => panic!("{:?}", other),
    }
    let second = r#"[{"startTime": "2017-08-15T06:00:00.000Z", "endTime": "2017-08-15T08:00:00.000Z"}]"#;
    match load_records(Some((file("a.json", ONE), file("b.json", second)))).unwrap_err() {
        Error::DecoderError(e) => assert_eq!(e.kind(), DecoderErrorKind::EmptyEntry),
        other => panic!("{:?}", other),
    }
}
