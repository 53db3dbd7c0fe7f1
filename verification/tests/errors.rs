use chance_encounter::decoders::errors::{DecoderError, DecoderErrorKind};
use chance_encounter::errors::Error;
use chance_encounter::utils::errors::FileProcessingError;

#[test]
fn only_the_pending_state_is_processing() {
    assert!(FileProcessingError::InProcessError.is_processing());
    assert!(!FileProcessingError::MissingFileError.is_processing());
    assert!(!FileProcessingError::InvalidPathError("x".to_string()).is_processing());
    assert!(!FileProcessingError::FileReaderError("x".to_string()).is_processing());
}

#[test]
fn file_errors_are_shown() {
    assert_eq!(FileProcessingError::InvalidPathError("a/".to_string()).message(), "Invalid path: a/");
    assert_eq!(FileProcessingError::MissingFileError.message(), "Please provide both files");
    assert_eq!(FileProcessingError::FileReaderError("f: is empty file".to_string()).message(), "f: is empty file");
    assert_eq!(FileProcessingError::InProcessError.message(), "File is still being processed");
}

#[test]
fn decoder_errors_are_shown() {
    assert_eq!(DecoderError::DeserializeError("a".to_string()).message(), "Deserialize Error: a");
    assert_eq!(DecoderError::EmptyEntryError("b".to_string()).message(), "Empty Entry Error: b");
    assert_eq!(DecoderError::TimeParseError("c".to_string()).message(), "UTC Parsing Error: c");
    assert_eq!(DecoderError::GeoParseError("d".to_string()).message(), "Geo Parse Error: d");
}

#[test]
fn decoder_errors_have_their_kinds() {
    assert_eq!(DecoderError::DeserializeError("a".to_string()).kind(), DecoderErrorKind::Deserialize);
    assert_eq!(DecoderError::EmptyEntryError("b".to_string()).kind(), DecoderErrorKind::EmptyEntry);
    assert_eq!(DecoderError::TimeParseError("c".to_string()).kind(), DecoderErrorKind::TimeParse);
    assert_eq!(DecoderError::GeoParseError("d".to_string()).kind(), DecoderErrorKind::GeoParse);
    for kind in [
        DecoderErrorKind::Deserialize,
        DecoderErrorKind::EmptyEntry,
        DecoderErrorKind::TimeParse,
        DecoderErrorKind::GeoParse,
    ] {
        assert_eq!(DecoderError::of_kind(kind, "x").kind(), kind);
    }
    assert_eq!(DecoderError::of_kind(DecoderErrorKind::GeoParse, "x").message(), "Geo Parse Error: x");
}

#[test]
fn errors_are_shown_with_their_origin() {
    let decoder = Error::from(DecoderError::GeoParseError("d".to_string()));
    assert_eq!(decoder.message(), "Decoder error: Geo Parse Error: d");
    let file = Error::from(FileProcessingError::MissingFileError);
    assert_eq!(file.message(), "File processing error: Please provide both files");
    assert_eq!(Error::WebWorkerError("w".to_string()).message(), "Web worker error: w");
}

#[test]
fn waiting_is_told_from_failing() {
    assert!(Error::from(FileProcessingError::MissingFileError).is_pending());
    assert!(Error::from(FileProcessingError::InProcessError).is_pending());
    assert!(!Error::from(FileProcessingError::FileReaderError("x".to_string())).is_pending());
    assert!(!Error::from(DecoderError::TimeParseError("x".to_string())).is_pending());
    assert!(!Error::WebWorkerError("x".to_string()).is_pending());
}
