use crate::compute::spacetime::{PointView, SpaceTimeRecord};
use crate::decoders::errors::DecoderErrorKind;
use crate::decoders::{decoded_points, record_of, FileFormat};
use crate::errors::Error;
use crate::utils::errors::FileProcessingError;
use crate::utils::fileutils::FileContents;
use vstd::prelude::*;

verus! {

/// What loading gives: the two records, or why there are none. `Pending`
/// says that an input is not there yet, which is no failure.
pub ghost enum Loaded {
    Pending,
    Failed(DecoderErrorKind),
    Records(Seq<PointView>, Seq<PointView>),
}

/// What loading the two documents gives, both read as JSON: the first is
/// decoded before the second, and the first failure ends the loading.
pub open spec fn loaded(first: Seq<char>, second: Seq<char>) -> Loaded {
    match record_of(decoded_points(first, FileFormat::Json)) {
        Err(kind) => Loaded::Failed(kind),
        Ok(a) => match record_of(decoded_points(second, FileFormat::Json)) {
            Err(kind) => Loaded::Failed(kind),
            Ok(b) => Loaded::Records(a, b),
        },
    }
}

/// What `result` amounts to.
pub open spec fn load_outcome(result: Result<(SpaceTimeRecord, SpaceTimeRecord), Error>) -> Loaded {
    match result {
        Ok(records) => Loaded::Records(records.0@, records.1@),
        Err(Error::DecoderError(e)) => Loaded::Failed(e.spec_kind()),
        Err(_) => Loaded::Pending,
    }
}

/// Decodes the two inputs of a match. Where they are not there yet, the
/// answer says so and nothing is decoded.
pub fn load_records(files: FileContents) -> (records: Result<
    (SpaceTimeRecord, SpaceTimeRecord),
    Error,
>)
    ensures
        load_outcome(records) == match files {
            None => Loaded::Pending,
            Some(pair) => loaded(pair.0.content@, pair.1.content@),
        },
        files is None ==> records matches Err(
            Error::FileProcessingError(FileProcessingError::MissingFileError),
        ),
{
    let (file1, file2) = match files {
        Some(pair) => pair,
        None => {
            return Err(Error::FileProcessingError(FileProcessingError::MissingFileError));
        },
    };
    let record1 = match SpaceTimeRecord::new(file1.content.as_str(), FileFormat::Json) {
        Ok(record) => record,
        Err(e) => {
            return Err(Error::DecoderError(e));
        },
    };
    let record2 = match SpaceTimeRecord::new(file2.content.as_str(), FileFormat::Json) {
        Ok(record) => record,
        Err(e) => {
            return Err(Error::DecoderError(e));
        },
    };
    Ok((record1, record2))
}

} // verus!
