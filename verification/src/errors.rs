use crate::decoders::errors::DecoderError;
use crate::utils::errors::FileProcessingError;
use vstd::prelude::*;
use vstd::std_specs::convert::FromSpecImpl;
use vstd::string::*;

verus! {

/// Any failure that the library reports to its caller.
#[derive(Debug, Clone)]
pub enum Error {
    /// An input could not be decoded.
    DecoderError(DecoderError),
    /// An input could not be obtained, or is not there yet.
    FileProcessingError(FileProcessingError),
    /// The background computation itself failed; it carries the reason.
    WebWorkerError(String),
}

impl Error {
    /// The text shown for this error.
    pub open spec fn message_text(&self) -> Seq<char> {
        match self {
            Error::DecoderError(err) => "Decoder error: "@ + err.message_text(),
            Error::FileProcessingError(err) => "File processing error: "@ + err.message_text(),
            Error::WebWorkerError(err) => "Web worker error: "@ + err@,
        }
    }

    /// Renders the error for display.
    pub fn message(&self) -> (text: String)
        ensures
            text@ == self.message_text(),
    {
        match self {
            Error::DecoderError(err) => {
                let inner = err.message();
                String::from_str("Decoder error: ").concat(inner.as_str())
            },
            Error::FileProcessingError(err) => {
                let inner = err.message();
                String::from_str("File processing error: ").concat(inner.as_str())
            },
            Error::WebWorkerError(err) => String::from_str("Web worker error: ").concat(
                err.as_str(),
            ),
        }
    }

    /// Whether this error only says that an input is not there yet, so that
    /// the caller should keep waiting instead of reporting a failure.
    pub fn is_pending(&self) -> (pending: bool)
        ensures
            pending == (*self matches Error::FileProcessingError(inner)
                && (inner is MissingFileError || inner is InProcessError)),
    {
        match self {
            Error::FileProcessingError(FileProcessingError::MissingFileError) => true,
            Error::FileProcessingError(FileProcessingError::InProcessError) => true,
            _ => false,
        }
    }
}

impl From<DecoderError> for Error {
    fn from(err: DecoderError) -> (error: Error) {
        Error::DecoderError(err)
    }
}

impl FromSpecImpl<DecoderError> for Error {
    open spec fn obeys_from_spec() -> bool {
        true
    }

    open spec fn from_spec(err: DecoderError) -> Error {
        Error::DecoderError(err)
    }
}

impl From<FileProcessingError> for Error {
    fn from(err: FileProcessingError) -> (error: Error) {
        Error::FileProcessingError(err)
    }
}

impl FromSpecImpl<FileProcessingError> for Error {
    open spec fn obeys_from_spec() -> bool {
        true
    }

    open spec fn from_spec(err: FileProcessingError) -> Error {
        Error::FileProcessingError(err)
    }
}

} // verus!
