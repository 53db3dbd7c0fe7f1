use vstd::prelude::*;
use vstd::string::*;

verus! {

/// Why a file could not be handed to the decoders.
#[derive(Debug, PartialEq, Clone)]
pub enum FileProcessingError {
    /// The path names no file; it carries the path.
    InvalidPathError(String),
    /// One of the two inputs was not supplied.
    MissingFileError,
    /// The file could not be read; it carries the reason.
    FileReaderError(String),
    /// The input is still being read: a pending state, not a failure.
    InProcessError,
}

impl FileProcessingError {
    /// Whether this is the pending state.
    pub fn is_processing(&self) -> (pending: bool)
        ensures
            pending == (*self is InProcessError),
    {
        match self {
            FileProcessingError::InProcessError => true,
            _ => false,
        }
    }

    /// The text shown for this error.
    pub open spec fn message_text(&self) -> Seq<char> {
        match self {
            FileProcessingError::InvalidPathError(path) => "Invalid path: "@ + path@,
            FileProcessingError::MissingFileError => "Please provide both files"@,
            FileProcessingError::FileReaderError(msg) => msg@,
            FileProcessingError::InProcessError => "File is still being processed"@,
        }
    }

    /// Renders the error for display.
    pub fn message(&self) -> (text: String)
        ensures
            text@ == self.message_text(),
    {
        match self {
            FileProcessingError::InvalidPathError(path) => String::from_str("Invalid path: ").concat(
                path.as_str(),
            ),
            FileProcessingError::MissingFileError => String::from_str("Please provide both files"),
            FileProcessingError::FileReaderError(msg) => msg.clone(),
            FileProcessingError::InProcessError => String::from_str(
                "File is still being processed",
            ),
        }
    }
}

} // verus!
