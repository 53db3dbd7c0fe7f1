use vstd::prelude::*;
use vstd::string::*;

verus! {

/// Why a location history could not be decoded. Each variant carries a
/// detail text for the reader.
#[derive(Debug, Clone)]
pub enum DecoderError {
    /// The document is not well-formed or does not have a known shape.
    DeserializeError(String),
    /// An entry is well-formed but holds none of the recognised contents.
    EmptyEntryError(String),
    /// A timestamp or a time offset could not be understood.
    TimeParseError(String),
    /// A coordinate text or value could not be understood.
    GeoParseError(String),
}

/// The four kinds of decoding failure, without their detail texts.
#[derive(Debug, Clone, Copy, PartialEq, Eq, Structural)]
pub enum DecoderErrorKind {
    Deserialize,
    EmptyEntry,
    TimeParse,
    GeoParse,
}

impl DecoderError {
    /// The kind of this error.
    pub open spec fn spec_kind(&self) -> DecoderErrorKind {
        match self {
            DecoderError::DeserializeError(_) => DecoderErrorKind::Deserialize,
            DecoderError::EmptyEntryError(_) => DecoderErrorKind::EmptyEntry,
            DecoderError::TimeParseError(_) => DecoderErrorKind::TimeParse,
            DecoderError::GeoParseError(_) => DecoderErrorKind::GeoParse,
        }
    }

    /// The detail text carried by this error.
    pub open spec fn detail(&self) -> Seq<char> {
        match self {
            DecoderError::DeserializeError(msg) => msg@,
            DecoderError::EmptyEntryError(msg) => msg@,
            DecoderError::TimeParseError(msg) => msg@,
            DecoderError::GeoParseError(msg) => msg@,
        }
    }

    /// The kind of this error.
    #[verifier::when_used_as_spec(spec_kind)]
    pub fn kind(&self) -> (kind: DecoderErrorKind)
        ensures
            kind == self.spec_kind(),
    {
        match self {
            DecoderError::DeserializeError(_) => DecoderErrorKind::Deserialize,
            DecoderError::EmptyEntryError(_) => DecoderErrorKind::EmptyEntry,
            DecoderError::TimeParseError(_) => DecoderErrorKind::TimeParse,
            DecoderError::GeoParseError(_) => DecoderErrorKind::GeoParse,
        }
    }

    /// Makes the error of the given kind with the given detail text.
    pub fn of_kind(kind: DecoderErrorKind, detail: &str) -> (error: DecoderError)
        ensures
            error.spec_kind() == kind,
            error.detail() == detail@,
    {
        match kind {
            DecoderErrorKind::Deserialize => DecoderError::DeserializeError(String::from_str(detail)),
            DecoderErrorKind::EmptyEntry => DecoderError::EmptyEntryError(String::from_str(detail)),
            DecoderErrorKind::TimeParse => DecoderError::TimeParseError(String::from_str(detail)),
            DecoderErrorKind::GeoParse => DecoderError::GeoParseError(String::from_str(detail)),
        }
    }

    /// The text shown for this error: a heading for its kind, then the detail.
    pub open spec fn message_text(&self) -> Seq<char> {
        match self {
            DecoderError::DeserializeError(msg) => "Deserialize Error: "@ + msg@,
            DecoderError::EmptyEntryError(msg) => "Empty Entry Error: "@ + msg@,
            DecoderError::TimeParseError(msg) => "UTC Parsing Error: "@ + msg@,
            DecoderError::GeoParseError(msg) => "Geo Parse Error: "@ + msg@,
        }
    }

    /// Renders the error for display.
    pub fn message(&self) -> (text: String)
        ensures
            text@ == self.message_text(),
    {
        match self {
            DecoderError::DeserializeError(msg) => String::from_str("Deserialize Error: ").concat(
                msg.as_str(),
            ),
            DecoderError::EmptyEntryError(msg) => String::from_str("Empty Entry Error: ").concat(
                msg.as_str(),
            ),
            DecoderError::TimeParseError(msg) => String::from_str("UTC Parsing Error: ").concat(
                msg.as_str(),
            ),
            DecoderError::GeoParseError(msg) => String::from_str("Geo Parse Error: ").concat(
                msg.as_str(),
            ),
        }
    }
}

} // verus!
