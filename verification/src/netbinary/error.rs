use vstd::prelude::*;

verus! {

/// Why an encode or a decode stopped.
#[derive(Debug, PartialEq, Eq)]
pub enum Error {
    /// Text on the wire was not valid UTF-8.
    IllegalString,
    /// A length prefix ran on past its fifth group.
    IllegalStringLength,
    /// The source ended before the value did.
    IOError,
    /// A sequence was to be written without its length.
    SequenceLengthRequired,
    /// A sequence has more elements than the count field can hold.
    SequenceTooLong,
    /// The format has no representation for this kind of value.
    UnsupportedType,
    /// The document does not open with the expected magic text.
    FormatMismatch,
    /// Anything a schema has to say for itself.
    Custom(String),
}

/// An [`Error`] as specifications see it: the same cases, with a message held
/// as its characters.
pub enum Fault {
    IllegalString,
    IllegalStringLength,
    IOError,
    SequenceLengthRequired,
    SequenceTooLong,
    UnsupportedType,
    FormatMismatch,
    Custom(Seq<char>),
}

impl View for Error {
    type V = Fault;

    open spec fn view(&self) -> Fault {
        match self {
            Error::IllegalString => Fault::IllegalString,
            Error::IllegalStringLength => Fault::IllegalStringLength,
            Error::IOError => Fault::IOError,
            Error::SequenceLengthRequired => Fault::SequenceLengthRequired,
            Error::SequenceTooLong => Fault::SequenceTooLong,
            Error::UnsupportedType => Fault::UnsupportedType,
            Error::FormatMismatch => Fault::FormatMismatch,
            Error::Custom(message) => Fault::Custom(message@),
        }
    }
}

/// The message of a count field that stands for no number of elements.
pub open spec fn invalid_sequence_length() -> Seq<char> {
    "invalid sequence length"@
}

/// The message of an enumeration field that holds no declared ordinal.
pub open spec fn invalid_ordinal() -> Seq<char> {
    "invalid enumeration value"@
}

impl Fault {
    /// The text that describes the fault.
    pub open spec fn text(self) -> Seq<char> {
        match self {
            Fault::IllegalString => "Illegal string"@,
            Fault::IllegalStringLength => "Illegal string length"@,
            Fault::IOError => "I/O error"@,
            Fault::SequenceLengthRequired => "Sequence length required"@,
            Fault::SequenceTooLong => "Sequence too long"@,
            Fault::UnsupportedType => "Unsupported type"@,
            Fault::FormatMismatch => "Wrong document type"@,
            Fault::Custom(message) => message,
        }
    }
}

impl Error {
    /// A message for a count field below minus one.
    pub fn invalid_sequence_length() -> (e: Error)
        ensures
            e@ == Fault::Custom(invalid_sequence_length()),
    {
        Error::Custom(String::from_str("invalid sequence length"))
    }

    /// A message for an ordinal that no variant declares.
    pub fn invalid_ordinal() -> (e: Error)
        ensures
            e@ == Fault::Custom(invalid_ordinal()),
    {
        Error::Custom(String::from_str("invalid enumeration value"))
    }

    /// The text that describes the error.
    pub fn message(&self) -> (text: String)
        ensures
            text@ == self@.text(),
    {
        match self {
            Error::IllegalString => String::from_str("Illegal string"),
            Error::IllegalStringLength => String::from_str("Illegal string length"),
            Error::IOError => String::from_str("I/O error"),
            Error::SequenceLengthRequired => String::from_str("Sequence length required"),
            Error::SequenceTooLong => String::from_str("Sequence too long"),
            Error::UnsupportedType => String::from_str("Unsupported type"),
            Error::FormatMismatch => String::from_str("Wrong document type"),
            Error::Custom(message) => message.clone(),
        }
    }
}

} // verus!
