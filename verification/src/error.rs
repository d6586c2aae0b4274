use vstd::prelude::*;
use vstd::string::StringExecFns;

verus! {

/// Everything that can go wrong between a print request and the wire.
#[derive(Debug)]
pub enum PrinterError {
    /// The transport or the text encoder failed.
    Io(String),
    /// The caller supplied a value that cannot be encoded.
    Input(String),
    /// The transport could not reach the device.
    Network(String),
    /// The encoder was set up with something it does not know.
    Configuration(String),
}

/// The mathematical value of a [`PrinterError`]: its kind and its message.
pub enum Failure {
    Io(Seq<char>),
    Input(Seq<char>),
    Network(Seq<char>),
    Configuration(Seq<char>),
}

impl View for PrinterError {
    type V = Failure;

    open spec fn view(&self) -> Failure {
        match self {
            PrinterError::Io(message) => Failure::Io(message@),
            PrinterError::Input(message) => Failure::Input(message@),
            PrinterError::Network(message) => Failure::Network(message@),
            PrinterError::Configuration(message) => Failure::Configuration(message@),
        }
    }
}

/// What `message` renders for a failure: the kind's prefix, then the detail.
pub open spec fn failure_text(failure: Failure) -> Seq<char> {
    match failure {
        Failure::Io(detail) => "IO error: "@ + detail,
        Failure::Network(detail) => "Network error: "@ + detail,
        Failure::Configuration(detail) => "Configuration error: "@ + detail,
        Failure::Input(detail) => "Input error: "@ + detail,
    }
}

/// The view of a result whose success carries bytes.
pub open spec fn outcome(r: Result<Vec<u8>, PrinterError>) -> Result<Seq<u8>, Failure> {
    match r {
        Ok(bytes) => Ok(bytes@),
        Err(e) => Err(e@),
    }
}

impl PrinterError {
    pub fn configuration(s: &str) -> (e: Self)
        ensures
            e@ == Failure::Configuration(s@),
    {
        PrinterError::Configuration(String::from_str(s))
    }

    pub fn input(s: &str) -> (e: Self)
        ensures
            e@ == Failure::Input(s@),
    {
        PrinterError::Input(String::from_str(s))
    }

    /// The human-readable form of the error.
    pub fn message(&self) -> (text: String)
        ensures
            text@ == failure_text(self@),
    {
        match self {
            PrinterError::Io(detail) => String::from_str("IO error: ").concat(detail.as_str()),
            PrinterError::Network(detail) => String::from_str("Network error: ").concat(
                detail.as_str(),
            ),
            PrinterError::Configuration(detail) => String::from_str(
                "Configuration error: ",
            ).concat(detail.as_str()),
            PrinterError::Input(detail) => String::from_str("Input error: ").concat(
                detail.as_str(),
            ),
        }
    }
}

} // verus!
