//! The ways in which fetching and selecting a stream can fail.
use vstd::prelude::*;

verus! {

/// Why a step of the fetch-and-select cycle failed.
#[derive(Clone, Copy, Debug, PartialEq, Eq, Structural)]
pub enum ErrorKind {
    /// A request could not be sent, or its response could not be read.
    Network,
    /// A response body was not JSON of the expected shape.
    Parse,
    /// Downloaded bytes were not an image in a supported format.
    ImageDecode,
    /// The listing held no stream to choose from.
    EmptyInput,
    /// A credential was absent where it was needed.
    MissingCredential,
}

impl ErrorKind {
    /// The sentence that `message` returns for each kind.
    pub open spec fn spec_message(self) -> Seq<char> {
        match self {
            ErrorKind::Network => "the request could not be completed"@,
            ErrorKind::Parse => "the response was not in the expected format"@,
            ErrorKind::ImageDecode => "the thumbnail could not be decoded"@,
            ErrorKind::EmptyInput => "no live streams were returned"@,
            ErrorKind::MissingCredential => "a required credential is missing"@,
        }
    }

    /// A short sentence for a status line.
    pub fn message(&self) -> (text: String)
        ensures
            text@ == self.spec_message(),
    {
        match self {
            ErrorKind::Network => "the request could not be completed".to_owned(),
            ErrorKind::Parse => "the response was not in the expected format".to_owned(),
            ErrorKind::ImageDecode => "the thumbnail could not be decoded".to_owned(),
            ErrorKind::EmptyInput => "no live streams were returned".to_owned(),
            ErrorKind::MissingCredential => "a required credential is missing".to_owned(),
        }
    }

    /// Whether the process should stop on this failure rather than keep its
    /// previous state: only a missing credential or an unreadable response is
    /// treated so, a failed transfer or an empty listing never.
    pub fn is_fatal(&self) -> (fatal: bool)
        ensures
            fatal == (*self == ErrorKind::MissingCredential || *self == ErrorKind::Parse),
    {
        match self {
            ErrorKind::MissingCredential | ErrorKind::Parse => true,
            _ => false,
        }
    }
}

} // verus!
