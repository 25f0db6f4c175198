//! What can go wrong.

use vstd::prelude::*;
use vstd::string::*;

verus! {

/// Why an operation failed.
#[derive(Debug, Clone, PartialEq, Eq)]
pub enum Error {
    /// The file system refused a read, a write or a listing. Holds what it
    /// said.
    Io(String),
    /// The path has no usable file name, or no file was found for it.
    InvalidPath,
    /// The extension of the path stands for no format.
    UnknownFileFormat,
    /// A value could not be written in its format. Holds what the encoder
    /// said.
    Serialize(String),
    /// A text could not be read in its format. Holds what the decoder said.
    Deserialize(String),
}

impl Error {
    /// The text of `to_string`.
    pub open spec fn text(self) -> Seq<char> {
        match self {
            Error::Io(said) => said@,
            Error::InvalidPath => "Don't contain a valid file name"@,
            Error::UnknownFileFormat => "Unknown file format"@,
            Error::Serialize(said) => said@,
            Error::Deserialize(said) => said@,
        }
    }

    /// `filed` is `self` as the failure of an encoder: `self` where it is
    /// one, and else its words under `Serialize`.
    pub open spec fn filed_as_serialize(self, filed: Error) -> bool {
        &&& filed is Serialize
        &&& filed.text() == self.text()
        &&& self is Serialize ==> filed == self
    }

    /// `filed` is `self` as the failure of a decoder: `self` where it is
    /// one, and else its words under `Deserialize`.
    pub open spec fn filed_as_deserialize(self, filed: Error) -> bool {
        &&& filed is Deserialize
        &&& filed.text() == self.text()
        &&& self is Deserialize ==> filed == self
    }

    /// The error in words. An error that came from outside speaks for itself.
    pub fn to_string(&self) -> (text: String)
        ensures
            text@ == self.text(),
    {
        match self {
            Error::Io(said) => said.clone(),
            Error::InvalidPath => String::from_str("Don't contain a valid file name"),
            Error::UnknownFileFormat => String::from_str("Unknown file format"),
            Error::Serialize(said) => said.clone(),
            Error::Deserialize(said) => said.clone(),
        }
    }

    /// Files the error as the failure of an encoder.
    pub fn into_serialize(self) -> (filed: Error)
        ensures
            self.filed_as_serialize(filed),
    {
        match self {
            Error::Serialize(said) => Error::Serialize(said),
            other => Error::Serialize(other.to_string()),
        }
    }

    /// Files the error as the failure of a decoder.
    pub fn into_deserialize(self) -> (filed: Error)
        ensures
            self.filed_as_deserialize(filed),
    {
        match self {
            Error::Deserialize(said) => Error::Deserialize(said),
            other => Error::Deserialize(other.to_string()),
        }
    }
}

} // verus!
