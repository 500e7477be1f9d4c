//! The error kinds of the library.

use vstd::prelude::*;

verus! {

/// What can go wrong when an image is loaded or queried.
#[derive(Debug, PartialEq, Eq)]
pub enum Error {
    /// The engine built no image. Holds the engine's diagnostic text as it
    /// stood when the call came back.
    ImageLoadError(String),
    /// The engine answered a metadata query with a failure status. Holds the
    /// engine's diagnostic text as it stood when the call came back.
    ImageMetadataError(String),
    /// A string cannot cross the foreign boundary because it holds a zero
    /// byte. Holds the position of the first one.
    StringConversionError(usize),
}

impl Error {
    /// The text of the error as a sequence of characters.
    pub open spec fn text(self) -> Seq<char> {
        match self {
            Error::ImageLoadError(message) => message@,
            Error::ImageMetadataError(message) => message@,
            Error::StringConversionError(_) => "nul byte found in provided data"@,
        }
    }

    /// The text to show for this error. For the two native kinds this is the
    /// engine's own wording, passed through unchanged.
    pub fn message(&self) -> (text: String)
        ensures
            text@ == self.text(),
    {
        match self {
            Error::ImageLoadError(message) => message.clone(),
            Error::ImageMetadataError(message) => message.clone(),
            Error::StringConversionError(_) => "nul byte found in provided data".to_owned(),
        }
    }
}

} // verus!
