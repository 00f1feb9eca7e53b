//! The failures of a document run.

use vstd::prelude::*;

verus! {

/// The stages of a page's pipeline, in the order in which they run.
#[derive(Debug, Clone, Copy, PartialEq, Eq, Structural)]
pub enum Stage {
    StoreImage,
    Recognize,
    StoreText,
    Synthesize,
    StoreAudio,
}

/// Why a document or one of its pages failed. `Render` and `Io` concern the
/// whole document; every other kind concerns one page.
#[derive(Debug, Clone, PartialEq, Eq)]
pub enum Error {
    /// Rasterizing the document failed.
    Render(String),
    /// Reading or hashing the source file failed.
    Io(String),
    /// Writing an artifact failed at the given stage.
    Storage(Stage, String),
    /// The recognition or synthesis call failed at the given stage.
    Service(Stage, String),
    /// The recognition service declined the image, for the given reason.
    Refusal(String),
    /// The recognition service returned neither text nor a refusal.
    NoResponse,
    /// The image reference could not be built from the endpoint and bucket.
    ReferenceConstruction,
}

/// The message of a missing answer.
pub const NO_RESPONSE_MESSAGE: &'static str = "The ChatGPT API did not return a response in choices!";

/// The message of an image reference that could not be built.
pub const REFERENCE_MESSAGE: &'static str = "There was an error parsing that URL";

impl Error {
    /// A message for people: the detail carried by the failure, or a fixed
    /// text for the kinds that carry none.
    pub fn message(&self) -> (r: String)
        ensures
            match self {
                Error::Render(m) | Error::Io(m) | Error::Storage(_, m) | Error::Service(_, m)
                | Error::Refusal(m) => r@ == m@,
                Error::NoResponse => r@ == NO_RESPONSE_MESSAGE@,
                Error::ReferenceConstruction => r@ == REFERENCE_MESSAGE@,
            },
    {
        match self {
            Error::Render(m) | Error::Io(m) | Error::Storage(_, m) | Error::Service(_, m)
            | Error::Refusal(m) => m.clone(),
            Error::NoResponse => String::from_str(NO_RESPONSE_MESSAGE),
            Error::ReferenceConstruction => String::from_str(REFERENCE_MESSAGE),
        }
    }

    /// Whether the failure concerns the whole document rather than one page.
    pub fn is_document_level(&self) -> (r: bool)
        ensures
            r <==> (self is Render || self is Io),
    {
        match self {
            Error::Render(_) | Error::Io(_) => true,
            _ => false,
        }
    }
}

} // verus!
