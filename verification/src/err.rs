//! Errors.

use vstd::prelude::*;

verus! {

/// What went wrong, by kind. Each variant carries the detail that its
/// message ends with.
#[derive(Debug, Clone, PartialEq, Eq)]
pub enum I3SError {
    /// A payload that should be gzip data is not.
    DecompressionError(String),
    /// A payload does not parse as the document it should be.
    JsonParseError(String),
    /// The backend holds nothing under a path.
    ResourceNotFound(String),
    /// An address names neither an archive nor a service.
    InvalidUri(String),
    /// Reading from the backend failed on the way.
    Transport(String),
    /// The scene cannot serve what was asked for.
    InvalidRequest(String),
    /// Anything else.
    Other(String),
}

/// An error as contracts speak of it: the kind, with the detail as characters.
pub enum ErrorView {
    DecompressionError(Seq<char>),
    JsonParseError(Seq<char>),
    ResourceNotFound(Seq<char>),
    InvalidUri(Seq<char>),
    Transport(Seq<char>),
    InvalidRequest(Seq<char>),
    Other(Seq<char>),
}

impl View for I3SError {
    type V = ErrorView;

    open spec fn view(&self) -> ErrorView {
        match *self {
            I3SError::DecompressionError(detail) => ErrorView::DecompressionError(detail@),
            I3SError::JsonParseError(detail) => ErrorView::JsonParseError(detail@),
            I3SError::ResourceNotFound(detail) => ErrorView::ResourceNotFound(detail@),
            I3SError::InvalidUri(detail) => ErrorView::InvalidUri(detail@),
            I3SError::Transport(detail) => ErrorView::Transport(detail@),
            I3SError::InvalidRequest(detail) => ErrorView::InvalidRequest(detail@),
            I3SError::Other(detail) => ErrorView::Other(detail@),
        }
    }
}

impl ErrorView {
    /// The detail carried by the error.
    pub open spec fn detail(self) -> Seq<char> {
        match self {
            ErrorView::DecompressionError(detail) => detail,
            ErrorView::JsonParseError(detail) => detail,
            ErrorView::ResourceNotFound(detail) => detail,
            ErrorView::InvalidUri(detail) => detail,
            ErrorView::Transport(detail) => detail,
            ErrorView::InvalidRequest(detail) => detail,
            ErrorView::Other(detail) => detail,
        }
    }

    /// What the message of each kind begins with.
    pub open spec fn heading(self) -> Seq<char> {
        match self {
            ErrorView::DecompressionError(_) => "Failed to decompress data: "@,
            ErrorView::JsonParseError(_) => "Failed to parse JSON: "@,
            ErrorView::ResourceNotFound(_) => "Resource not found: "@,
            ErrorView::InvalidUri(_) => "Invalid URI: "@,
            ErrorView::Transport(_) => "Transport failure: "@,
            ErrorView::InvalidRequest(_) => "Invalid request: "@,
            ErrorView::Other(_) => "Other error: "@,
        }
    }

    /// The whole message: the heading of the kind, then the detail.
    pub open spec fn message(self) -> Seq<char> {
        self.heading() + self.detail()
    }
}

impl I3SError {
    /// An invalid-request error with the given detail.
    pub fn invalid_request(detail: &str) -> (e: I3SError)
        ensures
            e@ == ErrorView::InvalidRequest(detail@),
    {
        I3SError::InvalidRequest(String::from_str(detail))
    }

    /// The message a user is shown.
    pub fn message(&self) -> (text: String)
        ensures
            text@ == self@.message(),
    {
        match self {
            I3SError::DecompressionError(detail) => String::from_str(
                "Failed to decompress data: ",
            ).concat(detail.as_str()),
            I3SError::JsonParseError(detail) => String::from_str("Failed to parse JSON: ").concat(
                detail.as_str(),
            ),
            I3SError::ResourceNotFound(detail) => String::from_str("Resource not found: ").concat(
                detail.as_str(),
            ),
            I3SError::InvalidUri(detail) => String::from_str("Invalid URI: ").concat(
                detail.as_str(),
            ),
            I3SError::Transport(detail) => String::from_str("Transport failure: ").concat(
                detail.as_str(),
            ),
            I3SError::InvalidRequest(detail) => String::from_str("Invalid request: ").concat(
                detail.as_str(),
            ),
            I3SError::Other(detail) => String::from_str("Other error: ").concat(detail.as_str()),
        }
    }
}

} // verus!
