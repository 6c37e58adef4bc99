use vstd::prelude::*;
use vstd::string::StringExecFns;

verus! {

/// What can go wrong while a repository name is read or its tags are fetched.
#[derive(Debug, PartialEq)]
pub enum Error {
    /// no valid tag found
    NoTagFound,
    /// input that can't be interpreted
    MisformedInput,
    /// a value could not be converted; holds the reason
    Converting(String),
    /// invalid repos show a valid json with 0 tags
    NoTagsFound,
    /// a response body could not be decoded; holds the decoder's message
    Serde(String),
    /// a request failed; holds the transport's message
    Reqwest(String),
    /// an event could not be handed to its channel; holds the channel's message
    ChannelSendError(String),
}

/// An error as plain values.
pub enum ErrorView {
    NoTagFound,
    MisformedInput,
    Converting(Seq<char>),
    NoTagsFound,
    Serde(Seq<char>),
    Reqwest(Seq<char>),
    ChannelSendError(Seq<char>),
}

impl View for Error {
    type V = ErrorView;

    open spec fn view(&self) -> ErrorView {
        match *self {
            Error::NoTagFound => ErrorView::NoTagFound,
            Error::MisformedInput => ErrorView::MisformedInput,
            Error::Converting(s) => ErrorView::Converting(s@),
            Error::NoTagsFound => ErrorView::NoTagsFound,
            Error::Serde(s) => ErrorView::Serde(s@),
            Error::Reqwest(s) => ErrorView::Reqwest(s@),
            Error::ChannelSendError(s) => ErrorView::ChannelSendError(s@),
        }
    }
}

impl ErrorView {
    /// The text that is shown for this error.
    pub open spec fn text(self) -> Seq<char> {
        match self {
            ErrorView::NoTagFound => "Expected a tag"@,
            ErrorView::MisformedInput => "Unexpected input"@,
            ErrorView::Converting(s) => "Converting error: "@ + s,
            ErrorView::NoTagsFound => "Given Repo does not exists or has 0 tags."@,
            ErrorView::Serde(s) => "Serde error: "@ + s,
            ErrorView::Reqwest(s) => "reqwest error: "@ + s,
            ErrorView::ChannelSendError(s) => "sending to channel error: "@ + s,
        }
    }
}

impl Error {
    /// Renders the error for display.
    pub fn message(&self) -> (r: String)
        ensures
            r@ == self@.text(),
    {
        match self {
            Error::NoTagFound => String::from_str("Expected a tag"),
            Error::MisformedInput => String::from_str("Unexpected input"),
            Error::Converting(s) => String::from_str("Converting error: ").concat(s.as_str()),
            Error::NoTagsFound => String::from_str("Given Repo does not exists or has 0 tags."),
            Error::Serde(s) => String::from_str("Serde error: ").concat(s.as_str()),
            Error::Reqwest(s) => String::from_str("reqwest error: ").concat(s.as_str()),
            Error::ChannelSendError(s) => String::from_str("sending to channel error: ").concat(
                s.as_str(),
            ),
        }
    }
}

} // verus!
