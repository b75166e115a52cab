//! Why an event could not be turned into a request.

use vstd::prelude::*;

verus! {

#[derive(Clone, Copy, Debug, PartialEq, Eq, Structural)]
pub enum PayloadError {
    /// The `region` setting is absent.
    MissingRegion,
    /// The `api_key` setting is absent.
    MissingApiKey,
    /// The event does not carry page data.
    MissingPageData,
    /// The event does not carry track data.
    MissingTrackData,
    /// The event does not carry user data.
    MissingUserData,
    /// A track event with an empty name.
    EmptyTrackName,
    /// An event name that is empty.
    EmptyEventName,
    /// The visitor's identifier is empty.
    EmptyDistinctId,
    /// The page URL does not parse, or names no host.
    InvalidPageUrl,
}

pub open spec fn error_message(e: PayloadError) -> Seq<char> {
    match e {
        PayloadError::MissingRegion => "Missing Region setting"@,
        PayloadError::MissingApiKey => "Missing api_key setting"@,
        PayloadError::MissingPageData => "Missing page data"@,
        PayloadError::MissingTrackData => "Missing track data"@,
        PayloadError::MissingUserData => "Missing user data"@,
        PayloadError::EmptyTrackName => "Track name is not set"@,
        PayloadError::EmptyEventName => "Event name is not set"@,
        PayloadError::EmptyDistinctId => "Visitor id is not set"@,
        PayloadError::InvalidPageUrl => "Invalid page url"@,
    }
}

impl PayloadError {
    /// The message handed to the host.
    pub fn message(&self) -> (r: String)
        ensures
            r@ == error_message(*self),
    {
        match self {
            PayloadError::MissingRegion => String::from_str("Missing Region setting"),
            PayloadError::MissingApiKey => String::from_str("Missing api_key setting"),
            PayloadError::MissingPageData => String::from_str("Missing page data"),
            PayloadError::MissingTrackData => String::from_str("Missing track data"),
            PayloadError::MissingUserData => String::from_str("Missing user data"),
            PayloadError::EmptyTrackName => String::from_str("Track name is not set"),
            PayloadError::EmptyEventName => String::from_str("Event name is not set"),
            PayloadError::EmptyDistinctId => String::from_str("Visitor id is not set"),
            PayloadError::InvalidPageUrl => String::from_str("Invalid page url"),
        }
    }
}

} // verus!
