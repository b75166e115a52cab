//! The normalized event that the host hands in, and the request descriptor
//! handed back.

use vstd::prelude::*;

verus! {

/// Page information: of the page viewed, or of the page an event came from.
pub struct PageData {
    pub name: String,
    pub category: String,
    pub keywords: Vec<String>,
    pub title: String,
    pub url: String,
    pub path: String,
    pub search: String,
    pub referrer: String,
    pub properties: Vec<(String, String)>,
}

/// A custom event: its name and its properties.
pub struct TrackData {
    pub name: String,
    pub properties: Vec<(String, String)>,
}

/// Who the visitor is.
pub struct UserData {
    pub user_id: String,
    pub anonymous_id: String,
    /// A stable identifier of the visitor.
    pub edgee_id: String,
    pub properties: Vec<(String, String)>,
}

/// What an event carries, by kind.
pub enum Data {
    Page(PageData),
    Track(TrackData),
    User(UserData),
}

/// The kinds of event.
#[derive(Clone, Copy, Debug, PartialEq, Eq, Structural)]
pub enum EventType {
    Page,
    Track,
    User,
}

/// What is known of the visitor's browser and location.
pub struct Client {
    pub city: String,
    pub ip: String,
    pub locale: String,
    pub timezone: String,
    pub user_agent: String,
    /// `browser;version` entries separated by `|`.
    pub user_agent_version_list: String,
    pub os_name: String,
    pub os_version: String,
    pub screen_width: i32,
    pub screen_height: i32,
    pub continent: String,
    pub country_code: String,
    pub country_name: String,
    pub region: String,
}

/// The context shared by every kind of event.
pub struct Context {
    pub page: PageData,
    pub user: UserData,
    pub client: Client,
}

pub struct Event {
    pub uuid: String,
    pub timestamp: i64,
    pub event_type: EventType,
    pub data: Data,
    pub context: Context,
}

#[derive(Clone, Copy, Debug, PartialEq, Eq, Structural)]
pub enum HttpMethod {
    Get,
    Put,
    Post,
    Delete,
}

/// An HTTP request for the host to send.
pub struct EdgeeRequest {
    pub method: HttpMethod,
    pub url: String,
    pub headers: Vec<(String, String)>,
    /// Asks the host to add the headers of the visitor's own request.
    pub forward_client_headers: bool,
    pub body: String,
}

} // verus!
