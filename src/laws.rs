//! Properties that hold of every event and every setting.

use vstd::prelude::*;

use crate::component::{endpoint_url, merged, page_spec, request_for, track_spec, user_spec};
use crate::error::PayloadError;
use crate::event::{Client, Data, EdgeeRequest, Event};
use crate::json::{body_members, json_quoted, object_text};
use crate::posthog_payload::{derived_from, settings_of, PostHogData};
use crate::props::{assoc_extend, key_index, last_value, lemma_extend_lookup, lookup, PropView};

verus! {

/// Without a `region` or an `api_key` setting, settings cannot be resolved
/// and none of the three operations builds a request.
pub proof fn lemma_missing_setting_fails(
    e: Event,
    dict: Seq<(Seq<char>, Seq<char>)>,
    page: Result<EdgeeRequest, PayloadError>,
    track: Result<EdgeeRequest, PayloadError>,
    user: Result<EdgeeRequest, PayloadError>,
)
    requires
        last_value(dict, "region"@) is None || last_value(dict, "api_key"@) is None,
        page_spec(e, dict, page),
        track_spec(e, dict, track),
        user_spec(e, dict, user),
    ensures
        settings_of(dict) is Err,
        page is Err,
        track is Err,
        user is Err,
{
}

/// A custom event with an empty name fails for its name, whatever the
/// settings and the rest of the event.
pub proof fn lemma_empty_track_name(
    e: Event,
    dict: Seq<(Seq<char>, Seq<char>)>,
    r: Result<EdgeeRequest, PayloadError>,
)
    requires
        e.data matches Data::Track(t) && t.name@.len() == 0,
        track_spec(e, dict, r),
    ensures
        r == Err::<EdgeeRequest, PayloadError>(PayloadError::EmptyTrackName),
{
}

/// The URL of a page view's request is the endpoint of the region setting,
/// which it starts with verbatim.
pub proof fn lemma_page_url(
    e: Event,
    dict: Seq<(Seq<char>, Seq<char>)>,
    r: Result<EdgeeRequest, PayloadError>,
)
    requires
        page_spec(e, dict, r),
        r is Ok,
    ensures
        settings_of(dict) is Ok,
        r->Ok_0.url@ == endpoint_url(settings_of(dict)->Ok_0.0),
        r->Ok_0.url@.take(8) == "https://"@,
{
    let region = settings_of(dict)->Ok_0.0;
    assert(endpoint_url(region).take(8) =~= "https://"@.take(8)) by {
        reveal_strlit("https://");
    }
    assert("https://"@.take(8) =~= "https://"@) by {
        reveal_strlit("https://");
    }
}

/// Each operation refuses an event of another kind, and builds no request.
pub proof fn lemma_wrong_kind_fails(
    e: Event,
    dict: Seq<(Seq<char>, Seq<char>)>,
    page: Result<EdgeeRequest, PayloadError>,
    track: Result<EdgeeRequest, PayloadError>,
    user: Result<EdgeeRequest, PayloadError>,
)
    requires
        page_spec(e, dict, page),
        track_spec(e, dict, track),
        user_spec(e, dict, user),
    ensures
        !(e.data is Page) ==> page == Err::<EdgeeRequest, PayloadError>(
            PayloadError::MissingPageData,
        ),
        !(e.data is Track) ==> track == Err::<EdgeeRequest, PayloadError>(
            PayloadError::MissingTrackData,
        ),
        !(e.data is User) ==> user == Err::<EdgeeRequest, PayloadError>(
            PayloadError::MissingUserData,
        ),
{
}

/// A request's body is a JSON object of exactly the members `api_key`,
/// `distinct_id`, `event` and `properties`, and `api_key` holds the key it
/// was built with.
pub proof fn lemma_body_members(
    req: EdgeeRequest,
    region: Seq<char>,
    api_key: Seq<char>,
    event: Seq<char>,
    distinct_id: Seq<char>,
    properties: Seq<(Seq<char>, PropView)>,
)
    requires
        request_for(req, region, api_key, event, distinct_id, properties),
    ensures
        ({
            let ms = body_members(api_key, distinct_id, event, properties);
            &&& req.body@ == object_text(ms)
            &&& ms.map_values(|m: (Seq<char>, Seq<char>)| m.0) == seq![
                "api_key"@,
                "distinct_id"@,
                "event"@,
                "properties"@,
            ]
            &&& ms[0].1 == json_quoted(api_key)
        }),
{
    let ms = body_members(api_key, distinct_id, event, properties);
    assert(ms.map_values(|m: (Seq<char>, Seq<char>)| m.0) =~= seq![
        "api_key"@,
        "distinct_id"@,
        "event"@,
        "properties"@,
    ]);
}

/// A non-positive screen dimension leaves both the screen and the viewport
/// field at zero; a positive one is copied into both.
pub proof fn lemma_screen_dimensions(d: PostHogData, c: Client)
    requires
        derived_from(d, c),
    ensures
        c.screen_width <= 0 ==> d.screen_width == 0 && d.viewport_width == 0,
        c.screen_width > 0 ==> d.screen_width == c.screen_width && d.viewport_width
            == c.screen_width,
        c.screen_height <= 0 ==> d.screen_height == 0 && d.viewport_height == 0,
        c.screen_height > 0 ==> d.screen_height == c.screen_height && d.viewport_height
            == c.screen_height,
{
}

/// In merged properties a key takes the event's value when the event has
/// one (its last), and the derived value otherwise.
pub proof fn lemma_merge_precedence(
    derived: Seq<(Seq<char>, PropView)>,
    properties: Seq<(Seq<char>, PropView)>,
    q: Seq<char>,
)
    ensures
        lookup(merged(derived, properties), q) == match last_value(properties, q) {
            Some(v) => Some(v),
            None => last_value(derived, q),
        },
{
    let empty = Seq::<(Seq<char>, PropView)>::empty();
    assert(key_index(empty, q) == 0);
    assert(lookup(empty, q) is None);
    lemma_extend_lookup(empty, derived);
    lemma_extend_lookup(assoc_extend(empty, derived), properties);
}

} // verus!
