//! The three operations the host calls, one per kind of event, and the
//! request each one builds.

use vstd::prelude::*;

use crate::error::{error_message, PayloadError};
use crate::event::{Data, EdgeeRequest, Event, HttpMethod};
use crate::json::{body_json, body_text};
use crate::page::{extract_page_data, page_entries_spec, page_url_ok};
use crate::posthog_payload::{
    client_entries, data_entries, lemma_derived_entries, settings_of, PostHogEvent, Settings,
};
use crate::props::{
    assoc_extend, assoc_insert, bag_view, extend_entries, insert_entry, PropValue, PropView,
};

verus! {

/// Where events are sent for a region.
pub open spec fn endpoint_url(region: Seq<char>) -> Seq<char> {
    "https://"@ + region + ".i.posthog.com/i/v0/e/"@
}

/// Derived entries first, then the event's properties: a key in both takes
/// the event's value.
pub open spec fn merged(
    derived: Seq<(Seq<char>, PropView)>,
    properties: Seq<(Seq<char>, PropView)>,
) -> Seq<(Seq<char>, PropView)> {
    assoc_extend(assoc_extend(Seq::empty(), derived), properties)
}

/// `req` posts the body built from these values, as JSON, to the region's
/// endpoint, and asks the host to forward the visitor's headers.
pub open spec fn request_for(
    req: EdgeeRequest,
    region: Seq<char>,
    api_key: Seq<char>,
    event: Seq<char>,
    distinct_id: Seq<char>,
    properties: Seq<(Seq<char>, PropView)>,
) -> bool {
    &&& req.method == HttpMethod::Post
    &&& req.url@ == endpoint_url(region)
    &&& bag_view(req.headers@) == seq![("content-type"@, "application/json"@)]
    &&& req.forward_client_headers
    &&& req.body@ == body_text(api_key, distinct_id, event, properties)
}

/// Builds the request for an event: its derived fields and its properties
/// merged, beside the API key, the visitor id and the event name.
pub fn build_edgee_request(settings: Settings, event: PostHogEvent) -> (r: EdgeeRequest)
    ensures
        request_for(
            r,
            settings.region@,
            settings.api_key@,
            event.event@,
            event.distinct_id@,
            merged(data_entries(event.posthog_data), bag_view(event.properties@)),
        ),
{
    let mut headers: Vec<(String, String)> = Vec::new();
    headers.push((String::from_str("content-type"), String::from_str("application/json")));
    assert(bag_view(headers@) =~= seq![("content-type"@, "application/json"@)]);
    let mut properties: Vec<(String, PropValue)> = Vec::new();
    assert(bag_view(properties@) =~= Seq::empty());
    extend_entries(&mut properties, event.posthog_data.entries());
    extend_entries(&mut properties, event.properties);
    let body = body_json(&settings.api_key, &event.distinct_id, &event.event, &properties);
    let mut url = String::from_str("https://");
    url.append(settings.region.as_str());
    url.append(".i.posthog.com/i/v0/e/");
    EdgeeRequest { method: HttpMethod::Post, url, headers, forward_client_headers: true, body }
}

pub open spec fn text_values(s: Seq<(Seq<char>, Seq<char>)>) -> Seq<(Seq<char>, PropView)> {
    s.map_values(|e: (Seq<char>, Seq<char>)| (e.0, PropView::Text(e.1)))
}

/// The request a page event gives, or why it gives none.
pub open spec fn page_spec(
    e: Event,
    dict: Seq<(Seq<char>, Seq<char>)>,
    r: Result<EdgeeRequest, PayloadError>,
) -> bool {
    match e.data {
        Data::Page(p) => match settings_of(dict) {
            Err(err) => r == Err::<EdgeeRequest, PayloadError>(err),
            Ok((region, api_key)) => if e.context.user.edgee_id@.len() == 0 {
                r == Err::<EdgeeRequest, PayloadError>(PayloadError::EmptyDistinctId)
            } else if !page_url_ok(e.context.page) || !page_url_ok(p) {
                r == Err::<EdgeeRequest, PayloadError>(PayloadError::InvalidPageUrl)
            } else {
                r matches Ok(req) && request_for(
                    req,
                    region,
                    api_key,
                    "$pageview"@,
                    e.context.user.edgee_id@,
                    merged(
                        client_entries(e.context.client),
                        merged(page_entries_spec(e.context.page), page_entries_spec(p)),
                    ),
                )
            },
        },
        _ => r == Err::<EdgeeRequest, PayloadError>(PayloadError::MissingPageData),
    }
}

/// The request a track event gives, or why it gives none.
pub open spec fn track_spec(
    e: Event,
    dict: Seq<(Seq<char>, Seq<char>)>,
    r: Result<EdgeeRequest, PayloadError>,
) -> bool {
    match e.data {
        Data::Track(t) => if t.name@.len() == 0 {
            r == Err::<EdgeeRequest, PayloadError>(PayloadError::EmptyTrackName)
        } else {
            match settings_of(dict) {
                Err(err) => r == Err::<EdgeeRequest, PayloadError>(err),
                Ok((region, api_key)) => if e.context.user.edgee_id@.len() == 0 {
                    r == Err::<EdgeeRequest, PayloadError>(PayloadError::EmptyDistinctId)
                } else if !page_url_ok(e.context.page) {
                    r == Err::<EdgeeRequest, PayloadError>(PayloadError::InvalidPageUrl)
                } else {
                    r matches Ok(req) && request_for(
                        req,
                        region,
                        api_key,
                        t.name@,
                        e.context.user.edgee_id@,
                        merged(
                            client_entries(e.context.client),
                            merged(
                                text_values(bag_view(t.properties@)),
                                page_entries_spec(e.context.page),
                            ),
                        ),
                    )
                },
            }
        },
        _ => r == Err::<EdgeeRequest, PayloadError>(PayloadError::MissingTrackData),
    }
}

/// The request a user event gives, or why it gives none.
pub open spec fn user_spec(
    e: Event,
    dict: Seq<(Seq<char>, Seq<char>)>,
    r: Result<EdgeeRequest, PayloadError>,
) -> bool {
    match e.data {
        Data::User(u) => match settings_of(dict) {
            Err(err) => r == Err::<EdgeeRequest, PayloadError>(err),
            Ok((region, api_key)) => if e.context.user.edgee_id@.len() == 0 {
                r == Err::<EdgeeRequest, PayloadError>(PayloadError::EmptyDistinctId)
            } else if !page_url_ok(e.context.page) {
                r == Err::<EdgeeRequest, PayloadError>(PayloadError::InvalidPageUrl)
            } else {
                r matches Ok(req) && request_for(
                    req,
                    region,
                    api_key,
                    "$identify"@,
                    e.context.user.edgee_id@,
                    merged(
                        client_entries(e.context.client),
                        assoc_insert(
                            assoc_extend(Seq::empty(), page_entries_spec(e.context.page)),
                            "$set"@,
                            PropView::Object(assoc_extend(Seq::empty(), bag_view(u.properties@))),
                        ),
                    ),
                )
            },
        },
        _ => r == Err::<EdgeeRequest, PayloadError>(PayloadError::MissingUserData),
    }
}

/// Text properties as text values.
fn text_entries(props: &Vec<(String, String)>) -> (r: Vec<(String, PropValue)>)
    ensures
        bag_view(r@) == text_values(bag_view(props@)),
{
    let mut r: Vec<(String, PropValue)> = Vec::new();
    let n = props.len();
    let mut i: usize = 0;
    while i < n
        invariant
            n == props@.len(),
            i <= n,
            bag_view(r@) == text_values(bag_view(props@)).take(i as int),
        decreases n - i,
    {
        let k = props[i].0.clone();
        let t = props[i].1.clone();
        assert(bag_view(props@)[i as int] == (k@, t@));
        let ghost before = r@;
        let ghost kv = k@;
        let ghost tv = t@;
        r.push((k, PropValue::Text(t)));
        assert(bag_view(r@) =~= bag_view(before).push((kv, PropView::Text(tv))));
        assert(text_values(bag_view(props@)).take(i + 1) =~= text_values(bag_view(props@)).take(
            i as int,
        ).push((kv, PropView::Text(tv))));
        assert(bag_view(r@) =~= text_values(bag_view(props@)).take(i + 1));
        i = i + 1;
    }
    assert(text_values(bag_view(props@)).take(n as int) =~= text_values(bag_view(props@)));
    r
}

/// A copy of a list of text pairs.
fn copy_pairs(props: &Vec<(String, String)>) -> (r: Vec<(String, String)>)
    ensures
        bag_view(r@) == bag_view(props@),
{
    let mut r: Vec<(String, String)> = Vec::new();
    let n = props.len();
    let mut i: usize = 0;
    while i < n
        invariant
            n == props@.len(),
            i <= n,
            bag_view(r@) == bag_view(props@).take(i as int),
        decreases n - i,
    {
        let k = props[i].0.clone();
        let t = props[i].1.clone();
        assert(bag_view(props@)[i as int] == (k@, t@));
        let ghost before = r@;
        let ghost kv = k@;
        let ghost tv = t@;
        r.push((k, t));
        assert(bag_view(r@) =~= bag_view(before).push((kv, tv)));
        assert(bag_view(props@).take(i + 1) =~= bag_view(props@).take(i as int).push((kv, tv)));
        assert(bag_view(r@) =~= bag_view(props@).take(i + 1));
        i = i + 1;
    }
    assert(bag_view(props@).take(n as int) =~= bag_view(props@));
    r
}

/// A page view: the derived fields, then the context's page entries, then
/// the event's own page entries.
pub fn page_request(edgee_event: &Event, settings_dict: Vec<(String, String)>) -> (r: Result<
    EdgeeRequest,
    PayloadError,
>)
    ensures
        page_spec(*edgee_event, bag_view(settings_dict@), r),
{
    let data = match &edgee_event.data {
        Data::Page(p) => p,
        _ => return Err(PayloadError::MissingPageData),
    };
    let settings = Settings::new(settings_dict)?;
    proof {
        reveal_strlit("$pageview");
    }
    let mut event = PostHogEvent::new(edgee_event, "$pageview")?;
    let context_page = extract_page_data(&edgee_event.context.page)?;
    let own_page = extract_page_data(data)?;
    assert(bag_view(event.properties@) =~= Seq::empty());
    extend_entries(&mut event.properties, context_page);
    extend_entries(&mut event.properties, own_page);
    proof {
        lemma_derived_entries(event.posthog_data, edgee_event.context.client);
    }
    Ok(build_edgee_request(settings, event))
}

/// A custom event: the derived fields, then the event's properties as text,
/// then the context's page entries.
pub fn track_request(edgee_event: &Event, settings_dict: Vec<(String, String)>) -> (r: Result<
    EdgeeRequest,
    PayloadError,
>)
    ensures
        track_spec(*edgee_event, bag_view(settings_dict@), r),
{
    let data = match &edgee_event.data {
        Data::Track(t) => t,
        _ => return Err(PayloadError::MissingTrackData),
    };
    if data.name.as_str().unicode_len() == 0 {
        return Err(PayloadError::EmptyTrackName);
    }
    let settings = Settings::new(settings_dict)?;
    let mut event = PostHogEvent::new(edgee_event, data.name.as_str())?;
    let context_page = extract_page_data(&edgee_event.context.page)?;
    assert(bag_view(event.properties@) =~= Seq::empty());
    extend_entries(&mut event.properties, text_entries(&data.properties));
    extend_entries(&mut event.properties, context_page);
    proof {
        lemma_derived_entries(event.posthog_data, edgee_event.context.client);
    }
    Ok(build_edgee_request(settings, event))
}

/// An identify: the derived fields, then the context's page entries, then the
/// user's properties under `$set`.
pub fn user_request(edgee_event: &Event, settings_dict: Vec<(String, String)>) -> (r: Result<
    EdgeeRequest,
    PayloadError,
>)
    ensures
        user_spec(*edgee_event, bag_view(settings_dict@), r),
{
    let data = match &edgee_event.data {
        Data::User(u) => u,
        _ => return Err(PayloadError::MissingUserData),
    };
    let settings = Settings::new(settings_dict)?;
    proof {
        reveal_strlit("$identify");
    }
    let mut event = PostHogEvent::new(edgee_event, "$identify")?;
    let context_page = extract_page_data(&edgee_event.context.page)?;
    assert(bag_view(event.properties@) =~= Seq::empty());
    extend_entries(&mut event.properties, context_page);
    let mut user_set: Vec<(String, String)> = Vec::new();
    assert(bag_view(user_set@) =~= Seq::empty());
    extend_entries(&mut user_set, copy_pairs(&data.properties));
    insert_entry(&mut event.properties, String::from_str("$set"), PropValue::Object(user_set));
    proof {
        lemma_derived_entries(event.posthog_data, edgee_event.context.client);
    }
    Ok(build_edgee_request(settings, event))
}

/// The operations the host calls; errors come back as messages.
pub struct Component;

impl Component {
    /// Builds the request for a page view.
    pub fn page(edgee_event: Event, settings_dict: Vec<(String, String)>) -> (r: Result<
        EdgeeRequest,
        String,
    >)
        ensures
            match r {
                Ok(req) => page_spec(
                    edgee_event,
                    bag_view(settings_dict@),
                    Ok::<EdgeeRequest, PayloadError>(req),
                ),
                Err(m) => exists|e: PayloadError|
                    #[trigger] page_spec(
                        edgee_event,
                        bag_view(settings_dict@),
                        Err::<EdgeeRequest, PayloadError>(e),
                    ) && m@ == error_message(e),
            },
    {
        match page_request(&edgee_event, settings_dict) {
            Ok(req) => Ok(req),
            Err(e) => Err(e.message()),
        }
    }

    /// Builds the request for a custom event.
    pub fn track(edgee_event: Event, settings_dict: Vec<(String, String)>) -> (r: Result<
        EdgeeRequest,
        String,
    >)
        ensures
            match r {
                Ok(req) => track_spec(
                    edgee_event,
                    bag_view(settings_dict@),
                    Ok::<EdgeeRequest, PayloadError>(req),
                ),
                Err(m) => exists|e: PayloadError|
                    #[trigger] track_spec(
                        edgee_event,
                        bag_view(settings_dict@),
                        Err::<EdgeeRequest, PayloadError>(e),
                    ) && m@ == error_message(e),
            },
    {
        match track_request(&edgee_event, settings_dict) {
            Ok(req) => Ok(req),
            Err(e) => Err(e.message()),
        }
    }

    /// Builds the request for an identify.
    pub fn user(edgee_event: Event, settings_dict: Vec<(String, String)>) -> (r: Result<
        EdgeeRequest,
        String,
    >)
        ensures
            match r {
                Ok(req) => user_spec(
                    edgee_event,
                    bag_view(settings_dict@),
                    Ok::<EdgeeRequest, PayloadError>(req),
                ),
                Err(m) => exists|e: PayloadError|
                    #[trigger] user_spec(
                        edgee_event,
                        bag_view(settings_dict@),
                        Err::<EdgeeRequest, PayloadError>(e),
                    ) && m@ == error_message(e),
            },
    {
        match user_request(&edgee_event, settings_dict) {
            Ok(req) => Ok(req),
            Err(e) => Err(e.message()),
        }
    }
}

} // verus!
