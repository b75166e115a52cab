use posthog_component::component::Component;
use posthog_component::event::{
    Client, Context, Data, EdgeeRequest, Event, EventType, HttpMethod, PageData, TrackData,
    UserData,
};

fn s(v: &str) -> String {
    v.to_string()
}

fn sample_user_data(edgee_id: String) -> UserData {
    UserData {
        user_id: s("123"),
        anonymous_id: s("456"),
        edgee_id,
        properties: vec![(s("prop1"), s("value1")), (s("prop2"), s("10"))],
    }
}

fn sample_client(locale: String) -> Client {
    Client {
        city: s("Paris"),
        ip: s("192.168.0.1"),
        locale,
        timezone: s("CET"),
        user_agent: s("Chrome"),
        user_agent_version_list: s("abc"),
        os_name: s("MacOS"),
        os_version: s("latest"),
        screen_width: 1024,
        screen_height: 768,
        continent: s("Europe"),
        country_code: s("FR"),
        country_name: s("France"),
        region: s("West Europe"),
    }
}

fn sample_page_data() -> PageData {
    PageData {
        name: s("page name"),
        category: s("category"),
        keywords: vec![s("value1"), s("value2")],
        title: s("page title"),
        url: s("https://example.com/full-url?test=1"),
        path: s("/full-path"),
        search: s("?test=1"),
        referrer: s(""),
        properties: vec![
            (s("prop1"), s("value1")),
            (s("prop2"), s("10")),
            (s("currency"), s("USD")),
        ],
    }
}

fn sample_context(edgee_id: String, locale: String) -> Context {
    Context {
        page: sample_page_data(),
        user: sample_user_data(edgee_id),
        client: sample_client(locale),
    }
}

fn event_with(data: Data, event_type: EventType, edgee_id: &str, locale: &str) -> Event {
    Event {
        uuid: s("0a4f3c1e-7d2b-4e59-9f6a-1b2c3d4e5f60"),
        timestamp: 123,
        event_type,
        data,
        context: sample_context(s(edgee_id), s(locale)),
    }
}

fn sample_page_event(edgee_id: String, locale: String) -> Event {
    event_with(Data::Page(sample_page_data()), EventType::Page, &edgee_id, &locale)
}

fn track_event(name: &str, properties: Vec<(String, String)>) -> Event {
    event_with(
        Data::Track(TrackData { name: s(name), properties }),
        EventType::Track,
        "abc",
        "fr",
    )
}

fn user_event() -> Event {
    event_with(Data::User(sample_user_data(s("abc"))), EventType::User, "abc", "fr")
}

fn settings() -> Vec<(String, String)> {
    vec![(s("region"), s("eu")), (s("api_key"), s("key"))]
}

fn body_of(req: &EdgeeRequest) -> serde_json::Map<String, serde_json::Value> {
    let v: serde_json::Value = serde_json::from_str(&req.body).unwrap();
    v.as_object().unwrap().clone()
}

fn text(v: &serde_json::Value) -> String {
    v.as_str().unwrap().to_string()
}

#[test]
fn page_works_fine() {
    let event = sample_page_event(s("abc"), s("fr"));
    let settings = vec![(s("region"), s("eu")), (s("api_key"), s("key"))];
    let result = Component::page(event, settings);

    assert_eq!(result.is_err(), false);
    let edgee_request = result.unwrap();
    assert_eq!(edgee_request.method, HttpMethod::Post);
    assert_eq!(edgee_request.body.is_empty(), false);
    assert_eq!(
        edgee_request.url.starts_with("https://eu.i.posthog.com/i/v0/e/"),
        true
    );
}

#[test]
fn page_request_descriptor() {
    let req = Component::page(sample_page_event(s("abc"), s("fr-fr")), settings()).unwrap();
    assert_eq!(req.url, "https://eu.i.posthog.com/i/v0/e/");
    assert_eq!(req.headers, vec![(s("content-type"), s("application/json"))]);
    assert!(req.forward_client_headers);
}

#[test]
fn page_body_round_trip() {
    let req = Component::page(sample_page_event(s("abc"), s("fr-fr")), settings()).unwrap();
    let body = body_of(&req);
    let mut keys: Vec<&String> = body.keys().collect();
    keys.sort();
    assert_eq!(keys, vec!["api_key", "distinct_id", "event", "properties"]);
    assert_eq!(text(&body["api_key"]), "key");
    assert_eq!(text(&body["event"]), "$pageview");
    assert_eq!(text(&body["distinct_id"]), "abc");
    let props = body["properties"].as_object().unwrap();
    assert_eq!(text(&props["$current_url"]), "https://example.com/full-url?test=1");
    assert_eq!(text(&props["$session_entry_url"]), "https://example.com/full-url?test=1");
    assert_eq!(text(&props["$host"]), "example.com");
    assert_eq!(text(&props["$pathname"]), "/full-path");
    assert_eq!(text(&props["title"]), "page title");
    assert_eq!(text(&props["$browser_language_prefix"]), "fr");
    assert_eq!(text(&props["$browser_language"]), "FR");
    assert_eq!(props["$screen_width"].as_i64(), Some(1024));
    assert_eq!(props["$viewport_width"].as_i64(), Some(1024));
    assert_eq!(props["$screen_height"].as_i64(), Some(768));
    assert_eq!(props["$viewport_height"].as_i64(), Some(768));
    assert_eq!(text(&props["$geoip_city_name"]), "Paris");
    assert_eq!(text(&props["$raw_user_agent"]), "Chrome");
    assert!(!props.contains_key("$session_entry_referrer"));
}

#[test]
fn page_url_serialization_is_normalized() {
    let mut page = sample_page_data();
    page.url = s("HTTPS://Example.COM");
    let mut event = event_with(Data::Page(page), EventType::Page, "abc", "fr");
    event.context.page.url = s("https://example.com");
    let req = Component::page(event, settings()).unwrap();
    let props = body_of(&req)["properties"].as_object().unwrap().clone();
    assert_eq!(text(&props["$current_url"]), "https://example.com/");
    assert_eq!(text(&props["$host"]), "example.com");
}

#[test]
fn page_event_values_win_over_context_page() {
    let mut page = sample_page_data();
    page.title = s("own title");
    let req = Component::page(
        event_with(Data::Page(page), EventType::Page, "abc", "fr"),
        settings(),
    )
    .unwrap();
    let props = body_of(&req)["properties"].as_object().unwrap().clone();
    assert_eq!(text(&props["title"]), "own title");
}

#[test]
fn page_with_referrer_has_referrer_fields() {
    let mut page = sample_page_data();
    page.referrer = s("https://www.google.com/search?q=x");
    let req = Component::page(
        event_with(Data::Page(page), EventType::Page, "abc", "fr"),
        settings(),
    )
    .unwrap();
    let props = body_of(&req)["properties"].as_object().unwrap().clone();
    assert_eq!(
        text(&props["$session_entry_referrer"]),
        "https://www.google.com/search?q=x"
    );
    assert_eq!(text(&props["$referring_domain"]), "www.google.com");
    assert_eq!(text(&props["$session_entry_referring_domain"]), "www.google.com");
}

#[test]
fn page_with_bad_referrer_has_no_referrer_fields() {
    let mut page = sample_page_data();
    page.referrer = s("not a url");
    let req = Component::page(
        event_with(Data::Page(page), EventType::Page, "abc", "fr"),
        settings(),
    )
    .unwrap();
    let props = body_of(&req)["properties"].as_object().unwrap().clone();
    assert!(!props.contains_key("$session_entry_referrer"));
    assert!(!props.contains_key("$referring_domain"));
}

#[test]
fn page_with_bad_url_fails() {
    let mut page = sample_page_data();
    page.url = s("not a url");
    let r = Component::page(event_with(Data::Page(page), EventType::Page, "abc", "fr"), settings());
    assert_eq!(r.err(), Some(s("Invalid page url")));
}

#[test]
fn page_missing_region_fails() {
    let r = Component::page(
        sample_page_event(s("abc"), s("fr")),
        vec![(s("api_key"), s("key"))],
    );
    assert_eq!(r.err(), Some(s("Missing Region setting")));
}

#[test]
fn page_missing_api_key_fails() {
    let r = Component::page(sample_page_event(s("abc"), s("fr")), vec![(s("region"), s("eu"))]);
    assert_eq!(r.err(), Some(s("Missing api_key setting")));
}

#[test]
fn page_empty_visitor_id_fails() {
    let r = Component::page(sample_page_event(s(""), s("fr")), settings());
    assert_eq!(r.err(), Some(s("Visitor id is not set")));
}

#[test]
fn page_with_track_data_fails() {
    let r = Component::page(track_event("click", vec![]), settings());
    assert_eq!(r.err(), Some(s("Missing page data")));
}

#[test]
fn track_with_page_data_fails() {
    let r = Component::track(sample_page_event(s("abc"), s("fr")), settings());
    assert_eq!(r.err(), Some(s("Missing track data")));
}

#[test]
fn user_with_track_data_fails() {
    let r = Component::user(track_event("click", vec![]), settings());
    assert_eq!(r.err(), Some(s("Missing user data")));
}

#[test]
fn track_empty_name_fails() {
    let r = Component::track(track_event("", vec![(s("a"), s("b"))]), settings());
    assert_eq!(r.err(), Some(s("Track name is not set")));
}

#[test]
fn track_empty_name_fails_before_settings() {
    let r = Component::track(track_event("", vec![]), vec![]);
    assert_eq!(r.err(), Some(s("Track name is not set")));
}

#[test]
fn track_builds_named_event() {
    let req = Component::track(
        track_event(
            "signup",
            vec![(s("plan"), s("pro")), (s("$browser"), s("mine")), (s("title"), s("t"))],
        ),
        settings(),
    )
    .unwrap();
    let body = body_of(&req);
    assert_eq!(text(&body["event"]), "signup");
    let props = body["properties"].as_object().unwrap();
    assert_eq!(text(&props["plan"]), "pro");
    // event properties override derived fields
    assert_eq!(text(&props["$browser"]), "mine");
    // page fields are merged after the track properties
    assert_eq!(text(&props["title"]), "page title");
    assert_eq!(text(&props["$pathname"]), "/full-path");
}

#[test]
fn user_builds_identify() {
    let req = Component::user(user_event(), settings()).unwrap();
    let body = body_of(&req);
    assert_eq!(text(&body["event"]), "$identify");
    assert_eq!(text(&body["distinct_id"]), "abc");
    let props = body["properties"].as_object().unwrap();
    let set = props["$set"].as_object().unwrap();
    assert_eq!(text(&set["prop1"]), "value1");
    assert_eq!(text(&set["prop2"]), "10");
    assert_eq!(set.len(), 2);
    assert_eq!(text(&props["$current_url"]), "https://example.com/full-url?test=1");
}

#[test]
fn escaped_text_survives_round_trip() {
    let mut page = sample_page_data();
    page.title = s("say \"hi\"\n\\ é");
    let req = Component::page(
        event_with(Data::Page(page), EventType::Page, "abc", "fr"),
        settings(),
    )
    .unwrap();
    assert!(req.body.contains("say \\\"hi\\\"\\n\\\\"));
    let props = body_of(&req)["properties"].as_object().unwrap().clone();
    assert_eq!(text(&props["title"]), "say \"hi\"\n\\ é");
}

#[test]
fn track_and_user_missing_settings_fail() {
    let r = Component::track(track_event("click", vec![]), vec![(s("region"), s("eu"))]);
    assert_eq!(r.err(), Some(s("Missing api_key setting")));
    let r = Component::user(user_event(), vec![(s("api_key"), s("key"))]);
    assert_eq!(r.err(), Some(s("Missing Region setting")));
}

#[test]
fn user_properties_override_page_set_key() {
    let mut event = user_event();
    if let Data::User(u) = &mut event.data {
        u.properties.push((s("prop1"), s("again")));
    }
    let req = Component::user(event, settings()).unwrap();
    let props = body_of(&req)["properties"].as_object().unwrap().clone();
    let set = props["$set"].as_object().unwrap();
    assert_eq!(text(&set["prop1"]), "again");
    assert_eq!(set.len(), 2);
}
