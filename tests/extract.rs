use posthog_component::error::PayloadError;
use posthog_component::event::{Client, PageData};
use posthog_component::number::{parse_i64, push_i64};
use posthog_component::page::{extract_page_data, page_entries, UrlParts};
use posthog_component::posthog_payload::{
    first_browser_version, split_locale, PostHogData, Settings,
};
use posthog_component::props::{extend_entries, insert_entry, PropValue};
use posthog_component::text::{find_char, split_once_char, to_option};

fn s(v: &str) -> String {
    v.to_string()
}

fn client(width: i32, height: i32) -> Client {
    Client {
        city: s(""),
        ip: s("10.0.0.1"),
        locale: s("en-us"),
        timezone: s(""),
        user_agent: s(""),
        user_agent_version_list: s("Chrome;116|Safari;17"),
        os_name: s("Linux"),
        os_version: s(""),
        screen_width: width,
        screen_height: height,
        continent: s(""),
        country_code: s(""),
        country_name: s(""),
        region: s(""),
    }
}

fn page(url: &str, referrer: &str) -> PageData {
    PageData {
        name: s(""),
        category: s(""),
        keywords: vec![],
        title: s("T"),
        url: s(url),
        path: s("/p"),
        search: s(""),
        referrer: s(referrer),
        properties: vec![],
    }
}

fn keys(v: &[(String, PropValue)]) -> Vec<String> {
    v.iter().map(|e| e.0.clone()).collect()
}

fn text_of(v: &[(String, PropValue)], key: &str) -> Option<String> {
    v.iter().find(|e| e.0 == key).and_then(|e| match &e.1 {
        PropValue::Text(t) => Some(t.clone()),
        _ => None,
    })
}

#[test]
fn settings_resolve_both_keys() {
    let st = Settings::new(vec![(s("region"), s("us")), (s("api_key"), s("k1"))]).unwrap();
    assert_eq!(st.region, "us");
    assert_eq!(st.api_key, "k1");
}

#[test]
fn settings_last_value_wins() {
    let st = Settings::new(vec![
        (s("region"), s("us")),
        (s("api_key"), s("k1")),
        (s("region"), s("eu")),
    ])
    .unwrap();
    assert_eq!(st.region, "eu");
}

#[test]
fn settings_missing_region() {
    assert_eq!(
        Settings::new(vec![(s("api_key"), s("k"))]).err(),
        Some(PayloadError::MissingRegion)
    );
    assert_eq!(Settings::new(vec![]).err(), Some(PayloadError::MissingRegion));
}

#[test]
fn settings_missing_api_key() {
    assert_eq!(
        Settings::new(vec![(s("region"), s("eu")), (s("API_KEY"), s("k"))]).err(),
        Some(PayloadError::MissingApiKey)
    );
}

#[test]
fn browser_version_takes_first_entry() {
    assert_eq!(
        first_browser_version("Chrome;116|Safari;17"),
        Some((s("Chrome"), s("116")))
    );
}

#[test]
fn browser_version_needs_semicolon() {
    assert_eq!(first_browser_version("abc"), None);
    assert_eq!(first_browser_version("abc|Safari;17"), None);
    assert_eq!(first_browser_version(""), None);
    assert_eq!(first_browser_version("A;1;2"), Some((s("A"), s("1;2"))));
}

#[test]
fn locale_with_dash_splits() {
    assert_eq!(split_locale("fr-FR"), (s("fr"), s("FR")));
    assert_eq!(split_locale("fr-fr"), (s("fr"), s("FR")));
    assert_eq!(split_locale("zh-hant-tw"), (s("zh"), s("HANT")));
}

#[test]
fn locale_without_dash_is_language() {
    assert_eq!(split_locale("fr"), (s(""), s("fr")));
    assert_eq!(split_locale(""), (s(""), s("")));
}

#[test]
fn empty_text_is_absent() {
    assert_eq!(to_option(""), None);
    assert_eq!(to_option("x"), Some(s("x")));
}

#[test]
fn find_and_split_chars() {
    assert_eq!(find_char("a|b", '|'), 1);
    assert_eq!(find_char("ab", '|'), 2);
    assert_eq!(split_once_char("k=v=w", '='), Some((s("k"), s("v=w"))));
    assert_eq!(split_once_char("kv", '='), None);
}

#[test]
fn parse_integers() {
    assert_eq!(parse_i64("116"), Some(116));
    assert_eq!(parse_i64("-5"), Some(-5));
    assert_eq!(parse_i64("+7"), Some(7));
    assert_eq!(parse_i64("007"), Some(7));
    assert_eq!(parse_i64("9223372036854775807"), Some(i64::MAX));
    assert_eq!(parse_i64("-9223372036854775808"), Some(i64::MIN));
}

#[test]
fn parse_integers_rejects() {
    assert_eq!(parse_i64(""), None);
    assert_eq!(parse_i64("-"), None);
    assert_eq!(parse_i64("+"), None);
    assert_eq!(parse_i64("abc"), None);
    assert_eq!(parse_i64("12a"), None);
    assert_eq!(parse_i64("9223372036854775808"), None);
    assert_eq!(parse_i64("-9223372036854775809"), None);
    assert_eq!(parse_i64("99999999999999999999999x"), None);
}

#[test]
fn print_integers() {
    let cases: Vec<(i64, &str)> = vec![
        (0, "0"),
        (7, "7"),
        (1024, "1024"),
        (-12, "-12"),
        (i64::MAX, "9223372036854775807"),
        (i64::MIN, "-9223372036854775808"),
    ];
    for (n, want) in cases {
        let mut out = s("x=");
        push_i64(&mut out, n);
        assert_eq!(out, format!("x={}", want));
    }
}

#[test]
fn derived_fields_from_client() {
    let d = PostHogData::from_client(&client(1024, 768));
    assert_eq!(d.browser, "Chrome");
    assert_eq!(d.browser_version, 116);
    assert_eq!(d.browser_language_prefix, "en");
    assert_eq!(d.browser_language, "US");
    assert_eq!(d.ip, Some(s("10.0.0.1")));
    assert_eq!(d.os, Some(s("Linux")));
    assert_eq!(d.os_version, None);
    assert_eq!(d.geoip_city_name, None);
    assert_eq!(d.raw_user_agent, None);
}

#[test]
fn unreadable_version_is_zero() {
    let mut c = client(1, 1);
    c.user_agent_version_list = s("Edge;beta");
    let d = PostHogData::from_client(&c);
    assert_eq!(d.browser, "Edge");
    assert_eq!(d.browser_version, 0);
}

#[test]
fn positive_screen_is_copied() {
    let d = PostHogData::from_client(&client(1024, 768));
    assert_eq!(
        (d.screen_width, d.viewport_width, d.screen_height, d.viewport_height),
        (1024, 1024, 768, 768)
    );
}

#[test]
fn non_positive_screen_is_zero() {
    let d = PostHogData::from_client(&client(0, -5));
    assert_eq!(
        (d.screen_width, d.viewport_width, d.screen_height, d.viewport_height),
        (0, 0, 0, 0)
    );
}

#[test]
fn entries_leave_out_absent_values() {
    let d = PostHogData::from_client(&client(10, 20));
    let e = d.entries();
    assert_eq!(
        keys(&e),
        vec![
            "$browser",
            "$browser_language",
            "$browser_language_prefix",
            "$browser_version",
            "$screen_height",
            "$screen_width",
            "$viewport_height",
            "$viewport_width",
            "$ip",
            "$os",
        ]
    );
}

#[test]
fn page_entries_from_parts() {
    let url = UrlParts { serialization: s("https://a.test/"), host: Some(s("a.test")), domain: Some(s("a.test")) };
    let referrer = UrlParts { serialization: s("http://10.0.0.1/"), host: Some(s("10.0.0.1")), domain: None };
    let e = page_entries(&page("ignored", ""), Some(url), Some(referrer)).unwrap();
    assert_eq!(
        keys(&e),
        vec![
            "$session_entry_url",
            "$current_url",
            "$session_entry_host",
            "$host",
            "$session_entry_pathname",
            "$pathname",
            "title",
            "$session_entry_referrer",
        ]
    );
    assert_eq!(text_of(&e, "$host"), Some(s("a.test")));
    assert_eq!(text_of(&e, "$session_entry_referrer"), Some(s("http://10.0.0.1/")));
}

#[test]
fn page_entries_need_url_and_host() {
    assert_eq!(
        page_entries(&page("x", ""), None, None).err(),
        Some(PayloadError::InvalidPageUrl)
    );
    let no_host = UrlParts { serialization: s("data:text"), host: None, domain: None };
    assert_eq!(
        page_entries(&page("x", ""), Some(no_host), None).err(),
        Some(PayloadError::InvalidPageUrl)
    );
}

#[test]
fn extract_parses_url_and_referrer() {
    let e = extract_page_data(&page("https://Shop.Example.com/a?b=1", "https://ref.example.org/x")).unwrap();
    assert_eq!(text_of(&e, "$current_url"), Some(s("https://shop.example.com/a?b=1")));
    assert_eq!(text_of(&e, "$host"), Some(s("shop.example.com")));
    assert_eq!(text_of(&e, "$pathname"), Some(s("/p")));
    assert_eq!(text_of(&e, "$referring_domain"), Some(s("ref.example.org")));
}

#[test]
fn extract_ip_referrer_has_no_domain() {
    let e = extract_page_data(&page("https://a.test/", "http://10.0.0.1/x")).unwrap();
    assert_eq!(text_of(&e, "$session_entry_referrer"), Some(s("http://10.0.0.1/x")));
    assert_eq!(text_of(&e, "$referring_domain"), None);
}

#[test]
fn extract_rejects_url_without_host() {
    assert_eq!(
        extract_page_data(&page("mailto:someone@example.com", "")).err(),
        Some(PayloadError::InvalidPageUrl)
    );
    assert_eq!(extract_page_data(&page("", "")).err(), Some(PayloadError::InvalidPageUrl));
}

#[test]
fn insert_replaces_in_place() {
    let mut bag: Vec<(String, String)> = vec![];
    insert_entry(&mut bag, s("a"), s("1"));
    insert_entry(&mut bag, s("b"), s("2"));
    insert_entry(&mut bag, s("a"), s("3"));
    assert_eq!(bag, vec![(s("a"), s("3")), (s("b"), s("2"))]);
}

#[test]
fn extend_later_wins() {
    let mut bag: Vec<(String, String)> = vec![(s("k"), s("derived")), (s("d"), s("x"))];
    extend_entries(&mut bag, vec![(s("k"), s("event")), (s("n"), s("1")), (s("k"), s("last"))]);
    assert_eq!(
        bag,
        vec![(s("k"), s("last")), (s("d"), s("x")), (s("n"), s("1"))]
    );
}

#[test]
fn error_messages() {
    assert_eq!(PayloadError::MissingRegion.message(), "Missing Region setting");
    assert_eq!(PayloadError::MissingApiKey.message(), "Missing api_key setting");
    assert_eq!(PayloadError::EmptyTrackName.message(), "Track name is not set");
    assert_eq!(PayloadError::EmptyEventName.message(), "Event name is not set");
    assert_eq!(PayloadError::MissingPageData.message(), "Missing page data");
}
