//! Settings, and the provider event with its derived browser and location
//! fields.

use vstd::prelude::*;

use crate::error::PayloadError;
use crate::event::{Client, Event};
use crate::number::{parse_i64, parse_i64_spec};
use crate::props::{bag_view, last_value, push_text, text_entry, PropValue, PropView};
use crate::text::{
    after_first, before_first, contains_char, non_empty, opt_text, prefix_before,
    split_once_char, to_option,
};

verus! {

/// The two settings every request needs.
pub struct Settings {
    pub region: String,
    pub api_key: String,
}

/// The value of the last entry of `dict` whose key is `key`.
fn last_setting(dict: &Vec<(String, String)>, key: &str) -> (r: Option<String>)
    ensures
        opt_text(r) == last_value(bag_view(dict@), key@),
{
    let ghost all = bag_view(dict@);
    let wanted = String::from_str(key);
    let mut i: usize = dict.len();
    assert(all.take(i as int) =~= all);
    while i > 0
        invariant
            i <= dict@.len(),
            all == bag_view(dict@),
            wanted@ == key@,
            last_value(all.take(i as int), key@) == last_value(all, key@),
        decreases i,
    {
        let ghost pre = all.take(i as int);
        assert(pre.last() == all[i - 1]);
        assert(all[i - 1] == (dict@[i - 1].0@, dict@[i - 1].1@));
        assert(pre.drop_last() =~= all.take(i - 1));
        if dict[i - 1].0 == wanted {
            return Some(dict[i - 1].1.clone());
        }
        i = i - 1;
    }
    None
}

/// `region` and `api_key` from key-value settings, the last value of each
/// key counting; the first of them that is absent is the error.
pub open spec fn settings_of(dict: Seq<(Seq<char>, Seq<char>)>) -> Result<
    (Seq<char>, Seq<char>),
    PayloadError,
> {
    match last_value(dict, "region"@) {
        None => Err(PayloadError::MissingRegion),
        Some(region) => match last_value(dict, "api_key"@) {
            None => Err(PayloadError::MissingApiKey),
            Some(api_key) => Ok((region, api_key)),
        },
    }
}

impl Settings {
    /// Reads `region` and `api_key` from key-value settings; a key given twice
    /// takes its last value.
    pub fn new(settings_dict: Vec<(String, String)>) -> (r: Result<Settings, PayloadError>)
        ensures
            match r {
                Ok(s) => settings_of(bag_view(settings_dict@)) == Ok::<
                    (Seq<char>, Seq<char>),
                    PayloadError,
                >((s.region@, s.api_key@)),
                Err(e) => settings_of(bag_view(settings_dict@)) == Err::<
                    (Seq<char>, Seq<char>),
                    PayloadError,
                >(e),
            },
    {
        let region = match last_setting(&settings_dict, "region") {
            Some(v) => v,
            None => return Err(PayloadError::MissingRegion),
        };
        let api_key = match last_setting(&settings_dict, "api_key") {
            Some(v) => v,
            None => return Err(PayloadError::MissingApiKey),
        };
        Ok(Settings { region, api_key })
    }
}

/// What upper-casing gives, character by character under Unicode's rules.
pub uninterp spec fn upper_of(s: Seq<char>) -> Seq<char>;

/// Relies on `str::to_uppercase`: its result depends on the characters alone.
#[verifier::external_body]
fn to_upper(s: &str) -> (r: String)
    ensures
        r@ == upper_of(s@),
{
    s.to_uppercase()
}

/// Browser and version from the first `browser;version` entry of a
/// `|`-separated list.
pub open spec fn browser_version_of(list: Seq<char>) -> Option<(Seq<char>, Seq<char>)> {
    let first = before_first(list, '|');
    if contains_char(first, ';') {
        Some((before_first(first, ';'), after_first(first, ';')))
    } else {
        None
    }
}

/// Splits the first entry of a `|`-separated list at its first `;`.
pub fn first_browser_version(input: &str) -> (r: Option<(String, String)>)
    ensures
        match r {
            Some(p) => browser_version_of(input@) == Some((p.0@, p.1@)),
            None => browser_version_of(input@) is None,
        },
{
    let first = prefix_before(input, '|');
    split_once_char(first.as_str(), ';')
}

/// The language prefix of a locale: what comes before its first `-`, or
/// nothing when it has none.
pub open spec fn language_prefix_of(locale: Seq<char>) -> Seq<char> {
    if contains_char(locale, '-') {
        before_first(locale, '-')
    } else {
        Seq::empty()
    }
}

/// The language of a locale: the upper-cased segment after its first `-`, or
/// the whole locale when it has none.
pub open spec fn language_of(locale: Seq<char>) -> Seq<char> {
    if contains_char(locale, '-') {
        upper_of(before_first(after_first(locale, '-'), '-'))
    } else {
        locale
    }
}

/// Splits a locale into its language prefix and its language.
pub fn split_locale(locale: &str) -> (r: (String, String))
    ensures
        r.0@ == language_prefix_of(locale@),
        r.1@ == language_of(locale@),
{
    match split_once_char(locale, '-') {
        Some((prefix, rest)) => {
            let region = prefix_before(rest.as_str(), '-');
            (prefix, to_upper(region.as_str()))
        },
        None => (String::new(), locale.to_owned()),
    }
}

/// A screen dimension: kept when strictly positive, zero otherwise.
pub open spec fn dimension(v: i32) -> int {
    if v > 0 {
        v as int
    } else {
        0
    }
}

/// Fields derived from what is known of the visitor's browser and location.
pub struct PostHogData {
    pub browser: String,
    pub browser_language: String,
    pub browser_language_prefix: String,
    pub browser_version: i64,
    pub screen_height: i64,
    pub screen_width: i64,
    pub viewport_height: i64,
    pub viewport_width: i64,
    pub ip: Option<String>,
    pub os: Option<String>,
    pub os_version: Option<String>,
    pub geoip_continent_name: Option<String>,
    pub geoip_country_code: Option<String>,
    pub geoip_country_name: Option<String>,
    pub geoip_city_name: Option<String>,
    pub geoip_subdivision_1_name: Option<String>,
    pub geoip_time_zone: Option<String>,
    pub raw_user_agent: Option<String>,
}

/// `d` holds what `c` gives: browser and version from the version list (an
/// unreadable version counts as zero), language from the locale, positive
/// screen dimensions for both screen and viewport, and each other text field
/// when it is not empty.
pub open spec fn derived_from(d: PostHogData, c: Client) -> bool {
    &&& match browser_version_of(c.user_agent_version_list@) {
        Some((b, v)) => d.browser@ == b && d.browser_version as int == match parse_i64_spec(v) {
            Some(n) => n,
            None => 0,
        },
        None => d.browser@ == Seq::<char>::empty() && d.browser_version == 0,
    }
    &&& d.browser_language_prefix@ == language_prefix_of(c.locale@)
    &&& d.browser_language@ == language_of(c.locale@)
    &&& d.screen_width as int == dimension(c.screen_width)
    &&& d.viewport_width as int == dimension(c.screen_width)
    &&& d.screen_height as int == dimension(c.screen_height)
    &&& d.viewport_height as int == dimension(c.screen_height)
    &&& opt_text(d.ip) == non_empty(c.ip@)
    &&& opt_text(d.os) == non_empty(c.os_name@)
    &&& opt_text(d.os_version) == non_empty(c.os_version@)
    &&& opt_text(d.geoip_continent_name) == non_empty(c.continent@)
    &&& opt_text(d.geoip_country_code) == non_empty(c.country_code@)
    &&& opt_text(d.geoip_country_name) == non_empty(c.country_name@)
    &&& opt_text(d.geoip_city_name) == non_empty(c.city@)
    &&& opt_text(d.geoip_subdivision_1_name) == non_empty(c.region@)
    &&& opt_text(d.geoip_time_zone) == non_empty(c.timezone@)
    &&& opt_text(d.raw_user_agent) == non_empty(c.user_agent@)
}

impl PostHogData {
    /// Derives the browser and location fields from `client`.
    pub fn from_client(client: &Client) -> (r: PostHogData)
        ensures
            derived_from(r, *client),
    {
        let (browser, browser_version) = match first_browser_version(
            client.user_agent_version_list.as_str(),
        ) {
            Some((b, v)) => {
                let n = match parse_i64(v.as_str()) {
                    Some(n) => n,
                    None => 0,
                };
                (b, n)
            },
            None => (String::new(), 0),
        };
        let (prefix, language) = split_locale(client.locale.as_str());
        let width: i64 = if client.screen_width > 0 {
            client.screen_width as i64
        } else {
            0
        };
        let height: i64 = if client.screen_height > 0 {
            client.screen_height as i64
        } else {
            0
        };
        PostHogData {
            browser,
            browser_language: language,
            browser_language_prefix: prefix,
            browser_version,
            screen_height: height,
            screen_width: width,
            viewport_height: height,
            viewport_width: width,
            ip: to_option(client.ip.as_str()),
            os: to_option(client.os_name.as_str()),
            os_version: to_option(client.os_version.as_str()),
            geoip_continent_name: to_option(client.continent.as_str()),
            geoip_country_code: to_option(client.country_code.as_str()),
            geoip_country_name: to_option(client.country_name.as_str()),
            geoip_city_name: to_option(client.city.as_str()),
            geoip_subdivision_1_name: to_option(client.region.as_str()),
            geoip_time_zone: to_option(client.timezone.as_str()),
            raw_user_agent: to_option(client.user_agent.as_str()),
        }
    }
}

pub open spec fn number_entry(k: Seq<char>, n: int) -> (Seq<char>, PropView) {
    (k, PropView::Number(n))
}

/// A text entry when there is a value, nothing otherwise.
pub open spec fn opt_entry(k: Seq<char>, o: Option<Seq<char>>) -> Seq<(Seq<char>, PropView)> {
    match o {
        Some(v) => seq![text_entry(k, v)],
        None => Seq::empty(),
    }
}

/// The browser, language, version and screen entries of derived fields.
pub open spec fn browser_entries(d: PostHogData) -> Seq<(Seq<char>, PropView)> {
    seq![
        text_entry("$browser"@, d.browser@),
        text_entry("$browser_language"@, d.browser_language@),
        text_entry("$browser_language_prefix"@, d.browser_language_prefix@),
        number_entry("$browser_version"@, d.browser_version as int),
        number_entry("$screen_height"@, d.screen_height as int),
        number_entry("$screen_width"@, d.screen_width as int),
        number_entry("$viewport_height"@, d.viewport_height as int),
        number_entry("$viewport_width"@, d.viewport_width as int),
    ]
}

/// The address and system entries of derived fields, those present.
pub open spec fn system_entries(d: PostHogData) -> Seq<(Seq<char>, PropView)> {
    opt_entry("$ip"@, opt_text(d.ip)) + opt_entry("$os"@, opt_text(d.os)) + opt_entry(
        "$os_version"@,
        opt_text(d.os_version),
    ) + opt_entry("$raw_user_agent"@, opt_text(d.raw_user_agent))
}

/// The location entries of derived fields, those present.
pub open spec fn geo_entries(d: PostHogData) -> Seq<(Seq<char>, PropView)> {
    opt_entry("$geoip_continent_name"@, opt_text(d.geoip_continent_name)) + opt_entry(
        "$geoip_country_code"@,
        opt_text(d.geoip_country_code),
    ) + opt_entry("$geoip_country_name"@, opt_text(d.geoip_country_name)) + opt_entry(
        "$geoip_city_name"@,
        opt_text(d.geoip_city_name),
    ) + opt_entry("$geoip_subdivision_1_name"@, opt_text(d.geoip_subdivision_1_name))
        + opt_entry("$geoip_time_zone"@, opt_text(d.geoip_time_zone))
}

/// The derived fields as property entries, each key with a `$` in front;
/// absent values are left out.
pub open spec fn data_entries(d: PostHogData) -> Seq<(Seq<char>, PropView)> {
    browser_entries(d) + system_entries(d) + geo_entries(d)
}

/// The browser named by a version list, empty when there is none.
pub open spec fn browser_of(list: Seq<char>) -> Seq<char> {
    match browser_version_of(list) {
        Some((b, _)) => b,
        None => Seq::empty(),
    }
}

/// The browser version of a version list; zero when there is none or it is
/// not an `i64`.
pub open spec fn browser_version_number(list: Seq<char>) -> int {
    match browser_version_of(list) {
        Some((_, v)) => match parse_i64_spec(v) {
            Some(n) => n,
            None => 0,
        },
        None => 0,
    }
}

/// The entries derived from a client.
pub open spec fn client_entries(c: Client) -> Seq<(Seq<char>, PropView)> {
    seq![
        text_entry("$browser"@, browser_of(c.user_agent_version_list@)),
        text_entry("$browser_language"@, language_of(c.locale@)),
        text_entry("$browser_language_prefix"@, language_prefix_of(c.locale@)),
        number_entry("$browser_version"@, browser_version_number(c.user_agent_version_list@)),
        number_entry("$screen_height"@, dimension(c.screen_height)),
        number_entry("$screen_width"@, dimension(c.screen_width)),
        number_entry("$viewport_height"@, dimension(c.screen_height)),
        number_entry("$viewport_width"@, dimension(c.screen_width)),
    ] + (opt_entry("$ip"@, non_empty(c.ip@)) + opt_entry("$os"@, non_empty(c.os_name@))
        + opt_entry("$os_version"@, non_empty(c.os_version@)) + opt_entry(
        "$raw_user_agent"@,
        non_empty(c.user_agent@),
    )) + (opt_entry("$geoip_continent_name"@, non_empty(c.continent@)) + opt_entry(
        "$geoip_country_code"@,
        non_empty(c.country_code@),
    ) + opt_entry("$geoip_country_name"@, non_empty(c.country_name@)) + opt_entry(
        "$geoip_city_name"@,
        non_empty(c.city@),
    ) + opt_entry("$geoip_subdivision_1_name"@, non_empty(c.region@)) + opt_entry(
        "$geoip_time_zone"@,
        non_empty(c.timezone@),
    ))
}

/// Fields derived from a client give the client's entries.
pub proof fn lemma_derived_entries(d: PostHogData, c: Client)
    requires
        derived_from(d, c),
    ensures
        data_entries(d) == client_entries(c),
{
    assert(data_entries(d) =~= client_entries(c));
}

fn push_number(list: &mut Vec<(String, PropValue)>, key: &str, n: i64)
    ensures
        bag_view(final(list)@) == bag_view(old(list)@).push(number_entry(key@, n as int)),
{
    let ghost before = list@;
    list.push((key.to_owned(), PropValue::Number(n)));
    assert(bag_view(list@) =~= bag_view(before).push(number_entry(key@, n as int)));
}

fn push_opt(list: &mut Vec<(String, PropValue)>, key: &str, o: &Option<String>)
    ensures
        bag_view(final(list)@) == bag_view(old(list)@) + opt_entry(key@, opt_text(*o)),
{
    match o {
        Some(v) => push_text(list, key, v),
        None => {},
    }
    assert(bag_view(final(list)@) =~= bag_view(old(list)@) + opt_entry(key@, opt_text(*o)));
}

impl PostHogData {
    fn push_browser(&self, v: &mut Vec<(String, PropValue)>)
        ensures
            bag_view(final(v)@) == bag_view(old(v)@) + browser_entries(*self),
    {
        push_text(v, "$browser", &self.browser);
        push_text(v, "$browser_language", &self.browser_language);
        push_text(v, "$browser_language_prefix", &self.browser_language_prefix);
        push_number(v, "$browser_version", self.browser_version);
        push_number(v, "$screen_height", self.screen_height);
        push_number(v, "$screen_width", self.screen_width);
        push_number(v, "$viewport_height", self.viewport_height);
        push_number(v, "$viewport_width", self.viewport_width);
        assert(bag_view(final(v)@) =~= bag_view(old(v)@) + browser_entries(*self));
    }

    fn push_system(&self, v: &mut Vec<(String, PropValue)>)
        ensures
            bag_view(final(v)@) == bag_view(old(v)@) + system_entries(*self),
    {
        push_opt(v, "$ip", &self.ip);
        push_opt(v, "$os", &self.os);
        push_opt(v, "$os_version", &self.os_version);
        push_opt(v, "$raw_user_agent", &self.raw_user_agent);
        assert(bag_view(final(v)@) =~= bag_view(old(v)@) + system_entries(*self));
    }

    fn push_geo(&self, v: &mut Vec<(String, PropValue)>)
        ensures
            bag_view(final(v)@) == bag_view(old(v)@) + geo_entries(*self),
    {
        push_opt(v, "$geoip_continent_name", &self.geoip_continent_name);
        push_opt(v, "$geoip_country_code", &self.geoip_country_code);
        push_opt(v, "$geoip_country_name", &self.geoip_country_name);
        push_opt(v, "$geoip_city_name", &self.geoip_city_name);
        push_opt(v, "$geoip_subdivision_1_name", &self.geoip_subdivision_1_name);
        push_opt(v, "$geoip_time_zone", &self.geoip_time_zone);
        assert(bag_view(final(v)@) =~= bag_view(old(v)@) + geo_entries(*self));
    }

    /// The derived fields as property entries; absent values are left out.
    pub fn entries(&self) -> (r: Vec<(String, PropValue)>)
        ensures
            bag_view(r@) == data_entries(*self),
    {
        let mut v: Vec<(String, PropValue)> = Vec::new();
        self.push_browser(&mut v);
        self.push_system(&mut v);
        self.push_geo(&mut v);
        assert(bag_view(v@) =~= data_entries(*self));
        v
    }
}

/// An event in the provider's shape, before its fields are merged and
/// serialized.
pub struct PostHogEvent {
    pub event: String,
    pub distinct_id: String,
    pub properties: Vec<(String, PropValue)>,
    pub posthog_data: PostHogData,
}

impl PostHogEvent {
    /// Starts an event named `event_name` for the visitor of `edgee_event`,
    /// with no properties yet and the fields derived from its client.
    pub fn new(edgee_event: &Event, event_name: &str) -> (r: Result<PostHogEvent, PayloadError>)
        ensures
            match r {
                Ok(e) => {
                    &&& e.event@ == event_name@
                    &&& e.distinct_id@ == edgee_event.context.user.edgee_id@
                    &&& e.properties@.len() == 0
                    &&& derived_from(e.posthog_data, edgee_event.context.client)
                    &&& event_name@.len() > 0
                    &&& edgee_event.context.user.edgee_id@.len() > 0
                },
                Err(err) => if event_name@.len() == 0 {
                    err == PayloadError::EmptyEventName
                } else {
                    edgee_event.context.user.edgee_id@.len() == 0 && err
                        == PayloadError::EmptyDistinctId
                },
            },
    {
        if event_name.unicode_len() == 0 {
            return Err(PayloadError::EmptyEventName);
        }
        if edgee_event.context.user.edgee_id.as_str().unicode_len() == 0 {
            return Err(PayloadError::EmptyDistinctId);
        }
        Ok(PostHogEvent {
            event: event_name.to_owned(),
            distinct_id: edgee_event.context.user.edgee_id.clone(),
            properties: Vec::new(),
            posthog_data: PostHogData::from_client(&edgee_event.context.client),
        })
    }
}

} // verus!
