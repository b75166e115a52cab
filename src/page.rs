//! Properties derived from page data: the page URL and host, path, title and
//! referrer.

use vstd::prelude::*;

use crate::error::PayloadError;
use crate::event::PageData;
use crate::props::{bag_view, push_text, text_entry, PropValue, PropView};
use crate::text::opt_text;

verus! {

/// Whether the text parses as an absolute URL.
pub uninterp spec fn url_parses(s: Seq<char>) -> bool;

/// The serialization of the URL that the text parses to.
pub uninterp spec fn url_serialization(s: Seq<char>) -> Seq<char>;

/// The host of the URL that the text parses to, if it has one.
pub uninterp spec fn url_host(s: Seq<char>) -> Option<Seq<char>>;

/// The domain of the URL that the text parses to, if its host is a domain.
pub uninterp spec fn url_domain(s: Seq<char>) -> Option<Seq<char>>;

/// What a parsed URL offers: its serialization, its host and its domain.
pub struct UrlParts {
    pub serialization: String,
    pub host: Option<String>,
    pub domain: Option<String>,
}

/// Relies on `url::Url::parse` (whether the text is an absolute URL) and, on
/// the parsed URL, on `Url::as_str`, `Url::host_str` and `Url::domain`.
#[verifier::external_body]
fn parse_url(s: &str) -> (r: Option<UrlParts>)
    ensures
        r is Some <==> url_parses(s@),
        r matches Some(p) ==> p.serialization@ == url_serialization(s@) && opt_text(p.host)
            == url_host(s@) && opt_text(p.domain) == url_domain(s@),
{
    match url::Url::parse(s) {
        Ok(u) => Some(
            UrlParts {
                serialization: u.as_str().to_string(),
                host: u.host_str().map(|h| h.to_string()),
                domain: u.domain().map(|d| d.to_string()),
            },
        ),
        Err(_) => None,
    }
}

/// Referrer entries: its serialization, and its domain twice when it has one.
pub open spec fn referrer_entries(referrer: Option<(Seq<char>, Option<Seq<char>>)>) -> Seq<
    (Seq<char>, PropView),
> {
    match referrer {
        None => Seq::empty(),
        Some((text, domain)) => seq![text_entry("$session_entry_referrer"@, text)] + match domain {
            Some(d) => seq![
                text_entry("$session_entry_referring_domain"@, d),
                text_entry("$referring_domain"@, d),
            ],
            None => Seq::empty(),
        },
    }
}

/// The page entries, in order: URL twice, host twice, path twice, title, then
/// the referrer's.
pub open spec fn page_entries_of(
    url: Seq<char>,
    host: Seq<char>,
    path: Seq<char>,
    title: Seq<char>,
    referrer: Option<(Seq<char>, Option<Seq<char>>)>,
) -> Seq<(Seq<char>, PropView)> {
    seq![
        text_entry("$session_entry_url"@, url),
        text_entry("$current_url"@, url),
        text_entry("$session_entry_host"@, host),
        text_entry("$host"@, host),
        text_entry("$session_entry_pathname"@, path),
        text_entry("$pathname"@, path),
        text_entry("title"@, title),
    ] + referrer_entries(referrer)
}

pub open spec fn parts_referrer(referrer: Option<UrlParts>) -> Option<
    (Seq<char>, Option<Seq<char>>),
> {
    match referrer {
        Some(p) => Some((p.serialization@, opt_text(p.domain))),
        None => None,
    }
}

/// The referrer as parsed: absent when empty or when it does not parse.
pub open spec fn parsed_referrer(referrer: Seq<char>) -> Option<(Seq<char>, Option<Seq<char>>)> {
    if referrer.len() == 0 || !url_parses(referrer) {
        None
    } else {
        Some((url_serialization(referrer), url_domain(referrer)))
    }
}

/// Whether the page's URL parses and names a host.
pub open spec fn page_url_ok(page: PageData) -> bool {
    url_parses(page.url@) && url_host(page.url@) is Some
}

/// The entries that `page` gives once its URL and referrer are parsed.
pub open spec fn page_entries_spec(page: PageData) -> Seq<(Seq<char>, PropView)> {
    page_entries_of(
        url_serialization(page.url@),
        url_host(page.url@)->0,
        page.path@,
        page.title@,
        parsed_referrer(page.referrer@),
    )
}

/// The page entries, from the page's parsed URL and referrer (`None` where the
/// referrer is empty or did not parse). Fails when the URL did not parse or
/// has no host.
pub fn page_entries(page: &PageData, url: Option<UrlParts>, referrer: Option<UrlParts>) -> (r:
    Result<Vec<(String, PropValue)>, PayloadError>)
    ensures
        match url {
            Some(u) => match u.host {
                Some(h) => r matches Ok(v) && bag_view(v@) == page_entries_of(
                    u.serialization@,
                    h@,
                    page.path@,
                    page.title@,
                    parts_referrer(referrer),
                ),
                None => r == Err::<Vec<(String, PropValue)>, PayloadError>(
                    PayloadError::InvalidPageUrl,
                ),
            },
            None => r == Err::<Vec<(String, PropValue)>, PayloadError>(
                PayloadError::InvalidPageUrl,
            ),
        },
{
    let u = match url {
        Some(u) => u,
        None => return Err(PayloadError::InvalidPageUrl),
    };
    let host = match u.host {
        Some(h) => h,
        None => return Err(PayloadError::InvalidPageUrl),
    };
    let mut v: Vec<(String, PropValue)> = Vec::new();
    push_text(&mut v, "$session_entry_url", &u.serialization);
    push_text(&mut v, "$current_url", &u.serialization);
    push_text(&mut v, "$session_entry_host", &host);
    push_text(&mut v, "$host", &host);
    push_text(&mut v, "$session_entry_pathname", &page.path);
    push_text(&mut v, "$pathname", &page.path);
    push_text(&mut v, "title", &page.title);
    match referrer {
        Some(p) => {
            push_text(&mut v, "$session_entry_referrer", &p.serialization);
            match p.domain {
                Some(d) => {
                    push_text(&mut v, "$session_entry_referring_domain", &d);
                    push_text(&mut v, "$referring_domain", &d);
                },
                None => {},
            }
        },
        None => {},
    }
    assert(bag_view(v@) =~= page_entries_of(
        u.serialization@,
        host@,
        page.path@,
        page.title@,
        parts_referrer(referrer),
    ));
    Ok(v)
}

/// Parses the page's URL and referrer and gives the page entries. An empty
/// referrer, or one that does not parse, gives no referrer entries.
pub fn extract_page_data(page: &PageData) -> (r: Result<Vec<(String, PropValue)>, PayloadError>)
    ensures
        match r {
            Ok(v) => page_url_ok(*page) && bag_view(v@) == page_entries_spec(*page),
            Err(e) => !page_url_ok(*page) && e == PayloadError::InvalidPageUrl,
        },
{
    let url = parse_url(page.url.as_str());
    let referrer = if page.referrer.as_str().unicode_len() == 0 {
        None
    } else {
        parse_url(page.referrer.as_str())
    };
    assert(parts_referrer(referrer) == parsed_referrer(page.referrer@));
    page_entries(page, url, referrer)
}

} // verus!
