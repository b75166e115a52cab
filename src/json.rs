//! JSON text for property bags and for the request body.

use vstd::prelude::*;

use crate::number::{int_text, push_i64};
use crate::props::{bag_view, PropValue, PropView};

verus! {

/// The JSON string literal for a text: quotes and escapes included.
pub uninterp spec fn json_quoted(s: Seq<char>) -> Seq<char>;

/// Relies on `serde_json::to_string` on a `str`: the JSON string literal of
/// the text, which depends on the characters alone.
#[verifier::external_body]
fn quote(s: &str) -> (r: String)
    ensures
        r@ == json_quoted(s@),
{
    match serde_json::to_string(s) {
        Ok(t) => t,
        Err(_) => String::new(),
    }
}

/// A member `"key":value`, from the key and the value's JSON text.
pub open spec fn member_text(m: (Seq<char>, Seq<char>)) -> Seq<char> {
    json_quoted(m.0) + ":"@ + m.1
}

/// Members separated by commas.
pub open spec fn members_text(ms: Seq<(Seq<char>, Seq<char>)>) -> Seq<char>
    decreases ms.len(),
{
    if ms.len() == 0 {
        Seq::empty()
    } else if ms.len() == 1 {
        member_text(ms[0])
    } else {
        members_text(ms.drop_last()) + ","@ + member_text(ms.last())
    }
}

/// A JSON object, from its keys and the JSON text of their values, in order.
pub open spec fn object_text(ms: Seq<(Seq<char>, Seq<char>)>) -> Seq<char> {
    "{"@ + members_text(ms) + "}"@
}

pub open spec fn quoted_values(o: Seq<(Seq<char>, Seq<char>)>) -> Seq<(Seq<char>, Seq<char>)> {
    o.map_values(|e: (Seq<char>, Seq<char>)| (e.0, json_quoted(e.1)))
}

/// The JSON text of a property value.
pub open spec fn value_text(v: PropView) -> Seq<char> {
    match v {
        PropView::Text(t) => json_quoted(t),
        PropView::Number(n) => int_text(n),
        PropView::Object(o) => object_text(quoted_values(o)),
    }
}

pub open spec fn rendered(b: Seq<(Seq<char>, PropView)>) -> Seq<(Seq<char>, Seq<char>)> {
    b.map_values(|e: (Seq<char>, PropView)| (e.0, value_text(e.1)))
}

/// The JSON object holding a property bag.
pub open spec fn bag_text(b: Seq<(Seq<char>, PropView)>) -> Seq<char> {
    object_text(rendered(b))
}

proof fn lemma_members_step(ms: Seq<(Seq<char>, Seq<char>)>, i: int)
    requires
        0 <= i < ms.len(),
    ensures
        members_text(ms.take(i + 1)) == if i == 0 {
            member_text(ms[0])
        } else {
            members_text(ms.take(i)) + ","@ + member_text(ms[i])
        },
{
    assert(ms.take(i + 1).drop_last() =~= ms.take(i));
}

/// Appends a JSON object of text values.
pub fn push_text_object(out: &mut String, o: &Vec<(String, String)>)
    ensures
        final(out)@ == old(out)@ + object_text(quoted_values(bag_view(o@))),
{
    let ghost ms = quoted_values(bag_view(o@));
    let ghost start = out@;
    out.append("{");
    let n = o.len();
    let mut i: usize = 0;
    while i < n
        invariant
            n == o@.len(),
            ms == quoted_values(bag_view(o@)),
            ms.len() == n,
            i <= n,
            out@ == start + "{"@ + members_text(ms.take(i as int)),
        decreases n - i,
    {
        proof {
            lemma_members_step(ms, i as int);
        }
        if i > 0 {
            out.append(",");
        }
        out.append(quote(o[i].0.as_str()).as_str());
        out.append(":");
        out.append(quote(o[i].1.as_str()).as_str());
        assert(ms[i as int] == (o@[i as int].0@, json_quoted(o@[i as int].1@)));
        assert(out@ =~= start + "{"@ + members_text(ms.take(i + 1)));
        i = i + 1;
    }
    out.append("}");
    assert(ms.take(n as int) =~= ms);
    assert(out@ =~= start + object_text(ms));
}

/// Appends the JSON text of a property value.
pub fn push_value(out: &mut String, v: &PropValue)
    ensures
        final(out)@ == old(out)@ + value_text(v@),
{
    match v {
        PropValue::Text(t) => out.append(quote(t.as_str()).as_str()),
        PropValue::Number(n) => push_i64(out, *n),
        PropValue::Object(o) => push_text_object(out, o),
    }
}

/// Appends the JSON object holding a property bag, entries in order.
pub fn push_bag_object(out: &mut String, bag: &Vec<(String, PropValue)>)
    ensures
        final(out)@ == old(out)@ + bag_text(bag_view(bag@)),
{
    let ghost ms = rendered(bag_view(bag@));
    let ghost start = out@;
    out.append("{");
    let n = bag.len();
    let mut i: usize = 0;
    while i < n
        invariant
            n == bag@.len(),
            ms == rendered(bag_view(bag@)),
            ms.len() == n,
            i <= n,
            out@ == start + "{"@ + members_text(ms.take(i as int)),
        decreases n - i,
    {
        proof {
            lemma_members_step(ms, i as int);
        }
        if i > 0 {
            out.append(",");
        }
        out.append(quote(bag[i].0.as_str()).as_str());
        out.append(":");
        push_value(out, &bag[i].1);
        assert(ms[i as int] == (bag@[i as int].0@, value_text(bag@[i as int].1@)));
        assert(out@ =~= start + "{"@ + members_text(ms.take(i + 1)));
        i = i + 1;
    }
    out.append("}");
    assert(ms.take(n as int) =~= ms);
    assert(out@ =~= start + bag_text(bag_view(bag@)));
}

/// The top-level members of a request body, in order.
pub open spec fn body_members(
    api_key: Seq<char>,
    distinct_id: Seq<char>,
    event: Seq<char>,
    properties: Seq<(Seq<char>, PropView)>,
) -> Seq<(Seq<char>, Seq<char>)> {
    seq![
        ("api_key"@, json_quoted(api_key)),
        ("distinct_id"@, json_quoted(distinct_id)),
        ("event"@, json_quoted(event)),
        ("properties"@, bag_text(properties)),
    ]
}

/// The request body: the API key, the visitor id and the event name beside
/// the properties object.
pub open spec fn body_text(
    api_key: Seq<char>,
    distinct_id: Seq<char>,
    event: Seq<char>,
    properties: Seq<(Seq<char>, PropView)>,
) -> Seq<char> {
    object_text(body_members(api_key, distinct_id, event, properties))
}

/// Writes the request body.
pub fn body_json(
    api_key: &String,
    distinct_id: &String,
    event: &String,
    properties: &Vec<(String, PropValue)>,
) -> (r: String)
    ensures
        r@ == body_text(api_key@, distinct_id@, event@, bag_view(properties@)),
{
    let ghost ms = body_members(api_key@, distinct_id@, event@, bag_view(properties@));
    let mut out = String::new();
    out.append("{");
    out.append(quote("api_key").as_str());
    out.append(":");
    out.append(quote(api_key.as_str()).as_str());
    out.append(",");
    out.append(quote("distinct_id").as_str());
    out.append(":");
    out.append(quote(distinct_id.as_str()).as_str());
    out.append(",");
    out.append(quote("event").as_str());
    out.append(":");
    out.append(quote(event.as_str()).as_str());
    out.append(",");
    out.append(quote("properties").as_str());
    out.append(":");
    push_bag_object(&mut out, properties);
    out.append("}");
    proof {
        lemma_members_step(ms, 0);
        lemma_members_step(ms, 1);
        lemma_members_step(ms, 2);
        lemma_members_step(ms, 3);
        assert(ms.take(4) =~= ms);
    }
    assert(out@ =~= body_text(api_key@, distinct_id@, event@, bag_view(properties@)));
    out
}

} // verus!
