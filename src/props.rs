//! Property bags: ordered lists of `(key, value)` entries with unique keys,
//! where inserting an existing key replaces its value in place.

use vstd::prelude::*;

verus! {

/// Position of the entry whose key is `k`, or `s.len()` when there is none.
pub open spec fn key_index<V>(s: Seq<(Seq<char>, V)>, k: Seq<char>) -> int
    decreases s.len(),
{
    if s.len() == 0 {
        0
    } else if s[0].0 == k {
        0
    } else {
        1 + key_index(s.drop_first(), k)
    }
}

pub open spec fn keys_unique<V>(s: Seq<(Seq<char>, V)>) -> bool {
    forall|i: int, j: int| 0 <= i < j < s.len() ==> s[i].0 != s[j].0
}

/// The value stored under `k`, if any.
pub open spec fn lookup<V>(s: Seq<(Seq<char>, V)>, k: Seq<char>) -> Option<V> {
    if key_index(s, k) < s.len() {
        Some(s[key_index(s, k)].1)
    } else {
        None
    }
}

/// Inserting `(k, v)`: replaces the entry with key `k` where there is one,
/// appends otherwise.
pub open spec fn assoc_insert<V>(s: Seq<(Seq<char>, V)>, k: Seq<char>, v: V) -> Seq<(Seq<char>, V)> {
    if key_index(s, k) < s.len() {
        s.update(key_index(s, k), (k, v))
    } else {
        s.push((k, v))
    }
}

/// Inserting every entry of `items`, first to last.
pub open spec fn assoc_extend<V>(s: Seq<(Seq<char>, V)>, items: Seq<(Seq<char>, V)>) -> Seq<
    (Seq<char>, V),
>
    decreases items.len(),
{
    if items.len() == 0 {
        s
    } else {
        assoc_insert(assoc_extend(s, items.drop_last()), items.last().0, items.last().1)
    }
}

/// The value of the last entry of `items` with key `k`, if any.
pub open spec fn last_value<V>(items: Seq<(Seq<char>, V)>, k: Seq<char>) -> Option<V>
    decreases items.len(),
{
    if items.len() == 0 {
        None
    } else if items.last().0 == k {
        Some(items.last().1)
    } else {
        last_value(items.drop_last(), k)
    }
}

pub proof fn lemma_key_index<V>(s: Seq<(Seq<char>, V)>, k: Seq<char>, i: int)
    requires
        0 <= i <= s.len(),
        forall|j: int| 0 <= j < i ==> s[j].0 != k,
        i == s.len() || s[i].0 == k,
    ensures
        key_index(s, k) == i,
    decreases i,
{
    if i > 0 {
        lemma_key_index(s.drop_first(), k, i - 1);
    }
}

pub proof fn lemma_key_index_bounds<V>(s: Seq<(Seq<char>, V)>, k: Seq<char>)
    ensures
        0 <= key_index(s, k) <= s.len(),
        key_index(s, k) < s.len() ==> s[key_index(s, k)].0 == k,
        forall|j: int| 0 <= j < key_index(s, k) ==> s[j].0 != k,
    decreases s.len(),
{
    if s.len() > 0 && s[0].0 != k {
        lemma_key_index_bounds(s.drop_first(), k);
        assert forall|j: int| 0 <= j < key_index(s, k) implies s[j].0 != k by {
            if j > 0 {
                assert(s[j] == s.drop_first()[j - 1]);
            }
        }
        if key_index(s, k) < s.len() {
            assert(s[key_index(s, k)] == s.drop_first()[key_index(s, k) - 1]);
        }
    }
}

/// With unique keys, an entry's position is where its key is found.
pub proof fn lemma_key_index_of_entry<V>(s: Seq<(Seq<char>, V)>, i: int)
    requires
        keys_unique(s),
        0 <= i < s.len(),
    ensures
        key_index(s, s[i].0) == i,
{
    lemma_key_index(s, s[i].0, i);
}

/// Inserting keeps keys unique, and a lookup afterwards sees the new value
/// under `k` and the old ones elsewhere.
pub proof fn lemma_insert_lookup<V>(s: Seq<(Seq<char>, V)>, k: Seq<char>, v: V)
    requires
        keys_unique(s),
    ensures
        keys_unique(assoc_insert(s, k, v)),
        forall|q: Seq<char>|
            #[trigger] lookup(assoc_insert(s, k, v), q) == if q == k {
                Some(v)
            } else {
                lookup(s, q)
            },
{
    lemma_key_index_bounds(s, k);
    let t = assoc_insert(s, k, v);
    let ki = key_index(s, k);
    assert forall|i: int, j: int| 0 <= i < j < t.len() implies t[i].0 != t[j].0 by {
        if ki < s.len() {
            if i != ki && j != ki {
                assert(t[i] == s[i] && t[j] == s[j]);
            }
        } else {
            if j < s.len() {
                assert(t[i] == s[i] && t[j] == s[j]);
            } else {
                assert(t[i] == s[i]);
            }
        }
    }
    assert forall|q: Seq<char>|
        #[trigger] lookup(t, q) == if q == k {
            Some(v)
        } else {
            lookup(s, q)
        } by {
        lemma_key_index_bounds(s, q);
        lemma_key_index_bounds(t, q);
        let qi = key_index(s, q);
        if q == k {
            if ki < s.len() {
                lemma_key_index(t, q, ki);
            } else {
                lemma_key_index(t, q, s.len() as int);
            }
        } else {
            assert forall|j: int| 0 <= j < qi implies t[j].0 != q by {
                if j < s.len() && j != ki {
                    assert(t[j] == s[j]);
                }
            }
            if qi < s.len() {
                if ki < s.len() {
                    assert(qi != ki);
                }
                assert(t[qi] == s[qi]);
                lemma_key_index(t, q, qi);
            } else if ki < s.len() {
                assert forall|j: int| 0 <= j < t.len() implies t[j].0 != q by {
                    if j != ki {
                        assert(t[j] == s[j]);
                    }
                }
                lemma_key_index(t, q, t.len() as int);
            } else {
                assert forall|j: int| 0 <= j < t.len() implies t[j].0 != q by {
                    if j < s.len() {
                        assert(t[j] == s[j]);
                    }
                }
                lemma_key_index(t, q, t.len() as int);
            }
        }
    }
}

/// After extending `s` by `items`, a key takes the value of its last entry in
/// `items`, and keeps its value in `s` when `items` does not hold it.
pub proof fn lemma_extend_lookup<V>(s: Seq<(Seq<char>, V)>, items: Seq<(Seq<char>, V)>)
    requires
        keys_unique(s),
    ensures
        keys_unique(assoc_extend(s, items)),
        forall|q: Seq<char>|
            #[trigger] lookup(assoc_extend(s, items), q) == match last_value(items, q) {
                Some(v) => Some(v),
                None => lookup(s, q),
            },
    decreases items.len(),
{
    if items.len() > 0 {
        lemma_extend_lookup(s, items.drop_last());
        lemma_insert_lookup(assoc_extend(s, items.drop_last()), items.last().0, items.last().1);
    }
}

/// A bag as keys and value views.
pub open spec fn bag_view<V: View>(s: Seq<(String, V)>) -> Seq<(Seq<char>, V::V)> {
    s.map_values(|e: (String, V)| (e.0@, e.1@))
}

/// A value in a property bag.
pub enum PropValue {
    Text(String),
    Number(i64),
    /// A nested object of text values.
    Object(Vec<(String, String)>),
}

pub enum PropView {
    Text(Seq<char>),
    Number(int),
    Object(Seq<(Seq<char>, Seq<char>)>),
}

impl View for PropValue {
    type V = PropView;

    open spec fn view(&self) -> PropView {
        match self {
            PropValue::Text(t) => PropView::Text(t@),
            PropValue::Number(n) => PropView::Number(*n as int),
            PropValue::Object(o) => PropView::Object(bag_view(o@)),
        }
    }
}

/// Inserts `(k, v)` into a bag: the entry with key `k` gets `v` in place, or
/// a new entry is appended.
pub fn insert_entry<V: View>(list: &mut Vec<(String, V)>, k: String, v: V)
    requires
        keys_unique(bag_view(old(list)@)),
    ensures
        bag_view(final(list)@) == assoc_insert(bag_view(old(list)@), k@, v@),
        keys_unique(bag_view(final(list)@)),
{
    let ghost kv = k@;
    let ghost vv = v@;
    proof {
        lemma_insert_lookup(bag_view(old(list)@), kv, vv);
    }
    let n = list.len();
    let mut i: usize = 0;
    while i < n
        invariant
            n == list@.len(),
            list@ == old(list)@,
            keys_unique(bag_view(list@)),
            i <= n,
            kv == k@,
            vv == v@,
            forall|j: int| 0 <= j < i ==> bag_view(list@)[j].0 != kv,
        decreases n - i,
    {
        if list[i].0 == k {
            proof {
                lemma_key_index(bag_view(list@), kv, i as int);
            }
            let ghost before = list@;
            list.set(i, (k, v));
            assert(bag_view(list@) =~= bag_view(before).update(i as int, (kv, vv)));
            proof {
                lemma_insert_lookup(bag_view(before), kv, vv);
            }
            assert(keys_unique(bag_view(list@)));
            return;
        }
        i = i + 1;
    }
    proof {
        lemma_key_index(bag_view(list@), kv, i as int);
    }
    let ghost before = list@;
    list.push((k, v));
    assert(bag_view(list@) =~= bag_view(before).push((kv, vv)));
}

/// Inserts each of `items` into `list`, first to last.
pub fn extend_entries<V: View>(list: &mut Vec<(String, V)>, items: Vec<(String, V)>)
    requires
        keys_unique(bag_view(old(list)@)),
    ensures
        bag_view(final(list)@) == assoc_extend(bag_view(old(list)@), bag_view(items@)),
        keys_unique(bag_view(final(list)@)),
{
    let ghost start = bag_view(list@);
    let ghost all = bag_view(items@);
    let total = items.len();
    let mut rest = items;
    let mut i: usize = 0;
    while rest.len() > 0
        invariant
            bag_view(rest@) == all.skip(i as int),
            i <= all.len(),
            all.len() == total,
            bag_view(list@) == assoc_extend(start, all.take(i as int)),
            keys_unique(bag_view(list@)),
        decreases rest.len(),
    {
        let ghost r0 = rest@;
        assert(bag_view(r0).len() == r0.len());
        assert(i + 1 <= all.len());
        let e = rest.remove(0);
        assert(rest@ =~= r0.skip(1));
        assert(bag_view(r0)[0] == (e.0@, e.1@));
        assert(all.take(i + 1).drop_last() =~= all.take(i as int));
        assert forall|j: int| 0 <= j < rest@.len() implies bag_view(rest@)[j] == all.skip(
            i + 1,
        )[j] by {
            assert(rest@[j] == r0[j + 1]);
            assert(bag_view(r0)[j + 1] == all.skip(i as int)[j + 1]);
        }
        assert(bag_view(rest@) =~= all.skip(i + 1));
        insert_entry(list, e.0, e.1);
        i = i + 1;
    }
    assert(all.take(i as int) =~= all);
}

pub open spec fn text_entry(k: Seq<char>, v: Seq<char>) -> (Seq<char>, PropView) {
    (k, PropView::Text(v))
}

/// Appends a text entry.
pub fn push_text(list: &mut Vec<(String, PropValue)>, key: &str, value: &String)
    ensures
        bag_view(final(list)@) == bag_view(old(list)@).push(text_entry(key@, value@)),
{
    let ghost before = list@;
    list.push((key.to_owned(), PropValue::Text(value.clone())));
    assert(bag_view(list@) =~= bag_view(before).push(text_entry(key@, value@)));
}

} // verus!
