use vstd::prelude::*;

use crate::text::{decimal, decimal_text};

verus! {


/// The mathematical value of a JSON document. Object members keep their order.
pub enum JsonV {
    Null,
    Bool(bool),
    Number(nat),
    Str(Seq<char>),
    Array(Seq<JsonV>),
    Object(Seq<(Seq<char>, JsonV)>),
}

/// A JSON document as the library builds it: an object is an ordered list of members.
#[derive(Debug)]
pub enum Json {
    Null,
    Bool(bool),
    Number(u64),
    Str(String),
    Array(Vec<Json>),
    Object(Vec<(String, Json)>),
}

impl View for Json {
    type V = JsonV;

    open spec fn view(&self) -> JsonV
        decreases self, 1nat,
    {
        match self {
            Json::Null => JsonV::Null,
            Json::Bool(b) => JsonV::Bool(*b),
            Json::Number(n) => JsonV::Number(*n as nat),
            Json::Str(s) => JsonV::Str(s@),
            Json::Array(items) => JsonV::Array(items_view(items@)),
            Json::Object(members) => JsonV::Object(members_view(members@)),
        }
    }
}

/// The models of a sequence of documents.
pub open spec fn items_view(items: Seq<Json>) -> Seq<JsonV>
    decreases items, 0nat,
{
    if items.len() == 0 {
        Seq::empty()
    } else {
        items_view(items.drop_last()).push(items.last()@)
    }
}

/// The model of an ordered member list.
pub open spec fn members_view(m: Seq<(String, Json)>) -> Seq<(Seq<char>, JsonV)>
    decreases m, 0nat,
{
    if m.len() == 0 {
        Seq::empty()
    } else {
        members_view(m.drop_last()).push((m.last().0@, m.last().1@))
    }
}


/// The model of a list of strings turned into a JSON array of strings.
pub open spec fn strings_view(items: Seq<Seq<char>>) -> JsonV {
    JsonV::Array(items.map_values(|s: Seq<char>| JsonV::Str(s)))
}

/// There is one model per document.
pub proof fn lemma_items_view_len(items: Seq<Json>)
    ensures
        items_view(items).len() == items.len(),
    decreases items.len(),
{
    if items.len() > 0 {
        lemma_items_view_len(items.drop_last());
        assert(items_view(items) == items_view(items.drop_last()).push(items.last()@));
    } else {
        assert(items_view(items) == Seq::<JsonV>::empty());
    }
}

/// There is one model per member.
pub proof fn lemma_members_view_len(m: Seq<(String, Json)>)
    ensures
        members_view(m).len() == m.len(),
    decreases m.len(),
{
    if m.len() > 0 {
        lemma_members_view_len(m.drop_last());
        assert(members_view(m) == members_view(m.drop_last()).push((m.last().0@, m.last().1@)));
    } else {
        assert(members_view(m) == Seq::<(Seq<char>, JsonV)>::empty());
    }
}

/// Appending a document appends its model.
pub proof fn lemma_items_push(items: Seq<Json>, j: Json)
    ensures
        items_view(items.push(j)) == items_view(items).push(j@),
{
    assert(items.push(j).drop_last() =~= items);
}

/// Appending a member appends its model.
pub proof fn lemma_members_push(m: Seq<(String, Json)>, k: String, j: Json)
    ensures
        members_view(m.push((k, j))) == members_view(m).push((k@, j@)),
{
    assert(m.push((k, j)).drop_last() =~= m);
}

/// An object with the single member `key: value`.
pub open spec fn single(key: Seq<char>, value: JsonV) -> JsonV {
    JsonV::Object(seq![(key, value)])
}

/// The members that an ordered list of optional entries yields: each entry whose value is
/// present, in order, and nothing for an absent one.
pub open spec fn present(entries: Seq<(Seq<char>, Option<JsonV>)>) -> Seq<(Seq<char>, JsonV)>
    decreases entries.len(),
{
    if entries.len() == 0 {
        Seq::empty()
    } else {
        let rest = present(entries.drop_last());
        match entries.last().1 {
            Some(v) => rest.push((entries.last().0, v)),
            None => rest,
        }
    }
}

/// The value of the last member named `key`, if any.
pub open spec fn member(m: Seq<(Seq<char>, JsonV)>, key: Seq<char>) -> Option<JsonV>
    decreases m.len(),
{
    if m.len() == 0 {
        None
    } else if m.last().0 == key {
        Some(m.last().1)
    } else {
        member(m.drop_last(), key)
    }
}

/// No two entries share a key.
pub open spec fn distinct_keys(entries: Seq<(Seq<char>, Option<JsonV>)>) -> bool {
    forall|i: int, j: int|
        0 <= i < entries.len() && 0 <= j < entries.len() && i != j ==> entries[i].0
            != entries[j].0
}

/// Where the keys are distinct, each key of the entries names exactly its present value,
/// and any other key names nothing.
pub proof fn lemma_present_members(entries: Seq<(Seq<char>, Option<JsonV>)>, key: Seq<char>)
    requires
        distinct_keys(entries),
    ensures
        forall|j: int|
            0 <= j < entries.len() && #[trigger] entries[j].0 == key ==> member(
                present(entries),
                key,
            ) == entries[j].1,
        (forall|j: int| 0 <= j < entries.len() ==> #[trigger] entries[j].0 != key) ==> member(
            present(entries),
            key,
        ) is None,
    decreases entries.len(),
{
    if entries.len() > 0 {
        let init = entries.drop_last();
        assert(distinct_keys(init));
        lemma_present_members(init, key);
        let last = entries.last();
        match last.1 {
            Some(v) => {
                assert(present(init).push((last.0, v)).drop_last() =~= present(init));
            },
            None => {},
        }
        if last.0 == key {
            assert forall|j: int|
                0 <= j < init.len() implies #[trigger] init[j].0 != key by {
                assert(entries[j] == init[j]);
            }
        } else {
            assert(member(present(entries), key) == member(present(init), key));
            assert forall|j: int|
                0 <= j < entries.len() && #[trigger] entries[j].0 == key implies member(
                    present(entries),
                    key,
                ) == entries[j].1 by {
                assert(j < init.len());
                assert(init[j] == entries[j]);
            }
            if forall|j: int| 0 <= j < entries.len() ==> #[trigger] entries[j].0 != key {
                assert forall|j: int| 0 <= j < init.len() implies #[trigger] init[j].0 != key by {
                    assert(entries[j] == init[j]);
                }
            }
        }
    }
}

/// Appending an entry to a list extends its members by that entry's value, if present.
pub proof fn lemma_present_push(
    entries: Seq<(Seq<char>, Option<JsonV>)>,
    e: (Seq<char>, Option<JsonV>),
)
    ensures
        present(entries.push(e)) == (match e.1 {
            Some(v) => present(entries).push((e.0, v)),
            None => present(entries),
        }),
{
    assert(entries.push(e).drop_last() =~= entries);
}

/// The model of an optional document.
pub open spec fn opt_view(value: Option<Json>) -> Option<JsonV> {
    match value {
        Some(j) => Some(j@),
        None => None,
    }
}

/// Appends the member `key: value` where a value is given, and nothing otherwise; the
/// entry list that describes the members grows by `(key, value)` either way.
pub(crate) fn push_entry(
    m: &mut Vec<(String, Json)>,
    entries: Ghost<Seq<(Seq<char>, Option<JsonV>)>>,
    key: &str,
    value: Option<Json>,
) -> (r: Ghost<Seq<(Seq<char>, Option<JsonV>)>>)
    requires
        members_view(old(m)@) == present(entries@),
    ensures
        r@ == entries@.push((key@, opt_view(value))),
        members_view(final(m)@) == present(r@),
{
    proof {
        lemma_present_push(entries@, (key@, opt_view(value)));
    }
    match value {
        Some(v) => {
            let k = String::from_str(key);
            proof {
                lemma_members_push(m@, k, v);
            }
            m.push((k, v));
        },
        None => {},
    }
    Ghost(entries@.push((key@, opt_view(value))))
}

/// The JSON string literal that serde_json writes for a text: quotes around it, with the
/// characters that JSON escapes escaped.
pub uninterp spec fn json_string_of(s: Seq<char>) -> Seq<char>;

/// Relies on `serde_json::to_string` on a `str`: the JSON string literal for the text, which
/// depends on the text alone. Writing a `str` into memory never fails; the empty fallback
/// is never taken.
#[verifier::external_body]
fn quote(s: &str) -> (r: String)
    ensures
        r@ == json_string_of(s@),
{
    match serde_json::to_string(s) {
        Ok(t) => t,
        Err(_) => String::new(),
    }
}

/// The compact JSON text of a document: no white space, members and items in order.
pub open spec fn text_of(j: JsonV) -> Seq<char>
    decreases j, 1nat,
{
    match j {
        JsonV::Null => "null"@,
        JsonV::Bool(b) => if b {
            "true"@
        } else {
            "false"@
        },
        JsonV::Number(n) => decimal(n),
        JsonV::Str(s) => json_string_of(s),
        JsonV::Array(items) => "["@ + items_text(items) + "]"@,
        JsonV::Object(m) => "{"@ + members_text(m) + "}"@,
    }
}

/// The texts of the items, separated by commas.
pub open spec fn items_text(items: Seq<JsonV>) -> Seq<char>
    decreases items, 0nat,
{
    if items.len() == 0 {
        Seq::empty()
    } else if items.len() == 1 {
        text_of(items[0])
    } else {
        items_text(items.drop_last()) + ","@ + text_of(items.last())
    }
}

/// The texts of the members, `"key":value`, separated by commas.
pub open spec fn members_text(m: Seq<(Seq<char>, JsonV)>) -> Seq<char>
    decreases m, 0nat,
{
    if m.len() == 0 {
        Seq::empty()
    } else if m.len() == 1 {
        json_string_of(m[0].0) + ":"@ + text_of(m[0].1)
    } else {
        members_text(m.drop_last()) + ","@ + json_string_of(m.last().0) + ":"@ + text_of(
            m.last().1,
        )
    }
}

impl Json {
    /// The compact JSON text of this document.
    pub fn to_text(&self) -> (r: String)
        ensures
            r@ == text_of(self@),
        decreases self,
    {
        broadcast use vstd::std_specs::vec::axiom_vec_index_decreases;

        match self {
            Json::Null => String::from_str("null"),
            Json::Bool(b) => if *b {
                String::from_str("true")
            } else {
                String::from_str("false")
            },
            Json::Number(n) => decimal_text(*n),
            Json::Str(s) => quote(s.as_str()),
            Json::Array(items) => {
                let mut r = String::from_str("[");
                let mut i: usize = 0;
                assert(decreases_to!(self => items));
                while i < items.len()
                    invariant
                        decreases_to!(self => items),
                        i <= items@.len(),
                        r@ == "["@ + items_text(items_view(items@.subrange(0, i as int))),
                    decreases items.len() - i,
                {
                    proof {
                        assert(decreases_to!(items => items@));
                        assert(decreases_to!(items@ => items@[i as int]));
                    }
                    let t = items[i].to_text();
                    let ghost pre = items_view(items@.subrange(0, i as int));
                    let ghost next = items_view(items@.subrange(0, i + 1));
                    proof {
                        assert(items@.subrange(0, i + 1).drop_last() =~= items@.subrange(
                            0,
                            i as int,
                        ));
                        assert(next == pre.push(items@[i as int]@));
                        assert(next.drop_last() =~= pre);
                        lemma_items_view_len(items@.subrange(0, i + 1));
                        assert(next.len() == i + 1);
                        assert(next.last() == items@[i as int]@);
                        if i == 0 {
                            assert(next[0] == items@[i as int]@);
                        }
                    }
                    if i > 0 {
                        r.append(",");
                    }
                    r.append(t.as_str());
                    assert(r@ =~= "["@ + items_text(next));
                    i = i + 1;
                }
                assert(items@.subrange(0, i as int) =~= items@);
                r.append("]");
                r
            },
            Json::Object(m) => {
                let mut r = String::from_str("{");
                let mut i: usize = 0;
                assert(decreases_to!(self => m));
                while i < m.len()
                    invariant
                        decreases_to!(self => m),
                        i <= m@.len(),
                        r@ == "{"@ + members_text(members_view(m@.subrange(0, i as int))),
                    decreases m.len() - i,
                {
                    proof {
                        assert(decreases_to!(m => m@));
                        assert(decreases_to!(m@ => m@[i as int]));
                        assert(decreases_to!(m@[i as int] => m@[i as int].1));
                    }
                    let k = quote(m[i].0.as_str());
                    let t = m[i].1.to_text();
                    let ghost pre = members_view(m@.subrange(0, i as int));
                    let ghost next = members_view(m@.subrange(0, i + 1));
                    proof {
                        assert(m@.subrange(0, i + 1).drop_last() =~= m@.subrange(0, i as int));
                        assert(next == pre.push((m@[i as int].0@, m@[i as int].1@)));
                        assert(next.drop_last() =~= pre);
                        lemma_members_view_len(m@.subrange(0, i + 1));
                        assert(next.len() == i + 1);
                        assert(next.last() == (m@[i as int].0@, m@[i as int].1@));
                        if i == 0 {
                            assert(next[0] == (m@[i as int].0@, m@[i as int].1@));
                        }
                    }
                    if i > 0 {
                        r.append(",");
                    }
                    r.append(k.as_str());
                    r.append(":");
                    r.append(t.as_str());
                    assert(r@ =~= "{"@ + members_text(next));
                    i = i + 1;
                }
                assert(m@.subrange(0, i as int) =~= m@);
                r.append("}");
                r
            },
        }
    }

    /// A JSON string holding a copy of `s`.
    pub fn string(s: &str) -> (r: Json)
        ensures
            r@ == JsonV::Str(s@),
    {
        Json::Str(String::from_str(s))
    }

    /// An object with one member.
    pub fn single(key: &str, value: Json) -> (r: Json)
        ensures
            r@ == single(key@, value@),
    {
        let mut m: Vec<(String, Json)> = Vec::new();
        let k = String::from_str(key);
        proof {
            lemma_members_push(m@, k, value);
            assert(members_view(m@).push((k@, value@)) =~= seq![(key@, value@)]);
        }
        m.push((k, value));
        Json::Object(m)
    }

    /// An array with one item.
    pub fn one_item(item: Json) -> (r: Json)
        ensures
            r@ == JsonV::Array(seq![item@]),
    {
        let mut items: Vec<Json> = Vec::new();
        proof {
            lemma_items_push(items@, item);
            assert(items_view(items@).push(item@) =~= seq![item@]);
        }
        items.push(item);
        Json::Array(items)
    }

    /// A JSON array of strings, in the given order.
    pub fn strings(items: &Vec<String>) -> (r: Json)
        ensures
            r@ == strings_view(items.deep_view()),
    {
        let mut out: Vec<Json> = Vec::new();
        let mut i: usize = 0;
        let ghost all = items.deep_view();
        proof {
            assert(all.subrange(0, 0).map_values(|s: Seq<char>| JsonV::Str(s)) =~= Seq::<
                JsonV,
            >::empty());
        }
        while i < items.len()
            invariant
                i <= items.len(),
                all == items.deep_view(),
                items_view(out@) == all.subrange(0, i as int).map_values(
                    |s: Seq<char>| JsonV::Str(s),
                ),
            decreases items.len() - i,
        {
            let item = Json::Str(items[i].clone());
            proof {
                lemma_items_push(out@, item);
                assert(all.subrange(0, i + 1).map_values(|s: Seq<char>| JsonV::Str(s))
                    =~= all.subrange(0, i as int).map_values(|s: Seq<char>| JsonV::Str(s)).push(
                    item@,
                ));
            }
            out.push(item);
            i = i + 1;
        }
        proof {
            assert(all.subrange(0, i as int) =~= all);
        }
        Json::Array(out)
    }
}

} // verus!
