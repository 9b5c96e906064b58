use vstd::prelude::*;

use crate::error::JiraError;
use crate::json::{single, Json, JsonV};
use crate::text::{eq_ignore_ascii_case, same_ignoring_ascii_case};

verus! {

/// One entry of an issue's transitions list, as far as it is read: its id and its name,
/// each absent where the entry lacks it or holds no text there.
#[derive(Clone, Debug, PartialEq, Eq)]
pub struct Transition {
    pub id: Option<String>,
    pub name: Option<String>,
}

/// The entry has a name, and that name is `target` up to the case of ASCII letters.
pub open spec fn named(t: Transition, target: Seq<char>) -> bool {
    match t.name {
        Some(n) => same_ignoring_ascii_case(n@, target),
        None => false,
    }
}

/// Entry `i` is the first that is called `target`.
pub open spec fn first_named(ts: Seq<Transition>, target: Seq<char>, i: int) -> bool {
    &&& 0 <= i < ts.len()
    &&& named(ts[i], target)
    &&& forall|j: int| 0 <= j < i ==> !named(#[trigger] ts[j], target)
}

/// No entry is called `target`.
pub open spec fn none_named(ts: Seq<Transition>, target: Seq<char>) -> bool {
    forall|j: int| 0 <= j < ts.len() ==> !named(#[trigger] ts[j], target)
}

/// The body that applies the transition `id`: `{"transition": {"id": id}}`.
pub open spec fn apply_view(id: Seq<char>) -> JsonV {
    single("transition"@, single("id"@, JsonV::Str(id)))
}

/// The index of the first entry called `target`, if there is one.
pub fn find_transition(ts: &Vec<Transition>, target: &str) -> (r: Option<usize>)
    ensures
        match r {
            Some(i) => first_named(ts@, target@, i as int),
            None => none_named(ts@, target@),
        },
{
    let mut i: usize = 0;
    while i < ts.len()
        invariant
            i <= ts@.len(),
            forall|j: int| 0 <= j < i ==> !named(#[trigger] ts@[j], target@),
        decreases ts.len() - i,
    {
        let hit = match &ts[i].name {
            Some(n) => eq_ignore_ascii_case(n.as_str(), target),
            None => false,
        };
        if hit {
            return Some(i);
        }
        i = i + 1;
    }
    None
}

/// The id of the transition of issue `key` that is called `target`: the id of the first
/// entry with that name. Without a list, or where no entry has that name or the first one
/// has no id, the error says so.
pub fn transition_id(key: &str, target: &str, transitions: &Option<Vec<Transition>>) -> (r: Result<
    String,
    JiraError,
>)
    ensures
        transitions is None ==> r is Err && r->Err_0 is NoTransitions,
        transitions is Some && none_named(transitions->Some_0@, target@) ==> r is Err
            && r->Err_0 is TransitionUnavailable && r->Err_0->key@ == key@
            && r->Err_0->target@ == target@,
        forall|i: int|
            transitions is Some && #[trigger] first_named(transitions->Some_0@, target@, i)
                ==> match transitions->Some_0@[i].id {
                Some(id) => r is Ok && r->Ok_0@ == id@,
                None => r is Err && r->Err_0 is TransitionUnavailable && r->Err_0->key@ == key@
                    && r->Err_0->target@ == target@,
            },
{
    let unavailable = JiraError::TransitionUnavailable {
        key: String::from_str(key),
        target: String::from_str(target),
    };
    match transitions {
        None => Err(JiraError::NoTransitions),
        Some(ts) => match find_transition(ts, target) {
            Some(i) => {
                proof {
                    assert forall|k: int| #[trigger] first_named(ts@, target@, k) implies k
                        == i by {
                        if k < i {
                            assert(!named(ts@[k], target@));
                        } else if k > i {
                            assert(!named(ts@[i as int], target@));
                        }
                    }
                }
                match &ts[i].id {
                    Some(id) => Ok(id.clone()),
                    None => Err(unavailable),
                }
            },
            None => Err(unavailable),
        },
    }
}

/// The body that applies the transition `id`.
pub fn apply_body(id: &str) -> (r: Json)
    ensures
        r@ == apply_view(id@),
{
    Json::single("transition", Json::single("id", Json::string(id)))
}

} // verus!
