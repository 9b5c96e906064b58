use vstd::prelude::*;

use crate::fields::{key_ref, name_ref};
use crate::json::{member, push_entry, present, Json, JsonV};
use crate::text::same_text;

verus! {

/// How the source issue of a link relates to its target.
#[derive(Clone, Copy, Debug, PartialEq, Eq, Structural)]
pub enum LinkRelation {
    /// The source blocks the target.
    Blocks,
    /// The source is blocked by the target.
    BlockedBy,
}

/// The issue on the outward side of the link: the blocker.
pub open spec fn outward(relation: LinkRelation, source: Seq<char>, target: Seq<char>) -> Seq<
    char,
> {
    match relation {
        LinkRelation::Blocks => target,
        LinkRelation::BlockedBy => source,
    }
}

/// The issue on the inward side of the link.
pub open spec fn inward(relation: LinkRelation, source: Seq<char>, target: Seq<char>) -> Seq<
    char,
> {
    match relation {
        LinkRelation::Blocks => source,
        LinkRelation::BlockedBy => target,
    }
}

/// The body that links `source` to `target`: a link of type "Blocks", with the two keys on
/// the sides that the relation gives.
pub open spec fn link_view(relation: LinkRelation, source: Seq<char>, target: Seq<char>) -> JsonV {
    JsonV::Object(
        seq![
            ("type"@, name_ref("Blocks"@)),
            ("outwardIssue"@, key_ref(outward(relation, source, target))),
            ("inwardIssue"@, key_ref(inward(relation, source, target))),
        ],
    )
}

impl LinkRelation {
    /// The relation called `name`: "blocks" or "blocked-by".
    pub fn from_name(name: &str) -> (r: Option<LinkRelation>)
        ensures
            name@ == "blocks"@ ==> r == Some(LinkRelation::Blocks),
            name@ == "blocked-by"@ ==> r == Some(LinkRelation::BlockedBy),
            name@ != "blocks"@ && name@ != "blocked-by"@ ==> r is None,
    {
        proof {
            reveal_strlit("blocks");
            reveal_strlit("blocked-by");
            assert("blocks"@.len() != "blocked-by"@.len());
        }
        if same_text(name, "blocks") {
            Some(LinkRelation::Blocks)
        } else if same_text(name, "blocked-by") {
            Some(LinkRelation::BlockedBy)
        } else {
            None
        }
    }
}

/// The body of the request that links `source` to `target`.
pub fn link_body(relation: LinkRelation, source: &str, target: &str) -> (r: Json)
    ensures
        r@ == link_view(relation, source@, target@),
{
    let (out_key, in_key) = match relation {
        LinkRelation::Blocks => (target, source),
        LinkRelation::BlockedBy => (source, target),
    };
    let mut m: Vec<(String, Json)> = Vec::new();
    let g = push_entry(
        &mut m,
        Ghost(Seq::empty()),
        "type",
        Some(Json::single("name", Json::string("Blocks"))),
    );
    let g = push_entry(
        &mut m,
        g,
        "outwardIssue",
        Some(Json::single("key", Json::string(out_key))),
    );
    let g = push_entry(&mut m, g, "inwardIssue", Some(Json::single("key", Json::string(in_key))));
    proof {
        reveal_with_fuel(present, 4);
        assert(present(g@) =~= link_view(relation, source@, target@)->Object_0);
    }
    Json::Object(m)
}

/// Linking A to B: with "blocks", B is outward and A inward; with "blocked-by", A is
/// outward and B inward; the link type is "Blocks" either way.
pub proof fn link_sides(source: Seq<char>, target: Seq<char>)
    ensures
        member(link_view(LinkRelation::Blocks, source, target)->Object_0, "outwardIssue"@)
            == Some(key_ref(target)),
        member(link_view(LinkRelation::Blocks, source, target)->Object_0, "inwardIssue"@)
            == Some(key_ref(source)),
        member(link_view(LinkRelation::BlockedBy, source, target)->Object_0, "outwardIssue"@)
            == Some(key_ref(source)),
        member(link_view(LinkRelation::BlockedBy, source, target)->Object_0, "inwardIssue"@)
            == Some(key_ref(target)),
        member(link_view(LinkRelation::Blocks, source, target)->Object_0, "type"@) == Some(
            name_ref("Blocks"@),
        ),
        member(link_view(LinkRelation::BlockedBy, source, target)->Object_0, "type"@) == Some(
            name_ref("Blocks"@),
        ),
{
    reveal_strlit("type");
    reveal_strlit("outwardIssue");
    reveal_strlit("inwardIssue");
    reveal_with_fuel(member, 3);
    assert("type"@ != "outwardIssue"@ && "type"@ != "inwardIssue"@ && "inwardIssue"@
        != "outwardIssue"@) by {
        assert("type"@.len() != "inwardIssue"@.len());
        assert("type"@.len() != "outwardIssue"@.len());
        assert("inwardIssue"@[0] != "outwardIssue"@[0]);
    }
    let a = link_view(LinkRelation::Blocks, source, target)->Object_0;
    let b = link_view(LinkRelation::BlockedBy, source, target)->Object_0;
    assert(a.drop_last() =~= seq![a[0], a[1]]);
    assert(a.drop_last().drop_last() =~= seq![a[0]]);
    assert(b.drop_last() =~= seq![b[0], b[1]]);
    assert(b.drop_last().drop_last() =~= seq![b[0]]);
    assert(seq![a[0]].drop_last() =~= Seq::<(Seq<char>, JsonV)>::empty());
    assert(seq![b[0]].drop_last() =~= Seq::<(Seq<char>, JsonV)>::empty());
}

} // verus!
