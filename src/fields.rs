use vstd::prelude::*;

use crate::error::JiraError;
use crate::json::{
    distinct_keys, lemma_present_members, member, opt_view, present, push_entry, single,
    strings_view, Json, JsonV,
};

verus! {

/// `{"key": k}`, how Jira refers to a project or an issue.
pub open spec fn key_ref(k: Seq<char>) -> JsonV {
    single("key"@, JsonV::Str(k))
}

/// `{"name": n}`, how Jira refers to an issue type, a priority or a link type.
pub open spec fn name_ref(n: Seq<char>) -> JsonV {
    single("name"@, JsonV::Str(n))
}

/// `{"accountId": a}`, how Jira refers to a user.
pub open spec fn account_ref(a: Seq<char>) -> JsonV {
    single("accountId"@, JsonV::Str(a))
}

/// A plain text as a one-paragraph Atlassian Document Format document.
pub open spec fn adf_view(text: Seq<char>) -> JsonV {
    JsonV::Object(
        seq![
            ("type"@, JsonV::Str("doc"@)),
            ("version"@, JsonV::Number(1)),
            ("content"@, JsonV::Array(seq![JsonV::Object(seq![
                ("type"@, JsonV::Str("paragraph"@)),
                ("content"@, JsonV::Array(seq![JsonV::Object(seq![
                    ("type"@, JsonV::Str("text"@)),
                    ("text"@, JsonV::Str(text)),
                ])])),
            ])])),
        ],
    )
}

/// The issue type that a new issue gets: the one asked for, else "Sub-task" under a parent,
/// else "Task".
pub open spec fn issue_type_name(issue_type: Option<Seq<char>>, parent: Option<Seq<char>>) -> Seq<
    char,
> {
    match issue_type {
        Some(t) => t,
        None => if parent is Some {
            "Sub-task"@
        } else {
            "Task"@
        },
    }
}

/// A given text as a JSON string.
pub open spec fn text_entry(o: Option<Seq<char>>) -> Option<JsonV> {
    match o {
        Some(s) => Some(JsonV::Str(s)),
        None => None,
    }
}

/// A given text as a description document.
pub open spec fn adf_entry(o: Option<Seq<char>>) -> Option<JsonV> {
    match o {
        Some(s) => Some(adf_view(s)),
        None => None,
    }
}

/// A given key as `{"key": k}`.
pub open spec fn key_entry(o: Option<Seq<char>>) -> Option<JsonV> {
    match o {
        Some(s) => Some(key_ref(s)),
        None => None,
    }
}

/// A given name as `{"name": n}`.
pub open spec fn name_entry(o: Option<Seq<char>>) -> Option<JsonV> {
    match o {
        Some(s) => Some(name_ref(s)),
        None => None,
    }
}

/// A given account id as `{"accountId": a}`.
pub open spec fn account_entry(o: Option<Seq<char>>) -> Option<JsonV> {
    match o {
        Some(s) => Some(account_ref(s)),
        None => None,
    }
}

/// Given labels as an array of strings.
pub open spec fn labels_entry(o: Option<Seq<Seq<char>>>) -> Option<JsonV> {
    match o {
        Some(l) => Some(strings_view(l)),
        None => None,
    }
}

/// The fields of a new issue, in order. The description is always sent: `null` when absent.
pub open spec fn create_entries(
    project: Seq<char>,
    summary: Seq<char>,
    description: Option<Seq<char>>,
    issue_type: Option<Seq<char>>,
    parent: Option<Seq<char>>,
    labels: Option<Seq<Seq<char>>>,
    priority: Option<Seq<char>>,
    assignee: Option<Seq<char>>,
) -> Seq<(Seq<char>, Option<JsonV>)> {
    seq![
        ("project"@, Some(key_ref(project))),
        ("summary"@, Some(JsonV::Str(summary))),
        ("issuetype"@, Some(name_ref(issue_type_name(issue_type, parent)))),
        ("description"@, Some(
            match description {
                Some(t) => adf_view(t),
                None => JsonV::Null,
            },
        )),
        ("parent"@, key_entry(parent)),
        ("labels"@, labels_entry(labels)),
        ("priority"@, name_entry(priority)),
        ("assignee"@, account_entry(assignee)),
    ]
}

/// The fields that an update changes, in order; absent ones are left out.
pub open spec fn update_entries(
    summary: Option<Seq<char>>,
    description: Option<Seq<char>>,
    project: Option<Seq<char>>,
    issue_type: Option<Seq<char>>,
    labels: Option<Seq<Seq<char>>>,
    priority: Option<Seq<char>>,
    assignee: Option<Seq<char>>,
) -> Seq<(Seq<char>, Option<JsonV>)> {
    seq![
        ("summary"@, text_entry(summary)),
        ("description"@, adf_entry(description)),
        ("project"@, key_entry(project)),
        ("issuetype"@, name_entry(issue_type)),
        ("labels"@, labels_entry(labels)),
        ("priority"@, name_entry(priority)),
        ("assignee"@, account_entry(assignee)),
    ]
}

/// Wraps a plain text into a one-paragraph Atlassian Document Format document.
pub fn description_to_adf(text: &str) -> (r: Json)
    ensures
        r@ == adf_view(text@),
{
    let mut leaf: Vec<(String, Json)> = Vec::new();
    let g = push_entry(&mut leaf, Ghost(Seq::empty()), "type", Some(Json::string("text")));
    let g = push_entry(&mut leaf, g, "text", Some(Json::string(text)));
    proof {
        reveal_with_fuel(present, 3);
        assert(present(g@) =~= seq![("type"@, JsonV::Str("text"@)), ("text"@, JsonV::Str(text@))]);
    }
    let mut para: Vec<(String, Json)> = Vec::new();
    let g = push_entry(&mut para, Ghost(Seq::empty()), "type", Some(Json::string("paragraph")));
    let g = push_entry(&mut para, g, "content", Some(Json::one_item(Json::Object(leaf))));
    proof {
        reveal_with_fuel(present, 3);
        assert(present(g@) =~= seq![
            ("type"@, JsonV::Str("paragraph"@)),
            ("content"@, JsonV::Array(seq![Json::Object(leaf)@])),
        ]);
    }
    let mut doc: Vec<(String, Json)> = Vec::new();
    let g = push_entry(&mut doc, Ghost(Seq::empty()), "type", Some(Json::string("doc")));
    let g = push_entry(&mut doc, g, "version", Some(Json::Number(1)));
    let g = push_entry(&mut doc, g, "content", Some(Json::one_item(Json::Object(para))));
    proof {
        reveal_with_fuel(present, 4);
        assert(present(g@) =~= seq![
            ("type"@, JsonV::Str("doc"@)),
            ("version"@, JsonV::Number(1)),
            ("content"@, JsonV::Array(seq![Json::Object(para)@])),
        ]);
    }
    Json::Object(doc)
}

/// The issue type that a new issue gets.
pub fn issue_type_for(issue_type: Option<String>, parent: &Option<String>) -> (r: String)
    ensures
        r@ == issue_type_name(issue_type.deep_view(), parent.deep_view()),
{
    match issue_type {
        Some(t) => t,
        None => if parent.is_some() {
            String::from_str("Sub-task")
        } else {
            String::from_str("Task")
        },
    }
}

/// A given text as a JSON string.
fn text_value(o: Option<String>) -> (r: Option<Json>)
    ensures
        opt_view(r) == text_entry(o.deep_view()),
{
    match o {
        Some(s) => Some(Json::Str(s)),
        None => None,
    }
}

/// A given text as a description document.
fn adf_value(o: Option<String>) -> (r: Option<Json>)
    ensures
        opt_view(r) == adf_entry(o.deep_view()),
{
    match o {
        Some(s) => Some(description_to_adf(s.as_str())),
        None => None,
    }
}

/// A given key as `{"key": k}`.
fn key_value(o: Option<String>) -> (r: Option<Json>)
    ensures
        opt_view(r) == key_entry(o.deep_view()),
{
    match o {
        Some(s) => Some(Json::single("key", Json::Str(s))),
        None => None,
    }
}

/// A given name as `{"name": n}`.
fn name_value(o: Option<String>) -> (r: Option<Json>)
    ensures
        opt_view(r) == name_entry(o.deep_view()),
{
    match o {
        Some(s) => Some(Json::single("name", Json::Str(s))),
        None => None,
    }
}

/// A given account id as `{"accountId": a}`.
fn account_value(o: Option<String>) -> (r: Option<Json>)
    ensures
        opt_view(r) == account_entry(o.deep_view()),
{
    match o {
        Some(s) => Some(Json::single("accountId", Json::Str(s))),
        None => None,
    }
}

/// Given labels as an array of strings.
fn labels_value(o: Option<Vec<String>>) -> (r: Option<Json>)
    ensures
        opt_view(r) == labels_entry(o.deep_view()),
{
    match o {
        Some(l) => Some(Json::strings(&l)),
        None => None,
    }
}

/// The `fields` object of a new issue: project, summary, issue type and description always,
/// then parent, labels, priority and assignee where given.
pub fn create_fields(
    project_key: &str,
    summary: &str,
    description: Option<String>,
    issue_type: Option<String>,
    parent: Option<String>,
    labels: Option<Vec<String>>,
    priority: Option<String>,
    assignee: Option<String>,
) -> (r: Json)
    ensures
        r@ == JsonV::Object(
            present(
                create_entries(
                    project_key@,
                    summary@,
                    description.deep_view(),
                    issue_type.deep_view(),
                    parent.deep_view(),
                    labels.deep_view(),
                    priority.deep_view(),
                    assignee.deep_view(),
                ),
            ),
        ),
{
    let ghost want = create_entries(
        project_key@,
        summary@,
        description.deep_view(),
        issue_type.deep_view(),
        parent.deep_view(),
        labels.deep_view(),
        priority.deep_view(),
        assignee.deep_view(),
    );
    let kind = issue_type_for(issue_type, &parent);
    let desc = match description {
        Some(t) => description_to_adf(t.as_str()),
        None => Json::Null,
    };
    let mut m: Vec<(String, Json)> = Vec::new();
    let g = push_entry(
        &mut m,
        Ghost(Seq::empty()),
        "project",
        Some(Json::single("key", Json::string(project_key))),
    );
    let g = push_entry(&mut m, g, "summary", Some(Json::string(summary)));
    let g = push_entry(&mut m, g, "issuetype", Some(Json::single("name", Json::Str(kind))));
    let g = push_entry(&mut m, g, "description", Some(desc));
    let g = push_entry(&mut m, g, "parent", key_value(parent));
    let g = push_entry(&mut m, g, "labels", labels_value(labels));
    let g = push_entry(&mut m, g, "priority", name_value(priority));
    let g = push_entry(&mut m, g, "assignee", account_value(assignee));
    proof {
        assert(g@ =~= want);
    }
    Json::Object(m)
}

/// The `fields` object of an update: each given field, and only those. An update that
/// changes nothing is refused.
pub fn update_fields(
    summary: Option<String>,
    description: Option<String>,
    project: Option<String>,
    issue_type: Option<String>,
    labels: Option<Vec<String>>,
    priority: Option<String>,
    assignee: Option<String>,
) -> (r: Result<Json, JiraError>)
    ensures
        r is Err <==> (summary is None && description is None && project is None
            && issue_type is None && labels is None && priority is None && assignee is None),
        r is Err ==> r->Err_0 == JiraError::NoUpdateFields,
        r is Ok ==> r->Ok_0@ == JsonV::Object(
            present(
                update_entries(
                    summary.deep_view(),
                    description.deep_view(),
                    project.deep_view(),
                    issue_type.deep_view(),
                    labels.deep_view(),
                    priority.deep_view(),
                    assignee.deep_view(),
                ),
            ),
        ),
{
    let ghost want = update_entries(
        summary.deep_view(),
        description.deep_view(),
        project.deep_view(),
        issue_type.deep_view(),
        labels.deep_view(),
        priority.deep_view(),
        assignee.deep_view(),
    );
    if summary.is_none() && description.is_none() && project.is_none() && issue_type.is_none()
        && labels.is_none() && priority.is_none() && assignee.is_none() {
        return Err(JiraError::NoUpdateFields);
    }
    let mut m: Vec<(String, Json)> = Vec::new();
    let g = push_entry(&mut m, Ghost(Seq::empty()), "summary", text_value(summary));
    let g = push_entry(&mut m, g, "description", adf_value(description));
    let g = push_entry(&mut m, g, "project", key_value(project));
    let g = push_entry(&mut m, g, "issuetype", name_value(issue_type));
    let g = push_entry(&mut m, g, "labels", labels_value(labels));
    let g = push_entry(&mut m, g, "priority", name_value(priority));
    let g = push_entry(&mut m, g, "assignee", account_value(assignee));
    proof {
        assert(g@ =~= want);
    }
    Ok(Json::Object(m))
}

/// The keys of an update payload are distinct.
proof fn lemma_update_keys_distinct(
    summary: Option<Seq<char>>,
    description: Option<Seq<char>>,
    project: Option<Seq<char>>,
    issue_type: Option<Seq<char>>,
    labels: Option<Seq<Seq<char>>>,
    priority: Option<Seq<char>>,
    assignee: Option<Seq<char>>,
)
    ensures
        distinct_keys(
            update_entries(summary, description, project, issue_type, labels, priority, assignee),
        ),
{
    reveal_strlit("summary");
    reveal_strlit("description");
    reveal_strlit("project");
    reveal_strlit("issuetype");
    reveal_strlit("labels");
    reveal_strlit("priority");
    reveal_strlit("assignee");
    let e = update_entries(summary, description, project, issue_type, labels, priority, assignee);
    assert forall|i: int, j: int|
        0 <= i < e.len() && 0 <= j < e.len() && i != j implies e[i].0 != e[j].0 by {
        assert(e[i].0.len() != e[j].0.len() || e[i].0[0] != e[j].0[0]);
    }
}

/// The keys of a create payload are distinct.
proof fn lemma_create_keys_distinct(
    project: Seq<char>,
    summary: Seq<char>,
    description: Option<Seq<char>>,
    issue_type: Option<Seq<char>>,
    parent: Option<Seq<char>>,
    labels: Option<Seq<Seq<char>>>,
    priority: Option<Seq<char>>,
    assignee: Option<Seq<char>>,
)
    ensures
        distinct_keys(
            create_entries(
                project,
                summary,
                description,
                issue_type,
                parent,
                labels,
                priority,
                assignee,
            ),
        ),
{
    reveal_strlit("project");
    reveal_strlit("summary");
    reveal_strlit("issuetype");
    reveal_strlit("description");
    reveal_strlit("parent");
    reveal_strlit("labels");
    reveal_strlit("priority");
    reveal_strlit("assignee");
    let e = create_entries(
        project,
        summary,
        description,
        issue_type,
        parent,
        labels,
        priority,
        assignee,
    );
    assert forall|i: int, j: int|
        0 <= i < e.len() && 0 <= j < e.len() && i != j implies e[i].0 != e[j].0 by {
        assert(e[i].0.len() != e[j].0.len() || e[i].0[0] != e[j].0[0]);
    }
}

/// An update payload holds exactly the fields that were given: each under its key, the
/// description as a document, and no member at all for a field that was left out.
pub proof fn update_payload_holds_given_fields(
    summary: Option<Seq<char>>,
    description: Option<Seq<char>>,
    project: Option<Seq<char>>,
    issue_type: Option<Seq<char>>,
    labels: Option<Seq<Seq<char>>>,
    priority: Option<Seq<char>>,
    assignee: Option<Seq<char>>,
    key: Seq<char>,
)
    ensures
        ({
            let m = present(
                update_entries(summary, description, project, issue_type, labels, priority, assignee),
            );
            &&& member(m, "summary"@) == text_entry(summary)
            &&& member(m, "description"@) == adf_entry(description)
            &&& member(m, "project"@) == key_entry(project)
            &&& member(m, "issuetype"@) == name_entry(issue_type)
            &&& member(m, "labels"@) == labels_entry(labels)
            &&& member(m, "priority"@) == name_entry(priority)
            &&& member(m, "assignee"@) == account_entry(assignee)
            &&& (key != "summary"@ && key != "description"@ && key != "project"@ && key
                != "issuetype"@ && key != "labels"@ && key != "priority"@ && key
                != "assignee"@) ==> member(m, key) is None
        }),
{
    let e = update_entries(summary, description, project, issue_type, labels, priority, assignee);
    lemma_update_keys_distinct(summary, description, project, issue_type, labels, priority, assignee);
    lemma_present_members(e, "summary"@);
    assert(e[0].0 == "summary"@);
    lemma_present_members(e, "description"@);
    assert(e[1].0 == "description"@);
    lemma_present_members(e, "project"@);
    assert(e[2].0 == "project"@);
    lemma_present_members(e, "issuetype"@);
    assert(e[3].0 == "issuetype"@);
    lemma_present_members(e, "labels"@);
    assert(e[4].0 == "labels"@);
    lemma_present_members(e, "priority"@);
    assert(e[5].0 == "priority"@);
    lemma_present_members(e, "assignee"@);
    assert(e[6].0 == "assignee"@);
    lemma_present_members(e, key);
}

/// A create payload holds project, summary, issue type and description (`null` when none was
/// given), each given optional field under its key, and nothing else.
pub proof fn create_payload_holds_given_fields(
    project: Seq<char>,
    summary: Seq<char>,
    description: Option<Seq<char>>,
    issue_type: Option<Seq<char>>,
    parent: Option<Seq<char>>,
    labels: Option<Seq<Seq<char>>>,
    priority: Option<Seq<char>>,
    assignee: Option<Seq<char>>,
    key: Seq<char>,
)
    ensures
        ({
            let m = present(
                create_entries(
                    project,
                    summary,
                    description,
                    issue_type,
                    parent,
                    labels,
                    priority,
                    assignee,
                ),
            );
            &&& member(m, "project"@) == Some(key_ref(project))
            &&& member(m, "summary"@) == Some(JsonV::Str(summary))
            &&& member(m, "issuetype"@) == Some(name_ref(issue_type_name(issue_type, parent)))
            &&& member(m, "description"@) == Some(
                match description {
                    Some(t) => adf_view(t),
                    None => JsonV::Null,
                },
            )
            &&& member(m, "parent"@) == key_entry(parent)
            &&& member(m, "labels"@) == labels_entry(labels)
            &&& member(m, "priority"@) == name_entry(priority)
            &&& member(m, "assignee"@) == account_entry(assignee)
            &&& (key != "project"@ && key != "summary"@ && key != "issuetype"@ && key
                != "description"@ && key != "parent"@ && key != "labels"@ && key != "priority"@
                && key != "assignee"@) ==> member(m, key) is None
        }),
{
    let e = create_entries(
        project,
        summary,
        description,
        issue_type,
        parent,
        labels,
        priority,
        assignee,
    );
    lemma_create_keys_distinct(
        project,
        summary,
        description,
        issue_type,
        parent,
        labels,
        priority,
        assignee,
    );
    lemma_present_members(e, "project"@);
    assert(e[0].0 == "project"@);
    lemma_present_members(e, "summary"@);
    assert(e[1].0 == "summary"@);
    lemma_present_members(e, "issuetype"@);
    assert(e[2].0 == "issuetype"@);
    lemma_present_members(e, "description"@);
    assert(e[3].0 == "description"@);
    lemma_present_members(e, "parent"@);
    assert(e[4].0 == "parent"@);
    lemma_present_members(e, "labels"@);
    assert(e[5].0 == "labels"@);
    lemma_present_members(e, "priority"@);
    assert(e[6].0 == "priority"@);
    lemma_present_members(e, "assignee"@);
    assert(e[7].0 == "assignee"@);
    lemma_present_members(e, key);
}

/// A new issue under a parent, with no issue type asked for, is a "Sub-task".
pub proof fn subtask_by_default_under_parent(
    project: Seq<char>,
    summary: Seq<char>,
    description: Option<Seq<char>>,
    parent: Seq<char>,
    labels: Option<Seq<Seq<char>>>,
    priority: Option<Seq<char>>,
    assignee: Option<Seq<char>>,
)
    ensures
        member(
            present(
                create_entries(
                    project,
                    summary,
                    description,
                    None,
                    Some(parent),
                    labels,
                    priority,
                    assignee,
                ),
            ),
            "issuetype"@,
        ) == Some(name_ref("Sub-task"@)),
{
    create_payload_holds_given_fields(
        project,
        summary,
        description,
        None,
        Some(parent),
        labels,
        priority,
        assignee,
        "issuetype"@,
    );
}

} // verus!
