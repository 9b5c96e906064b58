use vstd::prelude::*;

use crate::auth::{basic_auth, basic_auth_view};
use crate::error::JiraError;
use crate::fields::{create_entries, create_fields, update_entries, update_fields};
use crate::json::{present, push_entry, single, text_of, Json, JsonV};
use crate::link::{link_body, link_view, LinkRelation};
use crate::settings::Settings;
use crate::transition::{apply_body, apply_view, first_named, none_named, transition_id, Transition};

verus! {

/// The HTTP methods that the commands use.
#[derive(Clone, Copy, Debug, PartialEq, Eq, Structural)]
pub enum Method {
    Get,
    Post,
    Put,
}

/// One call to make: method, full address, and the JSON body if there is one.
#[derive(Debug)]
pub struct Request {
    pub method: Method,
    pub url: String,
    pub body: Option<Json>,
}

/// What a client needs to address the server and sign its requests in.
pub struct JiraClient {
    /// The site's address, without a trailing `/`.
    pub base_url: String,
    /// The value of the `Authorization` header.
    pub auth: String,
}

/// The address of a resource of the REST API, version 3.
pub open spec fn api_url(base: Seq<char>, path: Seq<char>) -> Seq<char> {
    base + "/rest/api/3"@ + path
}

/// The path of an issue.
pub open spec fn issue_path(key: Seq<char>) -> Seq<char> {
    "/issue/"@ + key
}

/// The path of an issue's transitions.
pub open spec fn transitions_path(key: Seq<char>) -> Seq<char> {
    "/issue/"@ + key + "/transitions"@
}

/// The body of a search: `{"jql": jql, "maxResults": limit}`.
pub open spec fn search_view(jql: Seq<char>, limit: nat) -> JsonV {
    JsonV::Object(seq![("jql"@, JsonV::Str(jql)), ("maxResults"@, JsonV::Number(limit))])
}

/// The query that lists the sub-tasks of an issue.
pub open spec fn subtasks_view(key: Seq<char>) -> Seq<char> {
    "parent = "@ + key
}

/// The query that lists the sub-tasks of the issue `key`.
pub fn subtasks_jql(key: &str) -> (r: String)
    ensures
        r@ == subtasks_view(key@),
{
    let mut r = String::from_str("parent = ");
    r.append(key);
    r
}

impl Request {
    /// The compact JSON text of the body, if there is one.
    pub fn body_text(&self) -> (r: Option<String>)
        ensures
            match self.body {
                Some(b) => r is Some && r->Some_0@ == text_of(b@),
                None => r is None,
            },
    {
        match &self.body {
            Some(b) => Some(b.to_text()),
            None => None,
        }
    }
}

impl JiraClient {
    /// A client for the site and the account of `settings`.
    pub fn new(settings: &Settings) -> (r: JiraClient)
        ensures
            r.base_url@ == settings.base_url@,
            r.auth@ == basic_auth_view(settings.email@, settings.api_token@),
    {
        JiraClient {
            base_url: settings.base_url.clone(),
            auth: basic_auth(settings.email.as_str(), settings.api_token.as_str()),
        }
    }

    fn url(&self, path: &str) -> (r: String)
        ensures
            r@ == api_url(self.base_url@, path@),
    {
        let mut r = self.base_url.clone();
        r.append("/rest/api/3");
        r.append(path);
        r
    }

    fn issue_url(&self, key: &str) -> (r: String)
        ensures
            r@ == api_url(self.base_url@, issue_path(key@)),
    {
        let mut path = String::from_str("/issue/");
        path.append(key);
        self.url(path.as_str())
    }

    fn transitions_url(&self, key: &str) -> (r: String)
        ensures
            r@ == api_url(self.base_url@, transitions_path(key@)),
    {
        let mut path = String::from_str("/issue/");
        path.append(key);
        path.append("/transitions");
        self.url(path.as_str())
    }

    /// Creates an issue: `POST /issue` with `{"fields": ...}`.
    pub fn create_issue_request(
        &self,
        project_key: &str,
        summary: &str,
        description: Option<String>,
        issue_type: Option<String>,
        parent: Option<String>,
        labels: Option<Vec<String>>,
        priority: Option<String>,
        assignee: Option<String>,
    ) -> (r: Request)
        ensures
            r.method == Method::Post,
            r.url@ == api_url(self.base_url@, "/issue"@),
            r.body is Some,
            r.body->Some_0@ == single(
                "fields"@,
                JsonV::Object(
                    present(
                        create_entries(
                            project_key@,
                            summary@,
                            description.deep_view(),
                            issue_type.deep_view(),
                            parent.deep_view(),
                            labels.deep_view(),
                            priority.deep_view(),
                            assignee.deep_view(),
                        ),
                    ),
                ),
            ),
    {
        let fields = create_fields(
            project_key,
            summary,
            description,
            issue_type,
            parent,
            labels,
            priority,
            assignee,
        );
        Request {
            method: Method::Post,
            url: self.url("/issue"),
            body: Some(Json::single("fields", fields)),
        }
    }

    /// Searches with a query, for at most `limit` issues: `POST /search/jql`.
    pub fn search_request(&self, jql: &str, limit: u32) -> (r: Request)
        ensures
            r.method == Method::Post,
            r.url@ == api_url(self.base_url@, "/search/jql"@),
            r.body is Some,
            r.body->Some_0@ == search_view(jql@, limit as nat),
    {
        let mut m: Vec<(String, Json)> = Vec::new();
        let g = push_entry(&mut m, Ghost(Seq::empty()), "jql", Some(Json::string(jql)));
        let g = push_entry(&mut m, g, "maxResults", Some(Json::Number(limit as u64)));
        proof {
            reveal_with_fuel(present, 3);
            assert(present(g@) =~= search_view(jql@, limit as nat)->Object_0);
        }
        Request { method: Method::Post, url: self.url("/search/jql"), body: Some(Json::Object(m)) }
    }

    /// Fetches an issue: `GET /issue/{key}`.
    pub fn get_issue_request(&self, key: &str) -> (r: Request)
        ensures
            r.method == Method::Get,
            r.url@ == api_url(self.base_url@, issue_path(key@)),
            r.body is None,
    {
        Request { method: Method::Get, url: self.issue_url(key), body: None }
    }

    /// Changes the given fields of an issue: `PUT /issue/{key}` with `{"fields": ...}`. With
    /// no field given there is no request, only the error.
    pub fn update_issue_request(
        &self,
        key: &str,
        summary: Option<String>,
        description: Option<String>,
        project: Option<String>,
        issue_type: Option<String>,
        labels: Option<Vec<String>>,
        priority: Option<String>,
        assignee: Option<String>,
    ) -> (r: Result<Request, JiraError>)
        ensures
            r is Err <==> (summary is None && description is None && project is None
                && issue_type is None && labels is None && priority is None && assignee is None),
            r is Err ==> r->Err_0 is NoUpdateFields,
            r is Ok ==> ({
                let q = r->Ok_0;
                &&& q.method == Method::Put
                &&& q.url@ == api_url(self.base_url@, issue_path(key@))
                &&& q.body is Some
                &&& q.body->Some_0@ == single(
                    "fields"@,
                    JsonV::Object(
                        present(
                            update_entries(
                                summary.deep_view(),
                                description.deep_view(),
                                project.deep_view(),
                                issue_type.deep_view(),
                                labels.deep_view(),
                                priority.deep_view(),
                                assignee.deep_view(),
                            ),
                        ),
                    ),
                )
            }),
    {
        let fields = update_fields(
            summary,
            description,
            project,
            issue_type,
            labels,
            priority,
            assignee,
        )?;
        Ok(
            Request {
                method: Method::Put,
                url: self.issue_url(key),
                body: Some(Json::single("fields", fields)),
            },
        )
    }

    /// Fetches the transitions that an issue offers: `GET /issue/{key}/transitions`.
    pub fn transitions_request(&self, key: &str) -> (r: Request)
        ensures
            r.method == Method::Get,
            r.url@ == api_url(self.base_url@, transitions_path(key@)),
            r.body is None,
    {
        Request { method: Method::Get, url: self.transitions_url(key), body: None }
    }

    /// Applies the transition called `target` (ASCII case aside) from the fetched list:
    /// `POST /issue/{key}/transitions` with the id of the first entry of that name. Where
    /// there is no list, no such entry, or it has no id, there is no request, only the error.
    pub fn transition_request(
        &self,
        key: &str,
        target: &str,
        transitions: &Option<Vec<Transition>>,
    ) -> (r: Result<Request, JiraError>)
        ensures
            transitions is None ==> r is Err && r->Err_0 is NoTransitions,
            transitions is Some && none_named(transitions->Some_0@, target@) ==> r is Err
                && r->Err_0 is TransitionUnavailable && r->Err_0->key@ == key@
                && r->Err_0->target@ == target@,
            forall|i: int|
                transitions is Some && #[trigger] first_named(transitions->Some_0@, target@, i)
                    ==> match transitions->Some_0@[i].id {
                    Some(id) => r is Ok && r->Ok_0.method == Method::Post && r->Ok_0.url@
                        == api_url(self.base_url@, transitions_path(key@)) && r->Ok_0.body is Some
                        && r->Ok_0.body->Some_0@ == apply_view(id@),
                    None => r is Err && r->Err_0 is TransitionUnavailable && r->Err_0->key@
                        == key@ && r->Err_0->target@ == target@,
                },
    {
        let id = transition_id(key, target, transitions)?;
        Ok(
            Request {
                method: Method::Post,
                url: self.transitions_url(key),
                body: Some(apply_body(id.as_str())),
            },
        )
    }

    /// Links two issues: `POST /issueLink` with a link of type "Blocks" whose sides follow
    /// the relation.
    pub fn link_request(&self, relation: LinkRelation, source: &str, target: &str) -> (r: Request)
        ensures
            r.method == Method::Post,
            r.url@ == api_url(self.base_url@, "/issueLink"@),
            r.body is Some,
            r.body->Some_0@ == link_view(relation, source@, target@),
    {
        Request {
            method: Method::Post,
            url: self.url("/issueLink"),
            body: Some(link_body(relation, source, target)),
        }
    }
}

} // verus!
