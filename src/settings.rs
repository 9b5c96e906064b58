use vstd::prelude::*;

use crate::error::JiraError;
use crate::text::{trim_slashes, trim_trailing_slashes};

verus! {

/// Where the server is, who signs in, and the defaults that commands fall back on.
#[derive(Clone, Debug)]
pub struct Settings {
    /// The site's address, without a trailing `/`.
    pub base_url: String,
    pub email: String,
    pub api_token: String,
    pub project_key: Option<String>,
    pub default_jql: Option<String>,
}

/// The query that lists a project's issues, newest first.
pub open spec fn project_jql(key: Seq<char>) -> Seq<char> {
    "project = "@ + key + " ORDER BY created DESC"@
}

/// The value of a required setting, or the error that names the missing variable.
pub fn required_setting(name: &str, value: Option<String>) -> (r: Result<String, JiraError>)
    ensures
        match value {
            Some(v) => r is Ok && r->Ok_0@ == v@,
            None => r is Err && r->Err_0 is MissingSetting && r->Err_0->name@ == name@,
        },
{
    match value {
        Some(v) => Ok(v),
        None => Err(JiraError::MissingSetting { name: String::from_str(name) }),
    }
}

impl Settings {
    /// Settings from the values of `JIRA_BASE_URL`, `JIRA_EMAIL`, `JIRA_API_TOKEN`,
    /// `JIRA_PROJECT_KEY` and `JIRA_DEFAULT_JQL`. The first three are required, in that
    /// order; trailing slashes are cut from the address.
    pub fn load(
        base_url: Option<String>,
        email: Option<String>,
        api_token: Option<String>,
        project_key: Option<String>,
        default_jql: Option<String>,
    ) -> (r: Result<Settings, JiraError>)
        ensures
            base_url is None ==> r is Err && r->Err_0 is MissingSetting && r->Err_0->name@
                == "JIRA_BASE_URL"@,
            base_url is Some && email is None ==> r is Err && r->Err_0 is MissingSetting
                && r->Err_0->name@ == "JIRA_EMAIL"@,
            base_url is Some && email is Some && api_token is None ==> r is Err
                && r->Err_0 is MissingSetting && r->Err_0->name@ == "JIRA_API_TOKEN"@,
            base_url is Some && email is Some && api_token is Some ==> r is Ok && ({
                let s = r->Ok_0;
                &&& s.base_url@ == trim_slashes(base_url->Some_0@)
                &&& s.email@ == email->Some_0@
                &&& s.api_token@ == api_token->Some_0@
                &&& s.project_key.deep_view() == project_key.deep_view()
                &&& s.default_jql.deep_view() == default_jql.deep_view()
            }),
    {
        let base_url = required_setting("JIRA_BASE_URL", base_url)?;
        let email = required_setting("JIRA_EMAIL", email)?;
        let api_token = required_setting("JIRA_API_TOKEN", api_token)?;
        Ok(Settings {
            base_url: trim_trailing_slashes(base_url.as_str()),
            email,
            api_token,
            project_key,
            default_jql,
        })
    }
}

/// The project key to use: the one passed, else the configured one.
pub fn resolve_project(settings: &Settings, override_key: Option<String>) -> (r: Result<
    String,
    JiraError,
>)
    ensures
        match override_key {
            Some(k) => r is Ok && r->Ok_0@ == k@,
            None => match settings.project_key {
                Some(k) => r is Ok && r->Ok_0@ == k@,
                None => r is Err && r->Err_0 is MissingProject,
            },
        },
{
    match override_key {
        Some(k) => Ok(k),
        None => match &settings.project_key {
            Some(k) => Ok(k.clone()),
            None => Err(JiraError::MissingProject),
        },
    }
}

/// The query that `list` runs: the one passed, else the configured default, else the
/// newest-first listing of the resolved project.
pub fn resolve_jql(settings: &Settings, jql: Option<String>, project: Option<String>) -> (r: Result<
    String,
    JiraError,
>)
    ensures
        match jql {
            Some(q) => r is Ok && r->Ok_0@ == q@,
            None => match settings.default_jql {
                Some(q) => r is Ok && r->Ok_0@ == q@,
                None => match project {
                    Some(k) => r is Ok && r->Ok_0@ == project_jql(k@),
                    None => match settings.project_key {
                        Some(k) => r is Ok && r->Ok_0@ == project_jql(k@),
                        None => r is Err && r->Err_0 is MissingJql,
                    },
                },
            },
        },
{
    match jql {
        Some(q) => Ok(q),
        None => match &settings.default_jql {
            Some(q) => Ok(q.clone()),
            None => match resolve_project(settings, project) {
                Ok(k) => {
                    let mut q = String::from_str("project = ");
                    q.append(k.as_str());
                    q.append(" ORDER BY created DESC");
                    Ok(q)
                },
                Err(_) => Err(JiraError::MissingJql),
            },
        },
    }
}

} // verus!
