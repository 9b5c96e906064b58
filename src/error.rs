use vstd::prelude::*;

use crate::text::{decimal, decimal_text};

verus! {

/// Why a command could not be carried out.
#[derive(Clone, Debug, PartialEq, Eq)]
pub enum JiraError {
    /// A required setting was not given; `name` is the variable that holds it.
    MissingSetting { name: String },
    /// No project key was passed and none is configured.
    MissingProject,
    /// No query was passed and neither a default query nor a project key is configured.
    MissingJql,
    /// An update named no field to change.
    NoUpdateFields,
    /// The transitions response held no list of transitions.
    NoTransitions,
    /// No transition of the issue `key` is called `target`.
    TransitionUnavailable { key: String, target: String },
    /// The server answered with a status outside 200..=299.
    Status { status: u16, body: String },
}

/// The text that reports an error.
pub open spec fn message_view(e: JiraError) -> Seq<char> {
    match e {
        JiraError::MissingSetting { name } => "Missing "@ + name@
            + " (set in environment or .env)"@,
        JiraError::MissingProject => "Project key is required (pass --project or set JIRA_PROJECT_KEY)"@,
        JiraError::MissingJql => "Provide --jql or configure a project key"@,
        JiraError::NoUpdateFields => "Provide at least one field to update (--summary, --description, --project, --issue-type, --labels, --priority, --assignee)"@,
        JiraError::NoTransitions => "No transitions found in response"@,
        JiraError::TransitionUnavailable { key, target } => "Transition '"@ + target@
            + "' not available for "@ + key@,
        JiraError::Status { status, body } => "Jira returned error status "@ + decimal(
            status as nat,
        ) + ": "@ + body@,
    }
}

impl JiraError {
    /// The text that reports this error.
    pub fn message(&self) -> (r: String)
        ensures
            r@ == message_view(*self),
    {
        match self {
            JiraError::MissingSetting { name } => {
                let mut r = String::from_str("Missing ");
                r.append(name.as_str());
                r.append(" (set in environment or .env)");
                r
            },
            JiraError::MissingProject => String::from_str(
                "Project key is required (pass --project or set JIRA_PROJECT_KEY)",
            ),
            JiraError::MissingJql => String::from_str("Provide --jql or configure a project key"),
            JiraError::NoUpdateFields => String::from_str(
                "Provide at least one field to update (--summary, --description, --project, --issue-type, --labels, --priority, --assignee)",
            ),
            JiraError::NoTransitions => String::from_str("No transitions found in response"),
            JiraError::TransitionUnavailable { key, target } => {
                let mut r = String::from_str("Transition '");
                r.append(target.as_str());
                r.append("' not available for ");
                r.append(key.as_str());
                r
            },
            JiraError::Status { status, body } => {
                let mut r = String::from_str("Jira returned error status ");
                r.append(decimal_text(*status as u64).as_str());
                r.append(": ");
                r.append(body.as_str());
                r
            },
        }
    }
}

} // verus!
