use jico::error::JiraError;
use jico::settings::{required_setting, resolve_jql, resolve_project, Settings};

fn settings(project: Option<&str>, jql: Option<&str>) -> Settings {
    Settings::load(
        Some("https://acme.atlassian.net".to_string()),
        Some("me@acme.io".to_string()),
        Some("SECRET-REDACTED".to_string()),
        project.map(|s| s.to_string()),
        jql.map(|s| s.to_string()),
    )
    .unwrap()
}

#[test]
fn trailing_slashes_are_cut_from_the_address() {
    let s = Settings::load(
        Some("https://acme.atlassian.net///".to_string()),
        Some("me@acme.io".to_string()),
        Some("t".to_string()),
        None,
        None,
    )
    .unwrap();
    assert_eq!(s.base_url, "https://acme.atlassian.net");
    let bare = Settings::load(Some("/".to_string()), Some("e".to_string()), Some("t".to_string()), None, None)
        .unwrap();
    assert_eq!(bare.base_url, "");
}

#[test]
fn required_settings_are_checked_in_order() {
    let none = Settings::load(None, None, None, None, None).unwrap_err();
    assert_eq!(none, JiraError::MissingSetting { name: "JIRA_BASE_URL".to_string() });
    assert_eq!(none.message(), "Missing JIRA_BASE_URL (set in environment or .env)");
    let no_email = Settings::load(Some("u".to_string()), None, Some("t".to_string()), None, None)
        .unwrap_err();
    assert_eq!(no_email, JiraError::MissingSetting { name: "JIRA_EMAIL".to_string() });
    let no_token = Settings::load(Some("u".to_string()), Some("e".to_string()), None, None, None)
        .unwrap_err();
    assert_eq!(no_token, JiraError::MissingSetting { name: "JIRA_API_TOKEN".to_string() });
}

#[test]
fn required_setting_passes_a_value_through() {
    assert_eq!(required_setting("X", Some("v".to_string())).unwrap(), "v");
    assert_eq!(
        required_setting("X", None).unwrap_err(),
        JiraError::MissingSetting { name: "X".to_string() }
    );
}

#[test]
fn optional_settings_are_kept() {
    let s = settings(Some("ACME"), Some("assignee = currentUser()"));
    assert_eq!(s.project_key.as_deref(), Some("ACME"));
    assert_eq!(s.default_jql.as_deref(), Some("assignee = currentUser()"));
    assert_eq!(s.email, "me@acme.io");
    assert_eq!(s.api_token, "SECRET-REDACTED");
}

#[test]
fn project_override_wins() {
    let s = settings(Some("ACME"), None);
    assert_eq!(resolve_project(&s, Some("OPS".to_string())).unwrap(), "OPS");
    assert_eq!(resolve_project(&s, None).unwrap(), "ACME");
}

#[test]
fn missing_project_is_an_error() {
    let err = resolve_project(&settings(None, None), None).unwrap_err();
    assert_eq!(err, JiraError::MissingProject);
    assert_eq!(err.message(), "Project key is required (pass --project or set JIRA_PROJECT_KEY)");
}

#[test]
fn jql_falls_back_in_order() {
    let s = settings(Some("ACME"), Some("status = Open"));
    assert_eq!(resolve_jql(&s, Some("key = A-1".to_string()), None).unwrap(), "key = A-1");
    assert_eq!(resolve_jql(&s, None, Some("OPS".to_string())).unwrap(), "status = Open");
    let p = settings(Some("ACME"), None);
    assert_eq!(
        resolve_jql(&p, None, Some("OPS".to_string())).unwrap(),
        "project = OPS ORDER BY created DESC"
    );
    assert_eq!(resolve_jql(&p, None, None).unwrap(), "project = ACME ORDER BY created DESC");
}

#[test]
fn missing_jql_is_an_error() {
    let err = resolve_jql(&settings(None, None), None, None).unwrap_err();
    assert_eq!(err, JiraError::MissingJql);
    assert_eq!(err.message(), "Provide --jql or configure a project key");
}

#[test]
fn no_update_fields_message() {
    assert_eq!(
        JiraError::NoUpdateFields.message(),
        "Provide at least one field to update (--summary, --description, --project, --issue-type, --labels, --priority, --assignee)"
    );
}
