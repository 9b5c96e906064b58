use jico::error::JiraError;
use jico::request::{JiraClient, Method};
use jico::settings::Settings;
use jico::transition::{apply_body, find_transition, transition_id, Transition};

fn entry(id: Option<&str>, name: Option<&str>) -> Transition {
    Transition { id: id.map(|s| s.to_string()), name: name.map(|s| s.to_string()) }
}

fn listing() -> Vec<Transition> {
    vec![
        entry(Some("11"), Some("To Do")),
        entry(Some("21"), Some("In Progress")),
        entry(Some("31"), Some("Done")),
        entry(Some("41"), Some("done")),
    ]
}

#[test]
fn transition_name_matches_without_case() {
    let list = Some(listing());
    assert_eq!(transition_id("ACME-1", "in progress", &list).unwrap(), "21");
    assert_eq!(transition_id("ACME-1", "IN PROGRESS", &list).unwrap(), "21");
}

#[test]
fn first_matching_transition_is_taken() {
    let list = listing();
    assert_eq!(find_transition(&list, "DONE"), Some(2));
    assert_eq!(transition_id("ACME-1", "done", &Some(list)).unwrap(), "31");
}

#[test]
fn unknown_transition_names_issue_and_target() {
    let list = Some(listing());
    let err = transition_id("ACME-1", "Reopen", &list).unwrap_err();
    assert_eq!(
        err,
        JiraError::TransitionUnavailable { key: "ACME-1".to_string(), target: "Reopen".to_string() }
    );
    assert_eq!(err.message(), "Transition 'Reopen' not available for ACME-1");
}

#[test]
fn unknown_transition_makes_no_request() {
    let settings = Settings::load(
        Some("https://x.atlassian.net".to_string()),
        Some("a@b.c".to_string()),
        Some("t".to_string()),
        None,
        None,
    )
    .unwrap();
    let client = JiraClient::new(&settings);
    let result = client.transition_request("ACME-1", "Reopen", &Some(listing()));
    assert!(matches!(result, Err(JiraError::TransitionUnavailable { .. })));
}

#[test]
fn transition_request_posts_the_id() {
    let settings = Settings::load(
        Some("https://x.atlassian.net".to_string()),
        Some("a@b.c".to_string()),
        Some("t".to_string()),
        None,
        None,
    )
    .unwrap();
    let client = JiraClient::new(&settings);
    let request = client.transition_request("ACME-1", "to do", &Some(listing())).unwrap();
    assert_eq!(request.method, Method::Post);
    assert_eq!(request.url, "https://x.atlassian.net/rest/api/3/issue/ACME-1/transitions");
    assert_eq!(request.body_text().unwrap(), r#"{"transition":{"id":"11"}}"#);
}

#[test]
fn missing_transitions_list_is_an_error() {
    let err = transition_id("ACME-1", "Done", &None).unwrap_err();
    assert_eq!(err, JiraError::NoTransitions);
    assert_eq!(err.message(), "No transitions found in response");
}

#[test]
fn matching_entry_without_id_is_unavailable() {
    let list = Some(vec![entry(None, Some("Done")), entry(Some("31"), Some("Done"))]);
    let err = transition_id("ACME-2", "Done", &list).unwrap_err();
    assert_eq!(
        err,
        JiraError::TransitionUnavailable { key: "ACME-2".to_string(), target: "Done".to_string() }
    );
}

#[test]
fn entries_without_name_are_skipped() {
    let list = vec![entry(Some("5"), None), entry(Some("6"), Some("Done"))];
    assert_eq!(find_transition(&list, "done"), Some(1));
    assert_eq!(find_transition(&Vec::new(), "done"), None);
}

#[test]
fn non_ascii_letters_must_match_exactly() {
    let list = vec![entry(Some("7"), Some("Ärger"))];
    assert_eq!(find_transition(&list, "ärger"), None);
    assert_eq!(find_transition(&list, "ÄRGER"), Some(0));
}

#[test]
fn apply_body_text() {
    assert_eq!(apply_body("711").to_text(), r#"{"transition":{"id":"711"}}"#);
}
