use jico::error::JiraError;
use jico::fields::{create_fields, description_to_adf, issue_type_for, update_fields};
use jico::link::LinkRelation;
use jico::request::{subtasks_jql, JiraClient, Method};
use jico::response::response_text;
use jico::settings::Settings;

fn client() -> JiraClient {
    let settings = Settings::load(
        Some("http://127.0.0.1:8080/".to_string()),
        Some("user@example.com".to_string()),
        Some("token".to_string()),
        None,
        None,
    )
    .unwrap();
    JiraClient::new(&settings)
}

fn strings(items: &[&str]) -> Vec<String> {
    items.iter().map(|s| s.to_string()).collect()
}

#[test]
fn cli_create_with_new_fields() {
    let request = client().create_issue_request(
        "ACME",
        "Title",
        Some("Desc".to_string()),
        Some("Task".to_string()),
        None,
        Some(strings(&["bug", "ui"])),
        Some("High".to_string()),
        Some("abc".to_string()),
    );
    assert_eq!(request.method, Method::Post);
    assert_eq!(request.url, "http://127.0.0.1:8080/rest/api/3/issue");
    let expected: serde_json::Value = serde_json::from_str(
        r#"{
            "fields": {
                "project": { "key": "ACME" },
                "summary": "Title",
                "issuetype": { "name": "Task" },
                "description": {
                    "type": "doc",
                    "version": 1,
                    "content": [{
                        "type": "paragraph",
                        "content": [{ "type": "text", "text": "Desc" }]
                    }]
                },
                "labels": ["bug", "ui"],
                "priority": { "name": "High" },
                "assignee": { "accountId": "abc" }
            }
        }"#,
    )
    .unwrap();
    let sent: serde_json::Value = serde_json::from_str(&request.body_text().unwrap()).unwrap();
    assert_eq!(sent, expected);

    let reply = response_text(201, r#"{"id":"10000","key":"ACME-1"}"#.to_string()).unwrap();
    let value: serde_json::Value = serde_json::from_str(&reply).unwrap();
    assert_eq!(value["id"], "10000");
    assert_eq!(value["key"], "ACME-1");
}

#[test]
fn cli_update_with_new_fields() {
    let request = client()
        .update_issue_request(
            "ACME-1",
            Some("New summary".to_string()),
            None,
            None,
            None,
            Some(strings(&["backend"])),
            Some("Medium".to_string()),
            Some("xyz".to_string()),
        )
        .unwrap();
    assert_eq!(request.method, Method::Put);
    assert_eq!(request.url, "http://127.0.0.1:8080/rest/api/3/issue/ACME-1");
    assert_eq!(
        request.body_text().unwrap(),
        r#"{"fields":{"summary":"New summary","labels":["backend"],"priority":{"name":"Medium"},"assignee":{"accountId":"xyz"}}}"#
    );

    let reply = response_text(200, r#"{ "ok": true }"#.to_string()).unwrap();
    let value: serde_json::Value = serde_json::from_str(&reply).unwrap();
    assert_eq!(value["ok"], true);
}

#[test]
fn create_body_text_is_exact() {
    let request = client().create_issue_request(
        "ACME",
        "Title",
        Some("Desc".to_string()),
        None,
        None,
        Some(strings(&["bug", "ui"])),
        Some("High".to_string()),
        Some("abc".to_string()),
    );
    assert_eq!(
        request.body_text().unwrap(),
        r#"{"fields":{"project":{"key":"ACME"},"summary":"Title","issuetype":{"name":"Task"},"description":{"type":"doc","version":1,"content":[{"type":"paragraph","content":[{"type":"text","text":"Desc"}]}]},"labels":["bug","ui"],"priority":{"name":"High"},"assignee":{"accountId":"abc"}}}"#
    );
}

#[test]
fn create_without_optional_fields_sends_null_description() {
    let fields = create_fields("ACME", "Title", None, None, None, None, None, None);
    assert_eq!(
        fields.to_text(),
        r#"{"project":{"key":"ACME"},"summary":"Title","issuetype":{"name":"Task"},"description":null}"#
    );
}

#[test]
fn parent_without_issue_type_makes_a_subtask() {
    let fields = create_fields(
        "ACME",
        "Child",
        None,
        None,
        Some("ACME-7".to_string()),
        None,
        None,
        None,
    );
    assert_eq!(
        fields.to_text(),
        r#"{"project":{"key":"ACME"},"summary":"Child","issuetype":{"name":"Sub-task"},"description":null,"parent":{"key":"ACME-7"}}"#
    );
}

#[test]
fn explicit_issue_type_wins_over_parent() {
    let parent = Some("ACME-7".to_string());
    assert_eq!(issue_type_for(Some("Bug".to_string()), &parent), "Bug");
    assert_eq!(issue_type_for(None, &parent), "Sub-task");
    assert_eq!(issue_type_for(None, &None), "Task");
}

#[test]
fn description_becomes_one_paragraph_document() {
    assert_eq!(
        description_to_adf("Line \"one\"").to_text(),
        r#"{"type":"doc","version":1,"content":[{"type":"paragraph","content":[{"type":"text","text":"Line \"one\""}]}]}"#
    );
}

#[test]
fn update_holds_only_given_fields() {
    let fields = update_fields(
        None,
        Some("Body".to_string()),
        Some("OPS".to_string()),
        Some("Bug".to_string()),
        None,
        None,
        None,
    )
    .unwrap();
    assert_eq!(
        fields.to_text(),
        r#"{"description":{"type":"doc","version":1,"content":[{"type":"paragraph","content":[{"type":"text","text":"Body"}]}]},"project":{"key":"OPS"},"issuetype":{"name":"Bug"}}"#
    );
}

#[test]
fn update_with_no_fields_is_refused() {
    let result = client().update_issue_request("ACME-1", None, None, None, None, None, None, None);
    assert_eq!(result.unwrap_err(), JiraError::NoUpdateFields);
    let fields = update_fields(None, None, None, None, None, None, None);
    assert_eq!(fields.unwrap_err(), JiraError::NoUpdateFields);
}

#[test]
fn update_with_empty_label_list_is_a_change() {
    let fields = update_fields(None, None, None, None, Some(Vec::new()), None, None).unwrap();
    assert_eq!(fields.to_text(), r#"{"labels":[]}"#);
}

#[test]
fn search_request_carries_query_and_limit() {
    let request = client().search_request("project = ACME ORDER BY created DESC", 20);
    assert_eq!(request.method, Method::Post);
    assert_eq!(request.url, "http://127.0.0.1:8080/rest/api/3/search/jql");
    assert_eq!(
        request.body_text().unwrap(),
        r#"{"jql":"project = ACME ORDER BY created DESC","maxResults":20}"#
    );
}

#[test]
fn search_limit_is_written_in_full() {
    let request = client().search_request("x", 4294967295);
    assert_eq!(request.body_text().unwrap(), r#"{"jql":"x","maxResults":4294967295}"#);
}

#[test]
fn get_and_transitions_requests_have_no_body() {
    let c = client();
    let get = c.get_issue_request("ACME-9");
    assert_eq!(get.method, Method::Get);
    assert_eq!(get.url, "http://127.0.0.1:8080/rest/api/3/issue/ACME-9");
    assert!(get.body_text().is_none());
    let list = c.transitions_request("ACME-9");
    assert_eq!(list.method, Method::Get);
    assert_eq!(list.url, "http://127.0.0.1:8080/rest/api/3/issue/ACME-9/transitions");
    assert!(list.body.is_none());
}

#[test]
fn subtasks_query_names_the_parent() {
    assert_eq!(subtasks_jql("ACME-3"), "parent = ACME-3");
}

#[test]
fn blocks_puts_target_outward() {
    let request = client().link_request(LinkRelation::Blocks, "ACME-1", "ACME-2");
    assert_eq!(request.method, Method::Post);
    assert_eq!(request.url, "http://127.0.0.1:8080/rest/api/3/issueLink");
    assert_eq!(
        request.body_text().unwrap(),
        r#"{"type":{"name":"Blocks"},"outwardIssue":{"key":"ACME-2"},"inwardIssue":{"key":"ACME-1"}}"#
    );
}

#[test]
fn blocked_by_puts_source_outward() {
    let request = client().link_request(LinkRelation::BlockedBy, "ACME-1", "ACME-2");
    assert_eq!(
        request.body_text().unwrap(),
        r#"{"type":{"name":"Blocks"},"outwardIssue":{"key":"ACME-1"},"inwardIssue":{"key":"ACME-2"}}"#
    );
}

#[test]
fn relation_names() {
    assert_eq!(LinkRelation::from_name("blocks"), Some(LinkRelation::Blocks));
    assert_eq!(LinkRelation::from_name("blocked-by"), Some(LinkRelation::BlockedBy));
    assert_eq!(LinkRelation::from_name("Blocks"), None);
    assert_eq!(LinkRelation::from_name("relates"), None);
    assert_eq!(LinkRelation::from_name(""), None);
}

#[test]
fn client_signs_in_with_basic_auth() {
    let c = client();
    assert_eq!(c.base_url, "http://127.0.0.1:8080");
    assert_eq!(c.auth, "Basic dXNlckBleGFtcGxlLmNvbTp0b2tlbg==");
}
