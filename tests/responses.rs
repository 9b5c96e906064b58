use jico::error::JiraError;
use jico::response::{response_text, success};

#[test]
fn empty_body_reads_as_empty_object() {
    assert_eq!(response_text(204, String::new()).unwrap(), "{}");
    assert_eq!(response_text(200, " \n\t\r".to_string()).unwrap(), "{}");
}

#[test]
fn body_of_success_is_kept() {
    assert_eq!(response_text(200, "[1,2]".to_string()).unwrap(), "[1,2]");
}

#[test]
fn error_status_carries_status_and_body() {
    let err = response_text(404, r#"{"errorMessages":["Issue does not exist"]}"#.to_string())
        .unwrap_err();
    assert_eq!(
        err,
        JiraError::Status {
            status: 404,
            body: r#"{"errorMessages":["Issue does not exist"]}"#.to_string()
        }
    );
    assert_eq!(
        err.message(),
        r#"Jira returned error status 404: {"errorMessages":["Issue does not exist"]}"#
    );
}

#[test]
fn empty_body_on_error_is_still_an_error() {
    let err = response_text(500, String::new()).unwrap_err();
    assert_eq!(err.message(), "Jira returned error status 500: ");
}

#[test]
fn success_range_bounds() {
    assert!(!success(199));
    assert!(success(200));
    assert!(success(299));
    assert!(!success(300));
    assert!(!success(0));
    assert!(!success(65535));
}
