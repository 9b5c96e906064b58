use vstd::prelude::*;

use crate::error::JiraError;
use crate::text::{blank, is_blank};

verus! {

/// A status in 200..=299.
pub open spec fn is_success(status: u16) -> bool {
    200 <= status <= 299
}

/// The JSON text that a response stands for: its body, or `{}` where the body is empty or
/// white space alone.
pub open spec fn reply_text(body: Seq<char>) -> Seq<char> {
    if is_blank(body) {
        "{}"@
    } else {
        body
    }
}

/// A successful reply whose body is empty, or white space alone, stands for the empty
/// object `{}`.
pub proof fn blank_body_reads_as_empty_object(body: Seq<char>)
    requires
        is_blank(body),
    ensures
        reply_text(body) == "{}"@,
{
}

/// Whether a status reports success.
pub fn success(status: u16) -> (r: bool)
    ensures
        r == is_success(status),
{
    200 <= status && status <= 299
}

/// The JSON text of a response: an error carrying status and body where the status is not a
/// success, else the body, with an empty body read as the empty object.
pub fn response_text(status: u16, body: String) -> (r: Result<String, JiraError>)
    ensures
        !is_success(status) ==> r is Err && r->Err_0 is Status && r->Err_0->status == status
            && r->Err_0->body@ == body@,
        is_success(status) ==> r is Ok && r->Ok_0@ == reply_text(body@),
{
    if !success(status) {
        Err(JiraError::Status { status, body })
    } else if blank(body.as_str()) {
        Ok(String::from_str("{}"))
    } else {
        Ok(body)
    }
}

} // verus!
