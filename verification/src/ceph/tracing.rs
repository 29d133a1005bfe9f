//! The line that is logged of each request.

use crate::ceph::Delivery;
use reqwest::StatusCode;
use vstd::prelude::*;

verus! {

/// The stage that reports each request once it has ended.
#[derive(Debug, Clone, Copy, PartialEq, Eq, Structural)]
pub struct TracingMiddleware;

/// What `http` writes for a status: its number and its canonical reason
/// phrase, such as `200 OK`.
pub uninterp spec fn status_line(code: u16) -> Seq<char>;

/// A number that can be the status of an answer.
pub open spec fn is_status(code: u16) -> bool {
    100 <= code <= 999
}

/// Calls `StatusCode::from_u16` of `http`, by its name in `reqwest`, and
/// `to_string` on the status it gives. The contract claims that there is a
/// status, and with it a text, exactly for the numbers from 100 to 999, and
/// that the text is the one that `status_line` names.
#[verifier::external_body]
pub(crate) fn status_text(code: u16) -> (text: Option<String>)
    ensures
        text is Some <==> is_status(code),
        text matches Some(t) ==> t@ == status_line(code),
{
    StatusCode::from_u16(code).ok().map(|status| status.to_string())
}

/// How the end of a request is reported: an answer by its status, and
/// whatever is no answer as `(error)`.
pub open spec fn outcome_text(outcome: Delivery) -> Seq<char> {
    match outcome {
        Delivery::Response { status } => if is_status(status) {
            status_line(status)
        } else {
            "(error)"@
        },
        Delivery::Failed { .. } => "(error)"@,
    }
}

/// The line for a request: its method, its address, a dash and its outcome.
pub open spec fn trace_line(method: Seq<char>, url: Seq<char>, outcome: Delivery) -> Seq<char> {
    method + " "@ + url + " - "@ + outcome_text(outcome)
}

impl TracingMiddleware {
    /// Writes the line that reports a request that has ended.
    pub fn handle(&self, method: &str, url: &str, outcome: Delivery) -> (line: String)
        ensures
            line@ == trace_line(method@, url@, outcome),
    {
        let mut line = String::from_str(method);
        line.append(" ");
        line.append(url);
        line.append(" - ");
        let answered = match outcome {
            Delivery::Response { status } => status_text(status),
            Delivery::Failed { .. } => None,
        };
        match answered {
            Some(text) => line.append(text.as_str()),
            None => line.append("(error)"),
        }
        line
    }
}

} // verus!
