//! The lines that are logged for each request and each answer.

use crate::text::{decimal, decimal_view};
use vstd::prelude::*;
use vstd::string::*;

verus! {

/// Logs requests and answers.
#[derive(Clone, Copy, Debug, PartialEq, Eq, Structural)]
pub struct Logger {}

/// The line for a request.
pub open spec fn request_line_view(method: Seq<char>, path: Seq<char>) -> Seq<char> {
    "HTTP "@ + method + " -> "@ + path
}

/// The line for an answer. `millis` is the time that the answer took, as
/// it is to be shown.
pub open spec fn response_line_view(
    method: Seq<char>,
    path: Seq<char>,
    status: u16,
    millis: Seq<char>,
) -> Seq<char> {
    "HTTP "@ + method + " <- "@ + path + " ["@ + decimal_view(status as nat) + "] ("@ + millis
        + "ms)"@
}

impl Logger {
    /// The line for a request.
    pub fn request_line(&self, method: &str, path: &str) -> (r: String)
        ensures
            r@ == request_line_view(method@, path@),
    {
        let mut line = "HTTP ".to_owned();
        line.append(method);
        line.append(" -> ");
        line.append(path);
        line
    }

    /// The line for an answer.
    pub fn response_line(&self, method: &str, path: &str, status: u16, millis: &str) -> (r:
        String)
        ensures
            r@ == response_line_view(method@, path@, status, millis@),
    {
        let mut line = "HTTP ".to_owned();
        line.append(method);
        line.append(" <- ");
        line.append(path);
        line.append(" [");
        line.append(decimal(status as u64).as_str());
        line.append("] (");
        line.append(millis);
        line.append("ms)");
        line
    }
}

} // verus!
