use vstd::prelude::*;
use crate::count::ParseIssue;

verus! {

/// Everything that can go wrong over one invocation: the two argument
/// failures of the count resolver, and the three join-phase failures
/// of the parallel strategy. The `String` payloads carry the
/// diagnostic detail reported for the worker in question.
#[derive(Debug, PartialEq, Eq)]
pub enum UuidError {
    InvalidArgumentCount,
    CountParseError(ParseIssue),
    WorkerFailed(String),
    WorkerPanicked(String),
    ThreadJoinFailed(String),
}

/// The description the count parser gives for each way a token can be
/// rejected.
pub open spec fn issue_text(issue: ParseIssue) -> Seq<char> {
    match issue {
        ParseIssue::Empty => "cannot parse integer from empty string"@,
        ParseIssue::InvalidDigit => "invalid digit found in string"@,
        ParseIssue::Overflow => "number too large to fit in target type"@,
    }
}

/// The diagnostic line of each failure: a fixed label, followed by the
/// wrapped detail where the failure carries one.
pub open spec fn error_message(e: UuidError) -> Seq<char> {
    match e {
        UuidError::InvalidArgumentCount =>
            "Invalid arguments count. Enter the count of UUIDs you want to generate as an argument, or do not enter any arguments if you want to generate only one UUID."@,
        UuidError::CountParseError(issue) =>
            "Parsing of UUID count error: "@ + issue_text(issue),
        UuidError::WorkerFailed(detail) => "Worker failed: "@ + detail@,
        UuidError::WorkerPanicked(detail) => "Thread panicked: "@ + detail@,
        UuidError::ThreadJoinFailed(detail) => "Thread joining error: "@ + detail@,
    }
}

impl UuidError {
    /// Render the diagnostic line for this failure.
    pub fn message(&self) -> (m: String)
        ensures
            m@ == error_message(*self),
    {
        match self {
            UuidError::InvalidArgumentCount => String::from_str(
                "Invalid arguments count. Enter the count of UUIDs you want to generate as an argument, or do not enter any arguments if you want to generate only one UUID.",
            ),
            UuidError::CountParseError(issue) => {
                let detail: &str = match issue {
                    ParseIssue::Empty => "cannot parse integer from empty string",
                    ParseIssue::InvalidDigit => "invalid digit found in string",
                    ParseIssue::Overflow => "number too large to fit in target type",
                };
                String::from_str("Parsing of UUID count error: ").concat(detail)
            },
            UuidError::WorkerFailed(detail) => String::from_str("Worker failed: ").concat(
                detail.as_str(),
            ),
            UuidError::WorkerPanicked(detail) => String::from_str("Thread panicked: ").concat(
                detail.as_str(),
            ),
            UuidError::ThreadJoinFailed(detail) => String::from_str(
                "Thread joining error: ",
            ).concat(detail.as_str()),
        }
    }
}

} // verus!
