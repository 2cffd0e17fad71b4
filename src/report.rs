use vstd::prelude::*;

verus! {

/// The exit status of a command that failed.
pub const FAILURE_STATUS: i32 = 1;

/// How a command ended: the process's exit status, and the line for the
/// error stream when it failed.
#[derive(Debug, PartialEq, Eq)]
pub struct Report {
    pub status: i32,
    pub error_line: Option<String>,
}

/// The report of a command: status 0 and nothing on the error stream on
/// success; on failure status 1 and `error: <message>`.
pub fn report(outcome: Result<(), String>) -> (r: Report)
    ensures
        match outcome {
            Ok(()) => r.status == 0 && r.error_line.is_none(),
            Err(message) => r.status == FAILURE_STATUS && r.error_line.is_some()
                && r.error_line.unwrap()@ == "error: "@ + message@,
        },
{
    match outcome {
        Ok(()) => Report { status: 0, error_line: None },
        Err(message) => {
            let mut line = String::from_str("error: ");
            line.append(message.as_str());
            Report { status: FAILURE_STATUS, error_line: Some(line) }
        },
    }
}

} // verus!
