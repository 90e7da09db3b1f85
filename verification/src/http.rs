//! The HTTP endpoints that keep a function host or a container awake.
use vstd::prelude::*;

verus! {

/// The port of the function host's custom handler when the host names none.
pub const FUNCTION_HOST_DEFAULT_PORT: u16 = 3000;

/// The port of the container's endpoint when none is configured.
pub const CONTAINER_DEFAULT_PORT: u16 = 80;

/// How long the timer trigger holds the function awake, in seconds.
pub const TIMER_HOLD_SECS: u64 = 60;

/// How long the function host's sleep endpoint waits, in seconds.
pub const SLEEP_SECS: u64 = 10;

/// The answer to a function-host invocation: outputs and return value as
/// JSON text, and log lines.
#[derive(Debug, Clone, PartialEq, Eq)]
pub struct InvokeResponse {
    pub outputs: Option<String>,
    pub logs: Vec<String>,
    pub return_value: Option<String>,
}

/// The log line of a timer run.
pub open spec fn timer_log_line() -> Seq<char> {
    "Rust timer function executed successfully"@
}

/// The answer to the timer trigger: no outputs, no return value, and one log
/// line.
pub fn timer_response() -> (r: InvokeResponse)
    ensures
        r.outputs is None,
        r.return_value is None,
        r.logs@.len() == 1,
        r.logs@[0]@ == timer_log_line(),
{
    let mut logs: Vec<String> = Vec::new();
    logs.push(String::from_str("Rust timer function executed successfully"));
    InvokeResponse { outputs: None, logs, return_value: None }
}

/// The body that the sleep endpoints answer with once they have waited.
pub fn sleep_reply() -> (s: &'static str)
    ensures
        s@ == "Hello, World!"@,
{
    "Hello, World!"
}

} // verus!
