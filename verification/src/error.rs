use vstd::prelude::*;

verus! {

/// Errors that the agent's own logic reports.
///
/// Failures of the store, of HTTP and of JSON encoding come from outside
/// crates and are carried by the application's error type, which wraps this one.
#[derive(Debug)]
pub enum AgentError {
    /// A configuration did not pass validation.
    Config(String),
    /// Collecting metrics failed.
    Metrics(String),
    /// Probing a target failed.
    Ping(String),
}

/// The human-readable form of an error: a prefix naming its kind, then its message.
pub open spec fn error_text(e: AgentError) -> Seq<char> {
    match e {
        AgentError::Config(m) => "config error: "@ + m@,
        AgentError::Metrics(m) => "metrics collection failed: "@ + m@,
        AgentError::Ping(m) => "ping error: "@ + m@,
    }
}

impl AgentError {
    /// Renders the error as text, as its `Display` form does.
    pub fn describe(&self) -> (text: String)
        ensures
            text@ == error_text(*self),
            self matches AgentError::Config(m) ==> text@ == "config error: "@ + m@,
            self matches AgentError::Metrics(m) ==> text@ == "metrics collection failed: "@ + m@,
            self matches AgentError::Ping(m) ==> text@ == "ping error: "@ + m@,
    {
        match self {
            AgentError::Config(m) => "config error: ".to_owned().concat(m.as_str()),
            AgentError::Metrics(m) => "metrics collection failed: ".to_owned().concat(m.as_str()),
            AgentError::Ping(m) => "ping error: ".to_owned().concat(m.as_str()),
        }
    }
}

} // verus!
