use vstd::prelude::*;

use crate::error::AgentError;

verus! {

/// The agent's configuration.
#[derive(Debug)]
pub struct AgentConfig {
    /// How often the agent collects and reports metrics, in seconds.
    pub interval_secs: u64,
    /// Hosts to probe for latency (e.g. ["8.8.8.8", "1.1.1.1"]).
    pub ping_targets: Vec<String>,
    /// URL of the collector service.
    pub collector_url: String,
    /// Unique identifier for this agent instance.
    pub agent_id: String,
}

/// The mathematical value of an [`AgentConfig`]: its strings as character sequences.
pub struct AgentConfigView {
    pub interval_secs: u64,
    pub ping_targets: Seq<Seq<char>>,
    pub collector_url: Seq<char>,
    pub agent_id: Seq<char>,
}

impl View for AgentConfig {
    type V = AgentConfigView;

    open spec fn view(&self) -> AgentConfigView {
        AgentConfigView {
            interval_secs: self.interval_secs,
            ping_targets: self.ping_targets.deep_view(),
            collector_url: self.collector_url@,
            agent_id: self.agent_id@,
        }
    }
}

/// The reasons a configuration is rejected, in the order they are checked.
pub enum ConfigFault {
    ZeroInterval,
    EmptyCollectorUrl,
    EmptyAgentId,
}

impl AgentConfigView {
    /// The first rule that the configuration breaks, if any.
    pub open spec fn first_fault(self) -> Option<ConfigFault> {
        if self.interval_secs == 0 {
            Some(ConfigFault::ZeroInterval)
        } else if self.collector_url.len() == 0 {
            Some(ConfigFault::EmptyCollectorUrl)
        } else if self.agent_id.len() == 0 {
            Some(ConfigFault::EmptyAgentId)
        } else {
            None
        }
    }

    /// A configuration is valid when it breaks none of the rules.
    pub open spec fn is_valid(self) -> bool {
        self.first_fault() is None
    }
}

/// The message reported for each rule.
pub open spec fn fault_message(f: ConfigFault) -> Seq<char> {
    match f {
        ConfigFault::ZeroInterval => "interval_secs must be greater than 0"@,
        ConfigFault::EmptyCollectorUrl => "collector_url must not be empty"@,
        ConfigFault::EmptyAgentId => "agent_id must not be empty"@,
    }
}

/// What validating a configuration reports: nothing when it is valid, otherwise
/// a configuration error carrying the message of the first broken rule.
pub open spec fn validation_outcome(c: AgentConfigView, r: Result<(), AgentError>) -> bool {
    match c.first_fault() {
        None => r is Ok,
        Some(f) => r matches Err(AgentError::Config(m)) && m@ == fault_message(f),
    }
}

/// The configuration an agent starts with when none is given.
pub open spec fn default_config() -> AgentConfigView {
    AgentConfigView {
        interval_secs: 30,
        ping_targets: seq!["8.8.8.8"@],
        collector_url: "http://localhost:3000"@,
        agent_id: "agent-001"@,
    }
}

/// The default configuration passes validation.
pub proof fn lemma_default_config_is_valid()
    ensures
        default_config().is_valid(),
{
    reveal_strlit("http://localhost:3000");
    reveal_strlit("agent-001");
}

/// A configuration is valid exactly when its interval is positive and its
/// collector URL and agent id are not empty; any positive interval passes.
pub proof fn lemma_valid_iff(c: AgentConfigView)
    ensures
        c.is_valid() <==> (c.interval_secs > 0 && c.collector_url.len() > 0 && c.agent_id.len() > 0),
        c.interval_secs > 0 ==> c.first_fault() != Some(ConfigFault::ZeroInterval),
        c.interval_secs == 0 ==> c.first_fault() == Some(ConfigFault::ZeroInterval),
{
}

/// Each rule is reported with its own message, naming the field it is about.
pub proof fn lemma_fault_messages()
    ensures
        fault_message(ConfigFault::ZeroInterval) == "interval_secs must be greater than 0"@,
        fault_message(ConfigFault::EmptyCollectorUrl) == "collector_url must not be empty"@,
        fault_message(ConfigFault::EmptyAgentId) == "agent_id must not be empty"@,
{
}

/// Copies a list of strings, keeping every character.
pub fn copy_strings(v: &Vec<String>) -> (r: Vec<String>)
    ensures
        r.deep_view() == v.deep_view(),
{
    let mut r: Vec<String> = Vec::new();
    let n = v.len();
    for i in 0..n
        invariant
            n == v.len(),
            r.len() == i,
            forall|j: int| 0 <= j < i ==> #[trigger] r[j]@ == v[j]@,
    {
        r.push(v[i].clone());
    }
    assert(r.deep_view() =~= v.deep_view());
    r
}

/// Compares two lists of strings character by character.
pub fn same_strings(a: &Vec<String>, b: &Vec<String>) -> (r: bool)
    ensures
        r == (a.deep_view() == b.deep_view()),
{
    if a.len() != b.len() {
        assert(a.deep_view().len() != b.deep_view().len());
        return false;
    }
    let n = a.len();
    for i in 0..n
        invariant
            n == a.len(),
            n == b.len(),
            forall|j: int| 0 <= j < i ==> #[trigger] a[j]@ == b[j]@,
    {
        if a[i] != b[i] {
            assert(a.deep_view()[i as int] != b.deep_view()[i as int]);
            return false;
        }
    }
    assert(a.deep_view() =~= b.deep_view());
    true
}

impl AgentConfig {
    /// Checks the configuration: the interval must be positive, and the
    /// collector URL and the agent id must not be empty. The first rule broken
    /// is the one reported.
    pub fn validate(&self) -> (r: Result<(), AgentError>)
        ensures
            validation_outcome(self@, r),
            r is Ok <==> self@.is_valid(),
            r is Ok <==> (self.interval_secs > 0 && self.collector_url@.len() > 0
                && self.agent_id@.len() > 0),
            self.interval_secs == 0 ==> (r matches Err(AgentError::Config(m))
                && m@ == "interval_secs must be greater than 0"@),
            self.interval_secs > 0 && self.collector_url@.len() == 0 ==> (r matches Err(
                AgentError::Config(m),
            ) && m@ == "collector_url must not be empty"@),
            self.interval_secs > 0 && self.collector_url@.len() > 0 && self.agent_id@.len() == 0
                ==> (r matches Err(AgentError::Config(m)) && m@ == "agent_id must not be empty"@),
    {
        if self.interval_secs == 0 {
            return Err(AgentError::Config("interval_secs must be greater than 0".to_owned()));
        }
        if self.collector_url.as_str().is_empty() {
            return Err(AgentError::Config("collector_url must not be empty".to_owned()));
        }
        if self.agent_id.as_str().is_empty() {
            return Err(AgentError::Config("agent_id must not be empty".to_owned()));
        }
        Ok(())
    }

    /// Compares two configurations field by field.
    pub fn same_as(&self, other: &AgentConfig) -> (r: bool)
        ensures
            r == (self@ == other@),
            r == (self.interval_secs == other.interval_secs && self.ping_targets.deep_view()
                == other.ping_targets.deep_view() && self.collector_url@ == other.collector_url@
                && self.agent_id@ == other.agent_id@),
    {
        self.interval_secs == other.interval_secs
            && same_strings(&self.ping_targets, &other.ping_targets)
            && self.collector_url == other.collector_url
            && self.agent_id == other.agent_id
    }
}

impl Clone for AgentConfig {
    fn clone(&self) -> (r: Self)
        ensures
            r@ == self@,
            r.interval_secs == self.interval_secs,
            r.ping_targets.deep_view() == self.ping_targets.deep_view(),
            r.collector_url@ == self.collector_url@,
            r.agent_id@ == self.agent_id@,
    {
        AgentConfig {
            interval_secs: self.interval_secs,
            ping_targets: copy_strings(&self.ping_targets),
            collector_url: self.collector_url.clone(),
            agent_id: self.agent_id.clone(),
        }
    }
}

impl Default for AgentConfig {
    fn default() -> (r: Self)
        ensures
            r@ == default_config(),
            r.interval_secs == 30,
            r.ping_targets@.len() == 1,
            r.ping_targets@[0]@ == "8.8.8.8"@,
            r.collector_url@ == "http://localhost:3000"@,
            r.agent_id@ == "agent-001"@,
    {
        let targets = vec!["8.8.8.8".to_owned()];
        let r = AgentConfig {
            interval_secs: 30,
            ping_targets: targets,
            collector_url: "http://localhost:3000".to_owned(),
            agent_id: "agent-001".to_owned(),
        };
        assert(r@.ping_targets =~= default_config().ping_targets);
        r
    }
}

impl PartialEq for AgentConfig {
    fn eq(&self, other: &Self) -> (r: bool) {
        self.same_as(other)
    }
}

impl vstd::std_specs::cmp::PartialEqSpecImpl for AgentConfig {
    open spec fn obeys_eq_spec() -> bool {
        true
    }

    open spec fn eq_spec(&self, other: &AgentConfig) -> bool {
        self@ == other@
    }
}

} // verus!
