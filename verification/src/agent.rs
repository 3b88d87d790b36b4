use vstd::prelude::*;

use crate::client::{RemoteConfig, RemoteConfigView};
use crate::config::{copy_strings, validation_outcome, AgentConfig, AgentConfigView};
use crate::error::AgentError;

verus! {

// ---------------------------------------------------------------------------
// Applying a configuration override
// ---------------------------------------------------------------------------

/// The configuration that results from laying `remote` over `current`: each
/// field the override holds replaces the current one.
pub open spec fn merged(current: AgentConfigView, remote: RemoteConfigView) -> AgentConfigView {
    AgentConfigView {
        interval_secs: match remote.interval_secs {
            Some(secs) => secs,
            None => current.interval_secs,
        },
        ping_targets: match remote.ping_targets {
            Some(targets) => targets,
            None => current.ping_targets,
        },
        collector_url: current.collector_url,
        agent_id: current.agent_id,
    }
}

/// What to do with a configuration override.
pub enum ConfigPlan {
    /// The override changes nothing: no write.
    Unchanged,
    /// The override yields this valid, different configuration: persist it,
    /// then make it active.
    Persist(AgentConfig),
    /// The override yields an invalid configuration, for this reason: fall back
    /// to the last known-good configuration.
    Revert(AgentError),
}

/// Lays `remote` over `current`.
pub fn merge_remote(current: &AgentConfig, remote: RemoteConfig) -> (r: AgentConfig)
    ensures
        r@ == merged(current@, remote@),
        r.interval_secs == (match remote.interval_secs {
            Some(secs) => secs,
            None => current.interval_secs,
        }),
        r.ping_targets.deep_view() == (match remote.ping_targets {
            Some(targets) => targets.deep_view(),
            None => current.ping_targets.deep_view(),
        }),
        r.collector_url@ == current.collector_url@,
        r.agent_id@ == current.agent_id@,
{
    let mut candidate = current.clone();
    if let Some(secs) = remote.interval_secs {
        candidate.interval_secs = secs;
    }
    if let Some(targets) = remote.ping_targets {
        candidate.ping_targets = targets;
    }
    candidate
}

/// Decides what an override does to the configuration `current`: a candidate
/// that fails validation is refused with the validation error; a valid
/// candidate equal to `current` needs no write; any other valid candidate is
/// to be persisted and applied.
pub fn plan_config_update(current: &AgentConfig, remote: RemoteConfig) -> (p: ConfigPlan)
    ensures
        ({
            let c = merged(current@, remote@);
            match p {
                ConfigPlan::Unchanged => c.is_valid() && c == current@,
                ConfigPlan::Persist(cfg) => c.is_valid() && c != current@ && cfg@ == c,
                ConfigPlan::Revert(e) => !c.is_valid() && validation_outcome(c, Err(e)),
            }
        }),
        ({
            let interval = match remote.interval_secs {
                Some(secs) => secs,
                None => current.interval_secs,
            };
            let targets = match remote.ping_targets {
                Some(t) => t.deep_view(),
                None => current.ping_targets.deep_view(),
            };
            let valid = interval > 0 && current.collector_url@.len() > 0
                && current.agent_id@.len() > 0;
            &&& p is Revert <==> !valid
            &&& p is Unchanged <==> (valid && interval == current.interval_secs && targets
                == current.ping_targets.deep_view())
            &&& p matches ConfigPlan::Persist(cfg) ==> (cfg.interval_secs == interval
                && cfg.ping_targets.deep_view() == targets && cfg.collector_url@
                == current.collector_url@ && cfg.agent_id@ == current.agent_id@)
        }),
{
    let candidate = merge_remote(current, remote);
    match candidate.validate() {
        Ok(()) => {
            if candidate.same_as(current) {
                ConfigPlan::Unchanged
            } else {
                ConfigPlan::Persist(candidate)
            }
        },
        Err(e) => ConfigPlan::Revert(e),
    }
}

// ---------------------------------------------------------------------------
// The agent's cycle
// ---------------------------------------------------------------------------

/// What reading the last known-good configuration from the store gave.
pub enum StoredConfig {
    Found(AgentConfig),
    Missing,
    Unreadable,
}

/// What the agent is told happened since its last action.
pub enum Event {
    /// The pause between cycles is over (or the agent has just started).
    Tick,
    /// Metrics were collected and shipped, or that failed; either way the cycle goes on.
    Reported,
    /// The collector answered the configuration request: an override, or none.
    Fetched(Option<RemoteConfig>),
    /// The configuration request failed.
    FetchFailed,
    /// Persisting the new configuration succeeded (`true`) or failed.
    Saved(bool),
    /// The store was read for the last known-good configuration.
    Loaded(StoredConfig),
    /// The cycle ran past its time limit; whatever it was waiting for is abandoned.
    TimedOut,
}

/// What the agent asks to be done next.
pub enum Action {
    /// Begin a cycle that must end within `cycle_timeout_secs`: probe these
    /// targets, then collect and post a snapshot for this agent.
    Report { agent_id: String, ping_targets: Vec<String>, cycle_timeout_secs: u64 },
    /// Ask the collector for this agent's configuration override.
    FetchConfig { agent_id: String },
    /// Persist this configuration as the last known-good one.
    SaveConfig(AgentConfig),
    /// Read the last known-good configuration from the store.
    LoadLastKnownGood,
    /// Pause this many seconds before the next cycle.
    Sleep { secs: u64 },
}

/// Where the agent stands in its cycle.
pub enum Phase {
    Ready,
    Reporting,
    Polling,
    Persisting(AgentConfig),
    RollingBack,
}

/// The agent's decisions: which configuration is active, and what to do next.
pub struct Agent {
    /// The active configuration.
    config: AgentConfig,
    /// The configuration as it stood when the current cycle began.
    cycle: AgentConfig,
    phase: Phase,
}

pub enum StoredConfigView {
    Found(AgentConfigView),
    Missing,
    Unreadable,
}

pub enum EventView {
    Tick,
    Reported,
    Fetched(Option<RemoteConfigView>),
    FetchFailed,
    Saved(bool),
    Loaded(StoredConfigView),
    TimedOut,
}

pub enum ActionView {
    Report { agent_id: Seq<char>, ping_targets: Seq<Seq<char>>, cycle_timeout_secs: u64 },
    FetchConfig { agent_id: Seq<char> },
    SaveConfig(AgentConfigView),
    LoadLastKnownGood,
    Sleep { secs: u64 },
}

pub enum PhaseView {
    Ready,
    Reporting,
    Polling,
    Persisting(AgentConfigView),
    RollingBack,
}

pub struct AgentView {
    pub config: AgentConfigView,
    pub cycle: AgentConfigView,
    pub phase: PhaseView,
}

impl View for StoredConfig {
    type V = StoredConfigView;

    open spec fn view(&self) -> StoredConfigView {
        match self {
            StoredConfig::Found(c) => StoredConfigView::Found(c@),
            StoredConfig::Missing => StoredConfigView::Missing,
            StoredConfig::Unreadable => StoredConfigView::Unreadable,
        }
    }
}

impl View for Event {
    type V = EventView;

    open spec fn view(&self) -> EventView {
        match self {
            Event::Tick => EventView::Tick,
            Event::Reported => EventView::Reported,
            Event::Fetched(r) => EventView::Fetched(
                match r {
                    Some(remote) => Some(remote@),
                    None => None,
                },
            ),
            Event::FetchFailed => EventView::FetchFailed,
            Event::Saved(ok) => EventView::Saved(*ok),
            Event::Loaded(s) => EventView::Loaded(s@),
            Event::TimedOut => EventView::TimedOut,
        }
    }
}

impl View for Action {
    type V = ActionView;

    open spec fn view(&self) -> ActionView {
        match self {
            Action::Report { agent_id, ping_targets, cycle_timeout_secs } => ActionView::Report {
                agent_id: agent_id@,
                ping_targets: ping_targets.deep_view(),
                cycle_timeout_secs: *cycle_timeout_secs,
            },
            Action::FetchConfig { agent_id } => ActionView::FetchConfig { agent_id: agent_id@ },
            Action::SaveConfig(c) => ActionView::SaveConfig(c@),
            Action::LoadLastKnownGood => ActionView::LoadLastKnownGood,
            Action::Sleep { secs } => ActionView::Sleep { secs: *secs },
        }
    }
}

impl View for Phase {
    type V = PhaseView;

    open spec fn view(&self) -> PhaseView {
        match self {
            Phase::Ready => PhaseView::Ready,
            Phase::Reporting => PhaseView::Reporting,
            Phase::Polling => PhaseView::Polling,
            Phase::Persisting(c) => PhaseView::Persisting(c@),
            Phase::RollingBack => PhaseView::RollingBack,
        }
    }
}

impl View for Agent {
    type V = AgentView;

    closed spec fn view(&self) -> AgentView {
        AgentView { config: self.config@, cycle: self.cycle@, phase: self.phase@ }
    }
}

/// Whether the agent, in this phase, is waiting for this kind of event.
pub open spec fn accepts(phase: PhaseView, e: EventView) -> bool {
    match (phase, e) {
        (PhaseView::Ready, EventView::Tick) => true,
        (PhaseView::Reporting, EventView::Reported) => true,
        (PhaseView::Polling, EventView::Fetched(_)) => true,
        (PhaseView::Polling, EventView::FetchFailed) => true,
        (PhaseView::Persisting(_), EventView::Saved(_)) => true,
        (PhaseView::RollingBack, EventView::Loaded(_)) => true,
        (PhaseView::Ready, EventView::TimedOut) => false,
        (_, EventView::TimedOut) => true,
        _ => false,
    }
}

/// A cycle may take three times the interval before it is abandoned (or the
/// largest `u64`, when that product does not fit).
pub open spec fn cycle_timeout(interval_secs: u64) -> u64 {
    if 3 * interval_secs <= u64::MAX {
        (3 * interval_secs) as u64
    } else {
        u64::MAX
    }
}

/// The time limit of a cycle that runs with `interval_secs`.
pub fn cycle_timeout_secs(interval_secs: u64) -> (r: u64)
    ensures
        r == cycle_timeout(interval_secs),
        interval_secs <= u64::MAX / 3 ==> r == interval_secs * 3,
        interval_secs > u64::MAX / 3 ==> r == u64::MAX,
        r >= interval_secs,
{
    if interval_secs <= u64::MAX / 3 {
        interval_secs * 3
    } else {
        u64::MAX
    }
}

/// The pause that ends a cycle: the interval of the configuration the cycle began with.
pub open spec fn rest(s: AgentView, config: AgentConfigView) -> (AgentView, ActionView) {
    (
        AgentView { config: config, cycle: s.cycle, phase: PhaseView::Ready },
        ActionView::Sleep { secs: s.cycle.interval_secs },
    )
}

/// One decision of the agent: its state after the event, and its next action.
///
/// A cycle reports metrics for the configuration it began with, asks the
/// collector for an override, and then rests for that configuration's
/// interval. An override that fails validation is never applied: the agent
/// reverts to the last known-good configuration from the store, or keeps its
/// own if the store has none or cannot be read. A valid override that changes
/// the configuration is persisted first and applied only once that succeeded.
pub open spec fn next(s: AgentView, e: EventView) -> (AgentView, ActionView) {
    match (s.phase, e) {
        (PhaseView::Ready, EventView::Tick) => (
            AgentView { config: s.config, cycle: s.config, phase: PhaseView::Reporting },
            ActionView::Report {
                agent_id: s.config.agent_id,
                ping_targets: s.config.ping_targets,
                cycle_timeout_secs: cycle_timeout(s.config.interval_secs),
            },
        ),
        (PhaseView::Reporting, EventView::Reported) => (
            AgentView { phase: PhaseView::Polling, ..s },
            ActionView::FetchConfig { agent_id: s.cycle.agent_id },
        ),
        (PhaseView::Polling, EventView::Fetched(Some(remote))) => {
            let c = merged(s.cycle, remote);
            if !c.is_valid() {
                (AgentView { phase: PhaseView::RollingBack, ..s }, ActionView::LoadLastKnownGood)
            } else if c == s.cycle {
                rest(s, s.config)
            } else {
                (AgentView { phase: PhaseView::Persisting(c), ..s }, ActionView::SaveConfig(c))
            }
        },
        (PhaseView::Polling, EventView::Fetched(None)) => rest(s, s.config),
        (PhaseView::Polling, EventView::FetchFailed) => rest(s, s.config),
        (PhaseView::Persisting(c), EventView::Saved(ok)) => rest(
            s,
            if ok {
                c
            } else {
                s.config
            },
        ),
        (PhaseView::RollingBack, EventView::Loaded(stored)) => rest(
            s,
            match stored {
                StoredConfigView::Found(good) => good,
                _ => s.config,
            },
        ),
        (_, EventView::TimedOut) => rest(s, s.config),
        // Not reached: the agent accepts no other event in these phases.
        _ => (s, ActionView::Sleep { secs: s.cycle.interval_secs }),
    }
}

// ---------------------------------------------------------------------------
// Laws of the cycle
// ---------------------------------------------------------------------------

/// An override that fails validation is never applied. The agent asks for the
/// last known-good configuration; once the store answers, the active
/// configuration is the stored one, or stays as it was when the store has
/// none or cannot be read; and the cycle ends with its usual pause.
pub proof fn lemma_rejected_override_is_rolled_back(
    s: AgentView,
    remote: RemoteConfigView,
    stored: StoredConfigView,
)
    requires
        s.phase == PhaseView::Polling,
        !merged(s.cycle, remote).is_valid(),
    ensures
        ({
            let (s1, a1) = next(s, EventView::Fetched(Some(remote)));
            let (s2, a2) = next(s1, EventView::Loaded(stored));
            &&& a1 == ActionView::LoadLastKnownGood
            &&& s1.config == s.config
            &&& s1.phase == PhaseView::RollingBack
            &&& s2.config == (match stored {
                StoredConfigView::Found(good) => good,
                _ => s.config,
            })
            &&& s2.phase == PhaseView::Ready
            &&& a2 == ActionView::Sleep { secs: s.cycle.interval_secs }
        }),
{
}

/// A valid override that changes the configuration is persisted before it is
/// applied: the agent first asks to save it, leaving the active configuration
/// as it is, and makes it active only when the save succeeded.
pub proof fn lemma_valid_override_is_persisted_then_applied(
    s: AgentView,
    remote: RemoteConfigView,
    saved: bool,
)
    requires
        s.phase == PhaseView::Polling,
        merged(s.cycle, remote).is_valid(),
        merged(s.cycle, remote) != s.cycle,
    ensures
        ({
            let c = merged(s.cycle, remote);
            let (s1, a1) = next(s, EventView::Fetched(Some(remote)));
            let (s2, a2) = next(s1, EventView::Saved(saved));
            &&& a1 == ActionView::SaveConfig(c)
            &&& s1.config == s.config
            &&& s2.config == (if saved {
                c
            } else {
                s.config
            })
            &&& s2.phase == PhaseView::Ready
            &&& a2 == ActionView::Sleep { secs: s.cycle.interval_secs }
        }),
{
}

/// An override that leaves the configuration as it is causes no write and no change.
pub proof fn lemma_unchanged_override_skips_write(s: AgentView, remote: RemoteConfigView)
    requires
        s.phase == PhaseView::Polling,
        merged(s.cycle, remote).is_valid(),
        merged(s.cycle, remote) == s.cycle,
    ensures
        next(s, EventView::Fetched(Some(remote))) == rest(s, s.config),
{
}

/// A cycle that runs past its time limit is abandoned: the active
/// configuration stays as it is and the agent pauses for the cycle's interval,
/// ready for the next one. The time limit is three times that interval, and never shorter
/// than the interval.
pub proof fn lemma_timed_out_cycle_moves_on(s: AgentView)
    requires
        s.phase != PhaseView::Ready,
    ensures
        accepts(s.phase, EventView::TimedOut),
        next(s, EventView::TimedOut).0.config == s.config,
        next(s, EventView::TimedOut).0.phase == PhaseView::Ready,
        next(s, EventView::TimedOut).1 == (ActionView::Sleep { secs: s.cycle.interval_secs }),
        s.cycle.interval_secs <= cycle_timeout(s.cycle.interval_secs),
{
}

/// Laying an override over a configuration: each field the override holds
/// is taken exactly as given, whatever the current value; each it does not
/// hold, and the collector URL and agent id, stay as they are.
pub proof fn lemma_merged_fields(current: AgentConfigView, remote: RemoteConfigView)
    ensures
        remote.interval_secs matches Some(secs) ==> merged(current, remote).interval_secs == secs,
        (remote.interval_secs is None) ==> merged(current, remote).interval_secs
            == current.interval_secs,
        remote.ping_targets matches Some(t) ==> merged(current, remote).ping_targets == t,
        (remote.ping_targets is None) ==> merged(current, remote).ping_targets
            == current.ping_targets,
        merged(current, remote).collector_url == current.collector_url,
        merged(current, remote).agent_id == current.agent_id,
{
}

/// A cycle begins from the active configuration: the one it begins with is the
/// active one; it reports for that configuration's agent id and targets, and its
/// time limit is three times that configuration's interval (at most `u64::MAX`).
pub proof fn lemma_tick_begins_cycle(s: AgentView)
    requires
        s.phase == PhaseView::Ready,
    ensures
        ({
            let (s1, a) = next(s, EventView::Tick);
            &&& s1.config == s.config
            &&& s1.cycle == s.config
            &&& s1.phase == PhaseView::Reporting
            &&& a matches ActionView::Report { agent_id, ping_targets, cycle_timeout_secs }
            &&& agent_id == s.config.agent_id
            &&& ping_targets == s.config.ping_targets
            &&& cycle_timeout_secs as int == (if 3 * s.config.interval_secs <= u64::MAX {
                3 * s.config.interval_secs
            } else {
                u64::MAX as int
            })
        }),
{
}

/// After reporting, the agent asks for its own override and changes nothing.
pub proof fn lemma_report_then_fetch(s: AgentView)
    requires
        s.phase == PhaseView::Reporting,
    ensures
        next(s, EventView::Reported).0.config == s.config,
        next(s, EventView::Reported).0.cycle == s.cycle,
        next(s, EventView::Reported).0.phase == PhaseView::Polling,
        next(s, EventView::Reported).1 == (ActionView::FetchConfig { agent_id: s.cycle.agent_id }),
{
}

/// With no override, or when asking for one failed, the configuration stays as
/// it is and the cycle ends with a pause of its interval.
pub proof fn lemma_no_override_ends_cycle(s: AgentView)
    requires
        s.phase == PhaseView::Polling,
    ensures
        next(s, EventView::Fetched(None)).0.config == s.config,
        next(s, EventView::Fetched(None)).0.phase == PhaseView::Ready,
        next(s, EventView::Fetched(None)).1 == (ActionView::Sleep { secs: s.cycle.interval_secs }),
        next(s, EventView::FetchFailed).0.config == s.config,
        next(s, EventView::FetchFailed).0.phase == PhaseView::Ready,
        next(s, EventView::FetchFailed).1 == (ActionView::Sleep { secs: s.cycle.interval_secs }),
{
}

/// The agent is sound when its active configuration and the one its cycle
/// began with are valid, a configuration waiting to be persisted is valid, and
/// within a cycle the active configuration is the one the cycle began with.
pub open spec fn sound(s: AgentView) -> bool {
    &&& s.config.is_valid()
    &&& s.cycle.is_valid()
    &&& (s.phase matches PhaseView::Persisting(c) ==> c.is_valid())
    &&& (s.phase !is Ready ==> s.config == s.cycle)
}

/// Every configuration the agent asks to persist is valid, every pause is at
/// least a second long, and the active configuration stays valid, provided
/// that what the store hands back is valid. (The store holds only what the
/// agent saved: its initial configuration and the configurations it asked to
/// persist.)
pub proof fn lemma_step_keeps_agent_sound(s: AgentView, e: EventView)
    requires
        sound(s),
        accepts(s.phase, e),
        e matches EventView::Loaded(StoredConfigView::Found(good)) ==> good.is_valid(),
    ensures
        sound(next(s, e).0),
        next(s, e).1 matches ActionView::SaveConfig(c) ==> c.is_valid(),
        next(s, e).1 matches ActionView::Sleep { secs } ==> secs > 0,
{
}

/// A new agent started with a valid configuration is sound.
pub proof fn lemma_new_agent_is_sound(initial: AgentConfigView)
    requires
        initial.is_valid(),
    ensures
        sound(AgentView { config: initial, cycle: initial, phase: PhaseView::Ready }),
{
}

impl Agent {
    /// An agent that starts from `initial_config`, ready to begin its first cycle.
    pub fn new(initial_config: AgentConfig) -> (r: Agent)
        ensures
            r@.config == initial_config@,
            r@.cycle == initial_config@,
            r@.phase == PhaseView::Ready,
    {
        let cycle = initial_config.clone();
        Agent { config: initial_config, cycle, phase: Phase::Ready }
    }

    /// The active configuration.
    pub fn config(&self) -> (r: &AgentConfig)
        ensures
            r@ == self@.config,
    {
        &self.config
    }

    /// Whether the agent is waiting for this kind of event.
    pub fn accepts(&self, e: &Event) -> (r: bool)
        ensures
            r == accepts(self@.phase, e@),
    {
        match (&self.phase, e) {
            (Phase::Ready, Event::Tick) => true,
            (Phase::Reporting, Event::Reported) => true,
            (Phase::Polling, Event::Fetched(_)) => true,
            (Phase::Polling, Event::FetchFailed) => true,
            (Phase::Persisting(_), Event::Saved(_)) => true,
            (Phase::RollingBack, Event::Loaded(_)) => true,
            (Phase::Ready, Event::TimedOut) => false,
            (_, Event::TimedOut) => true,
            _ => false,
        }
    }

    /// Ends the cycle that began with `cycle`, leaving `config` active.
    fn finish_cycle(config: AgentConfig, cycle: AgentConfig) -> (r: (Agent, Action))
        ensures
            r.0@ == (AgentView { config: config@, cycle: cycle@, phase: PhaseView::Ready }),
            r.1@ == (ActionView::Sleep { secs: cycle@.interval_secs }),
    {
        let secs = cycle.interval_secs;
        (Agent { config, cycle, phase: Phase::Ready }, Action::Sleep { secs })
    }

    /// Takes in what happened and decides the next state and action.
    pub fn step(self, e: Event) -> (r: (Agent, Action))
        requires
            accepts(self@.phase, e@),
        ensures
            (r.0@, r.1@) == next(self@, e@),
            self@.phase == PhaseView::Ready ==> (r.1@ matches ActionView::Report {
                agent_id,
                ping_targets,
                cycle_timeout_secs,
            } && agent_id == self@.config.agent_id && ping_targets == self@.config.ping_targets
                && cycle_timeout_secs as int == (if 3 * self@.config.interval_secs <= u64::MAX {
                3 * self@.config.interval_secs
            } else {
                u64::MAX as int
            })),
    {
        let Agent { config, cycle, phase } = self;
        match phase {
            Phase::Ready => {
                let new_cycle = config.clone();
                let agent_id = config.agent_id.clone();
                let ping_targets = copy_strings(&config.ping_targets);
                let cycle_timeout_secs = cycle_timeout_secs(config.interval_secs);
                (
                    Agent { config, cycle: new_cycle, phase: Phase::Reporting },
                    Action::Report { agent_id, ping_targets, cycle_timeout_secs },
                )
            },
            _ if matches!(e, Event::TimedOut) => Self::finish_cycle(config, cycle),
            Phase::Reporting => {
                let agent_id = cycle.agent_id.clone();
                (Agent { config, cycle, phase: Phase::Polling }, Action::FetchConfig { agent_id })
            },
            Phase::Polling => match e {
                Event::Fetched(Some(remote)) => match plan_config_update(&cycle, remote) {
                    ConfigPlan::Unchanged => Self::finish_cycle(config, cycle),
                    ConfigPlan::Persist(candidate) => {
                        let save = candidate.clone();
                        (
                            Agent { config, cycle, phase: Phase::Persisting(candidate) },
                            Action::SaveConfig(save),
                        )
                    },
                    ConfigPlan::Revert(_) => (
                        Agent { config, cycle, phase: Phase::RollingBack },
                        Action::LoadLastKnownGood,
                    ),
                },
                _ => Self::finish_cycle(config, cycle),
            },
            Phase::Persisting(candidate) => match e {
                Event::Saved(true) => Self::finish_cycle(candidate, cycle),
                _ => Self::finish_cycle(config, cycle),
            },
            Phase::RollingBack => match e {
                Event::Loaded(StoredConfig::Found(good)) => Self::finish_cycle(good, cycle),
                _ => Self::finish_cycle(config, cycle),
            },
        }
    }
}

} // verus!
