//! Simulation types: statuses, agent profiles, events and platform settings.
use vstd::prelude::*;

use crate::ids::{is_simple_uuid, new_uuid_simple, now_nanos};
use crate::json::JsonValue;
use crate::strs::{owned, push_str};

verus! {

/// Simulation status.
#[derive(Debug, Clone, Copy, PartialEq, Eq, Structural)]
pub enum SimulationStatus {
    /// Created, waiting for preparation.
    Created,
    /// Preparation in progress (generating profiles, config).
    Preparing,
    /// Preparation complete, ready to run.
    Ready,
    Running,
    Paused,
    Completed,
    Failed,
}

pub open spec fn simulation_status_name(s: SimulationStatus) -> Seq<char> {
    match s {
        SimulationStatus::Created => "Created"@,
        SimulationStatus::Preparing => "Preparing"@,
        SimulationStatus::Ready => "Ready"@,
        SimulationStatus::Running => "Running"@,
        SimulationStatus::Paused => "Paused"@,
        SimulationStatus::Completed => "Completed"@,
        SimulationStatus::Failed => "Failed"@,
    }
}

impl SimulationStatus {
    /// The status's name, as it is displayed.
    pub fn name(&self) -> (r: &'static str)
        ensures
            r@ == simulation_status_name(*self),
    {
        match self {
            SimulationStatus::Created => "Created",
            SimulationStatus::Preparing => "Preparing",
            SimulationStatus::Ready => "Ready",
            SimulationStatus::Running => "Running",
            SimulationStatus::Paused => "Paused",
            SimulationStatus::Completed => "Completed",
            SimulationStatus::Failed => "Failed",
        }
    }
}

/// The platform a simulation runs on.
#[derive(Debug, Clone, Copy, PartialEq, Eq, Structural)]
pub enum SimulationPlatform {
    Twitter,
    Reddit,
    /// Both Twitter and Reddit.
    Parallel,
}

/// An agent profile.
#[derive(Debug, Clone)]
pub struct AgentProfile {
    pub agent_id: usize,
    pub name: String,
    pub username: String,
    pub bio: String,
    pub persona: Persona,
    pub demographics: Demographics,
    pub activity_pattern: ActivityPattern,
    pub initial_beliefs: Vec<String>,
    pub social_network: Vec<usize>,
}

/// An agent's character. The trait and tendency tables are lists of
/// `(key, value)` pairs with distinct keys.
#[derive(Debug, Clone)]
pub struct Persona {
    pub personality_traits: Vec<(String, String)>,
    pub interests: Vec<String>,
    pub behavioral_tendencies: Vec<(String, String)>,
    pub communication_style: String,
    pub stance_on_topic: String,
}

#[derive(Debug, Clone)]
pub struct Demographics {
    pub age_group: String,
    pub gender: String,
    pub occupation: String,
    pub location: String,
    pub education: String,
}

#[derive(Debug, Clone)]
pub struct ActivityPattern {
    /// "low", "medium" or "high".
    pub activity_level: String,
    pub posting_frequency: String,
    pub peak_hours: Vec<usize>,
    pub preferred_topics: Vec<String>,
}

/// The profile that an interview falls back to.
pub open spec fn is_interview_default(p: AgentProfile) -> bool {
    &&& p.agent_id == 0
    &&& p.name@ == "Default Agent"@
    &&& p.username@ == "@default"@
    &&& p.bio@ == "A simulated agent"@
    &&& p.persona.personality_traits@.len() == 0
    &&& p.persona.interests@.len() == 0
    &&& p.persona.behavioral_tendencies@.len() == 0
    &&& p.persona.communication_style@ == "neutral"@
    &&& p.persona.stance_on_topic@ == "open"@
    &&& p.demographics.age_group@ == "unknown"@
    &&& p.demographics.gender@ == "unknown"@
    &&& p.demographics.occupation@ == "unknown"@
    &&& p.demographics.location@ == "unknown"@
    &&& p.demographics.education@ == "unknown"@
    &&& p.activity_pattern.activity_level@ == "medium"@
    &&& p.activity_pattern.posting_frequency@ == "moderate"@
    &&& p.activity_pattern.peak_hours@.len() == 0
    &&& p.activity_pattern.preferred_topics@.len() == 0
    &&& p.initial_beliefs@.len() == 0
    &&& p.social_network@.len() == 0
}

impl AgentProfile {
    /// A default agent profile for interviews.
    pub fn default_for_interview() -> (r: Self)
        ensures
            is_interview_default(r),
    {
        AgentProfile {
            agent_id: 0,
            name: owned("Default Agent"),
            username: owned("@default"),
            bio: owned("A simulated agent"),
            persona: Persona {
                personality_traits: Vec::new(),
                interests: Vec::new(),
                behavioral_tendencies: Vec::new(),
                communication_style: owned("neutral"),
                stance_on_topic: owned("open"),
            },
            demographics: Demographics {
                age_group: owned("unknown"),
                gender: owned("unknown"),
                occupation: owned("unknown"),
                location: owned("unknown"),
                education: owned("unknown"),
            },
            activity_pattern: ActivityPattern {
                activity_level: owned("medium"),
                posting_frequency: owned("moderate"),
                peak_hours: Vec::new(),
                preferred_topics: Vec::new(),
            },
            initial_beliefs: Vec::new(),
            social_network: Vec::new(),
        }
    }
}

/// The events a simulation starts with.
#[derive(Debug, Clone)]
pub struct EventConfig {
    pub initial_posts: Vec<InitialPost>,
    pub hot_topics: Vec<HotTopic>,
}

#[derive(Debug, Clone)]
pub struct InitialPost {
    pub content: String,
    pub topic: String,
    pub sentiment: String,
}

#[derive(Debug, Clone)]
pub struct HotTopic {
    pub title: String,
    pub description: String,
    pub related_entities: Vec<String>,
}

#[derive(Debug, Clone)]
pub struct PlatformConfig {
    pub twitter_config: Option<PlatformDetailConfig>,
    pub reddit_config: Option<PlatformDetailConfig>,
}

#[derive(Debug, Clone)]
pub struct PlatformDetailConfig {
    pub agent_count: usize,
    pub subreddit: String,
    pub topic: String,
}

/// A simulation's state.
#[derive(Debug, Clone)]
pub struct Simulation {
    pub simulation_id: String,
    pub project_id: String,
    pub graph_id: Option<String>,
    pub status: SimulationStatus,
    pub enable_twitter: bool,
    pub enable_reddit: bool,
    pub entities_count: Option<usize>,
    pub entity_types: Vec<String>,
    pub profiles_count: Option<usize>,
    pub config_generated: bool,
    pub current_round: u32,
    pub total_rounds: u32,
    pub error: Option<String>,
    /// Nanoseconds since the Unix epoch.
    pub started_at: Option<i64>,
    pub completed_at: Option<i64>,
    pub created_at: i64,
    pub updated_at: i64,
}

impl Simulation {
    /// What a freshly created simulation holds.
    pub open spec fn fresh(
        self,
        project_id: Seq<char>,
        graph_id: Seq<char>,
        enable_twitter: bool,
        enable_reddit: bool,
        id_hex: Seq<char>,
        now: i64,
    ) -> bool {
        &&& self.simulation_id@ == "sim_"@ + id_hex
        &&& self.project_id@ == project_id
        &&& self.graph_id matches Some(g) && g@ == graph_id
        &&& self.status == SimulationStatus::Created
        &&& self.enable_twitter == enable_twitter
        &&& self.enable_reddit == enable_reddit
        &&& self.entities_count is None
        &&& self.entity_types@.len() == 0
        &&& self.profiles_count is None
        &&& !self.config_generated
        &&& self.current_round == 0
        &&& self.total_rounds == 0
        &&& self.error is None
        &&& self.started_at is None
        &&& self.completed_at is None
        &&& self.created_at == now
        &&& self.updated_at == now
    }

    /// A new simulation with the given identifier digits and time.
    pub fn with_id(
        project_id: &str,
        graph_id: &str,
        enable_twitter: bool,
        enable_reddit: bool,
        id_hex: &str,
        now: i64,
    ) -> (r: Self)
        ensures
            r.fresh(project_id@, graph_id@, enable_twitter, enable_reddit, id_hex@, now),
    {
        let mut simulation_id = owned("sim_");
        push_str(&mut simulation_id, id_hex);
        Simulation {
            simulation_id,
            project_id: owned(project_id),
            graph_id: Some(owned(graph_id)),
            status: SimulationStatus::Created,
            enable_twitter,
            enable_reddit,
            entities_count: None,
            entity_types: Vec::new(),
            profiles_count: None,
            config_generated: false,
            current_round: 0,
            total_rounds: 0,
            error: None,
            started_at: None,
            completed_at: None,
            created_at: now,
            updated_at: now,
        }
    }

    /// A new simulation with a random identifier, created now.
    pub fn new(project_id: &str, graph_id: &str, enable_twitter: bool, enable_reddit: bool) -> (r:
        Self)
        ensures
            exists|h: Seq<char>, t: i64|
                is_simple_uuid(h) && r.fresh(
                    project_id@,
                    graph_id@,
                    enable_twitter,
                    enable_reddit,
                    h,
                    t,
                ),
    {
        let id = new_uuid_simple();
        let now = now_nanos();
        let r = Simulation::with_id(
            project_id,
            graph_id,
            enable_twitter,
            enable_reddit,
            id.as_str(),
            now,
        );
        assert(is_simple_uuid(id@) && r.fresh(
            project_id@,
            graph_id@,
            enable_twitter,
            enable_reddit,
            id@,
            now,
        ));
        r
    }
}

/// What the simulation runner is doing.
#[derive(Debug, Clone, Copy, PartialEq, Eq, Structural)]
pub enum RunnerStatus {
    Idle,
    Running,
    Paused,
    /// Interview mode.
    WaitingCommand,
    Stopped,
    Completed,
    Failed,
}

/// An agent's action as a simulation log line records it.
#[derive(Debug)]
pub struct AgentAction {
    pub round_num: u32,
    /// Nanoseconds since the Unix epoch.
    pub timestamp: i64,
    /// "twitter" or "reddit".
    pub platform: String,
    pub agent_id: usize,
    pub agent_name: String,
    pub action_type: String,
    pub action_args: JsonValue,
    pub result: Option<String>,
    pub success: bool,
}

/// Request to create a new simulation.
#[derive(Debug, Clone)]
pub struct CreateSimulationRequest {
    pub project_id: String,
    pub graph_id: String,
    pub enable_twitter: bool,
    pub enable_reddit: bool,
    pub simulation_requirement: Option<String>,
}

/// Request to prepare a simulation (generate profiles and config).
#[derive(Debug, Clone)]
pub struct PrepareSimulationRequest {
    pub simulation_id: String,
    pub graph_id: String,
    pub document_text: String,
    pub simulation_requirement: Option<String>,
    pub enable_twitter: bool,
    pub enable_reddit: bool,
    pub llm_model: Option<String>,
}

/// A simulation's status, as the API reports it.
#[derive(Debug, Clone)]
pub struct SimulationStatusResponse {
    pub simulation_id: String,
    pub status: SimulationStatus,
    pub current_round: u32,
    pub total_rounds: u32,
    pub error: Option<String>,
    pub started_at: Option<i64>,
    pub completed_at: Option<i64>,
}

} // verus!
