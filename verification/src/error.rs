//! Error types for MiroFish.
use vstd::prelude::*;
use crate::strs::{owned, push_str};

verus! {

/// Root error type for all MiroFish errors.
#[derive(Debug)]
pub enum MiroFishError {
    Llm(LlmError),
    Graph(GraphError),
    Simulation(SimulationError),
    Report(ReportError),
    Task(TaskError),
    File(FileError),
    Config(ConfigError),
    Validation(String),
    NotFound(String),
    Internal(String),
}

impl MiroFishError {
    pub fn not_found(msg: String) -> (r: Self)
        ensures
            r == MiroFishError::NotFound(msg),
            mirofish_error_message(r) == "Not found: "@ + msg@,
    {
        MiroFishError::NotFound(msg)
    }

    pub fn internal(msg: String) -> (r: Self)
        ensures
            r == MiroFishError::Internal(msg),
            mirofish_error_message(r) == "Internal error: "@ + msg@,
    {
        MiroFishError::Internal(msg)
    }

    pub fn validation(msg: String) -> (r: Self)
        ensures
            r == MiroFishError::Validation(msg),
            mirofish_error_message(r) == "Validation error: "@ + msg@,
    {
        MiroFishError::Validation(msg)
    }
}

#[derive(Debug)]
pub enum LlmError {
    Api(String),
    ParseError(String),
    RateLimit,
    Timeout(String),
}

#[derive(Debug)]
pub enum GraphError {
    NotFound(String),
    ZepApi(String),
    Ontology(String),
    EntityNotFound(String),
}

#[derive(Debug)]
pub enum SimulationError {
    NotFound(String),
    AlreadyRunning(String),
    NotReady(String),
    Agent(String),
    Platform(String),
    Interview(String),
    InterviewTimeout,
}

#[derive(Debug)]
pub enum ReportError {
    NotFound(String),
    GenerationFailed(String),
    ToolFailed { tool_name: String, error: String },
    MaxIterationsReached,
}

#[derive(Debug)]
pub enum TaskError {
    NotFound(String),
    AlreadyCompleted,
    Failed(String),
}

#[derive(Debug)]
pub enum FileError {
    NotFound(String),
    UnsupportedType(String),
    ReadError(String),
    EncodingError(String),
}

#[derive(Debug)]
pub enum ConfigError {
    Missing(String),
    Invalid(String),
}

/// `prefix` followed by `detail`.
fn prefixed(prefix: &str, detail: &String) -> (r: String)
    ensures
        r@ == prefix@ + detail@,
{
    let mut s = owned(prefix);
    push_str(&mut s, detail.as_str());
    s
}

/// The message of an LLM error.
pub open spec fn llm_error_message(e: LlmError) -> Seq<char> {
    match e {
        LlmError::Api(m) => "LLM API error: "@ + m@,
        LlmError::ParseError(m) => "LLM response parsing error: "@ + m@,
        LlmError::RateLimit => "LLM rate limit exceeded"@,
        LlmError::Timeout(m) => "LLM timeout: "@ + m@,
    }
}

/// The message of a graph error.
pub open spec fn graph_error_message(e: GraphError) -> Seq<char> {
    match e {
        GraphError::NotFound(m) => "Graph not found: "@ + m@,
        GraphError::ZepApi(m) => "Zep API error: "@ + m@,
        GraphError::Ontology(m) => "Ontology error: "@ + m@,
        GraphError::EntityNotFound(m) => "Entity not found: "@ + m@,
    }
}

/// The message of a file error.
pub open spec fn file_error_message(e: FileError) -> Seq<char> {
    match e {
        FileError::NotFound(m) => "File not found: "@ + m@,
        FileError::UnsupportedType(m) => "Unsupported file type: "@ + m@,
        FileError::ReadError(m) => "File read error: "@ + m@,
        FileError::EncodingError(m) => "Encoding detection failed: "@ + m@,
    }
}

/// The message of a configuration error.
pub open spec fn config_error_message(e: ConfigError) -> Seq<char> {
    match e {
        ConfigError::Missing(m) => "Missing config: "@ + m@,
        ConfigError::Invalid(m) => "Invalid config: "@ + m@,
    }
}

impl LlmError {
    /// The error's message, as it is displayed.
    pub fn message(&self) -> (r: String)
        ensures
            r@ == llm_error_message(*self),
    {
        match self {
            LlmError::Api(m) => prefixed("LLM API error: ", m),
            LlmError::ParseError(m) => prefixed("LLM response parsing error: ", m),
            LlmError::RateLimit => owned("LLM rate limit exceeded"),
            LlmError::Timeout(m) => prefixed("LLM timeout: ", m),
        }
    }
}

impl GraphError {
    /// The error's message, as it is displayed.
    pub fn message(&self) -> (r: String)
        ensures
            r@ == graph_error_message(*self),
    {
        match self {
            GraphError::NotFound(m) => prefixed("Graph not found: ", m),
            GraphError::ZepApi(m) => prefixed("Zep API error: ", m),
            GraphError::Ontology(m) => prefixed("Ontology error: ", m),
            GraphError::EntityNotFound(m) => prefixed("Entity not found: ", m),
        }
    }
}

impl FileError {
    /// The error's message, as it is displayed.
    pub fn message(&self) -> (r: String)
        ensures
            r@ == file_error_message(*self),
    {
        match self {
            FileError::NotFound(m) => prefixed("File not found: ", m),
            FileError::UnsupportedType(m) => prefixed("Unsupported file type: ", m),
            FileError::ReadError(m) => prefixed("File read error: ", m),
            FileError::EncodingError(m) => prefixed("Encoding detection failed: ", m),
        }
    }
}

impl ConfigError {
    /// The error's message, as it is displayed.
    pub fn message(&self) -> (r: String)
        ensures
            r@ == config_error_message(*self),
    {
        match self {
            ConfigError::Missing(m) => prefixed("Missing config: ", m),
            ConfigError::Invalid(m) => prefixed("Invalid config: ", m),
        }
    }
}


/// The message of a simulation error.
pub open spec fn simulation_error_message(e: SimulationError) -> Seq<char> {
    match e {
        SimulationError::NotFound(m) => "Simulation not found: "@ + m@,
        SimulationError::AlreadyRunning(m) => "Simulation already running: "@ + m@,
        SimulationError::NotReady(m) => "Simulation not ready: "@ + m@,
        SimulationError::Agent(m) => "Agent error: "@ + m@,
        SimulationError::Platform(m) => "Platform error: "@ + m@,
        SimulationError::Interview(m) => "Interview error: "@ + m@,
        SimulationError::InterviewTimeout => "Interview timeout"@,
    }
}

/// The message of a report error.
pub open spec fn report_error_message(e: ReportError) -> Seq<char> {
    match e {
        ReportError::NotFound(m) => "Report not found: "@ + m@,
        ReportError::GenerationFailed(m) => "Report generation failed: "@ + m@,
        ReportError::ToolFailed { tool_name, error } => "Tool execution failed: "@ + tool_name@
            + ": "@ + error@,
        ReportError::MaxIterationsReached => "Max iterations reached"@,
    }
}

/// The message of a task error.
pub open spec fn task_error_message(e: TaskError) -> Seq<char> {
    match e {
        TaskError::NotFound(m) => "Task not found: "@ + m@,
        TaskError::AlreadyCompleted => "Task already completed"@,
        TaskError::Failed(m) => "Task failed: "@ + m@,
    }
}

/// The message of an error of any kind: the kind, then the inner message.
pub open spec fn mirofish_error_message(e: MiroFishError) -> Seq<char> {
    match e {
        MiroFishError::Llm(x) => "LLM error: "@ + llm_error_message(x),
        MiroFishError::Graph(x) => "Graph error: "@ + graph_error_message(x),
        MiroFishError::Simulation(x) => "Simulation error: "@ + simulation_error_message(x),
        MiroFishError::Report(x) => "Report error: "@ + report_error_message(x),
        MiroFishError::Task(x) => "Task error: "@ + task_error_message(x),
        MiroFishError::File(x) => "File error: "@ + file_error_message(x),
        MiroFishError::Config(x) => "Config error: "@ + config_error_message(x),
        MiroFishError::Validation(m) => "Validation error: "@ + m@,
        MiroFishError::NotFound(m) => "Not found: "@ + m@,
        MiroFishError::Internal(m) => "Internal error: "@ + m@,
    }
}

impl SimulationError {
    /// The error's message, as it is displayed.
    pub fn message(&self) -> (r: String)
        ensures
            r@ == simulation_error_message(*self),
    {
        match self {
            SimulationError::NotFound(m) => prefixed("Simulation not found: ", m),
            SimulationError::AlreadyRunning(m) => prefixed("Simulation already running: ", m),
            SimulationError::NotReady(m) => prefixed("Simulation not ready: ", m),
            SimulationError::Agent(m) => prefixed("Agent error: ", m),
            SimulationError::Platform(m) => prefixed("Platform error: ", m),
            SimulationError::Interview(m) => prefixed("Interview error: ", m),
            SimulationError::InterviewTimeout => owned("Interview timeout"),
        }
    }
}

impl ReportError {
    /// The error's message, as it is displayed.
    pub fn message(&self) -> (r: String)
        ensures
            r@ == report_error_message(*self),
    {
        match self {
            ReportError::NotFound(m) => prefixed("Report not found: ", m),
            ReportError::GenerationFailed(m) => prefixed("Report generation failed: ", m),
            ReportError::ToolFailed { tool_name, error } => {
                let mut s = prefixed("Tool execution failed: ", tool_name);
                push_str(&mut s, ": ");
                push_str(&mut s, error.as_str());
                s
            },
            ReportError::MaxIterationsReached => owned("Max iterations reached"),
        }
    }
}

impl TaskError {
    /// The error's message, as it is displayed.
    pub fn message(&self) -> (r: String)
        ensures
            r@ == task_error_message(*self),
    {
        match self {
            TaskError::NotFound(m) => prefixed("Task not found: ", m),
            TaskError::AlreadyCompleted => owned("Task already completed"),
            TaskError::Failed(m) => prefixed("Task failed: ", m),
        }
    }
}

/// `prefix` followed by `detail`.
fn prefixed_text(prefix: &str, detail: String) -> (r: String)
    ensures
        r@ == prefix@ + detail@,
{
    let mut s = owned(prefix);
    push_str(&mut s, detail.as_str());
    s
}

impl MiroFishError {
    /// The error's message, as it is displayed.
    pub fn message(&self) -> (r: String)
        ensures
            r@ == mirofish_error_message(*self),
    {
        match self {
            MiroFishError::Llm(x) => prefixed_text("LLM error: ", x.message()),
            MiroFishError::Graph(x) => prefixed_text("Graph error: ", x.message()),
            MiroFishError::Simulation(x) => prefixed_text("Simulation error: ", x.message()),
            MiroFishError::Report(x) => prefixed_text("Report error: ", x.message()),
            MiroFishError::Task(x) => prefixed_text("Task error: ", x.message()),
            MiroFishError::File(x) => prefixed_text("File error: ", x.message()),
            MiroFishError::Config(x) => prefixed_text("Config error: ", x.message()),
            MiroFishError::Validation(m) => prefixed("Validation error: ", m),
            MiroFishError::NotFound(m) => prefixed("Not found: ", m),
            MiroFishError::Internal(m) => prefixed("Internal error: ", m),
        }
    }
}

} // verus!
