//! Report types: the outline, the sections and the chat around a report.
use vstd::prelude::*;

use crate::ids::{is_simple_uuid, new_uuid_simple, now_nanos};
use crate::strs::{owned, push_str};

verus! {

/// Report status.
#[derive(Debug, Clone, Copy, PartialEq, Eq, Structural)]
pub enum ReportStatus {
    /// Report generation queued.
    Pending,
    /// Planning the report outline.
    Planning,
    /// Generating sections.
    Generating,
    /// Report completed.
    Completed,
    /// Report generation failed.
    Failed,
}

pub open spec fn report_status_name(s: ReportStatus) -> Seq<char> {
    match s {
        ReportStatus::Pending => "Pending"@,
        ReportStatus::Planning => "Planning"@,
        ReportStatus::Generating => "Generating"@,
        ReportStatus::Completed => "Completed"@,
        ReportStatus::Failed => "Failed"@,
    }
}

impl ReportStatus {
    /// The status's name, as it is displayed.
    pub fn name(&self) -> (r: &'static str)
        ensures
            r@ == report_status_name(*self),
    {
        match self {
            ReportStatus::Pending => "Pending",
            ReportStatus::Planning => "Planning",
            ReportStatus::Generating => "Generating",
            ReportStatus::Completed => "Completed",
            ReportStatus::Failed => "Failed",
        }
    }
}

/// A section of a report.
#[derive(Debug, Clone)]
pub struct ReportSection {
    pub index: usize,
    pub title: String,
    pub description: String,
    pub content: String,
    pub tool_calls_count: usize,
}

/// The outline of a report, made while planning it.
#[derive(Debug, Clone)]
pub struct ReportOutline {
    pub title: String,
    pub summary: String,
    pub sections: Vec<ReportSectionOutline>,
}

/// One planned section of a report.
#[derive(Debug, Clone)]
pub struct ReportSectionOutline {
    pub title: String,
    pub description: String,
}

/// A full report.
#[derive(Debug, Clone)]
pub struct Report {
    pub report_id: String,
    pub simulation_id: String,
    pub graph_id: String,
    pub simulation_requirement: String,
    pub status: ReportStatus,
    pub outline: Option<ReportOutline>,
    pub sections: Vec<ReportSection>,
    pub markdown_content: String,
    pub progress_percent: u8,
    pub current_section: Option<String>,
    pub error: Option<String>,
    /// Nanoseconds since the Unix epoch.
    pub created_at: i64,
    /// Nanoseconds since the Unix epoch.
    pub completed_at: Option<i64>,
}

impl Report {
    /// What a freshly created report holds.
    pub open spec fn fresh(
        self,
        simulation_id: Seq<char>,
        graph_id: Seq<char>,
        requirement: Seq<char>,
        id_hex: Seq<char>,
        now: i64,
    ) -> bool {
        &&& self.report_id@ == "report_"@ + id_hex
        &&& self.simulation_id@ == simulation_id
        &&& self.graph_id@ == graph_id
        &&& self.simulation_requirement@ == requirement
        &&& self.status == ReportStatus::Pending
        &&& self.outline is None
        &&& self.sections@.len() == 0
        &&& self.markdown_content@ == Seq::<char>::empty()
        &&& self.progress_percent == 0
        &&& self.current_section is None
        &&& self.error is None
        &&& self.created_at == now
        &&& self.completed_at is None
    }

    /// A new pending report with the given identifier digits and time.
    pub fn with_id(
        simulation_id: &str,
        graph_id: &str,
        simulation_requirement: &str,
        id_hex: &str,
        now: i64,
    ) -> (r: Self)
        ensures
            r.fresh(simulation_id@, graph_id@, simulation_requirement@, id_hex@, now),
    {
        let mut report_id = owned("report_");
        push_str(&mut report_id, id_hex);
        Report {
            report_id,
            simulation_id: owned(simulation_id),
            graph_id: owned(graph_id),
            simulation_requirement: owned(simulation_requirement),
            status: ReportStatus::Pending,
            outline: None,
            sections: Vec::new(),
            markdown_content: String::new(),
            progress_percent: 0,
            current_section: None,
            error: None,
            created_at: now,
            completed_at: None,
        }
    }

    /// A new pending report with a random identifier, created now.
    pub fn new(simulation_id: &str, graph_id: &str, simulation_requirement: &str) -> (r: Self)
        ensures
            exists|h: Seq<char>, t: i64|
                is_simple_uuid(h) && r.fresh(
                    simulation_id@,
                    graph_id@,
                    simulation_requirement@,
                    h,
                    t,
                ),
    {
        let id = new_uuid_simple();
        let now = now_nanos();
        let r = Report::with_id(simulation_id, graph_id, simulation_requirement, id.as_str(), now);
        assert(is_simple_uuid(id@) && r.fresh(
            simulation_id@,
            graph_id@,
            simulation_requirement@,
            id@,
            now,
        ));
        r
    }
}

/// A chat message about a report.
#[derive(Debug, Clone)]
pub struct ChatMessage {
    /// "user" or "assistant".
    pub role: String,
    pub content: String,
    /// Nanoseconds since the Unix epoch.
    pub timestamp: i64,
}

/// A chat request.
#[derive(Debug, Clone)]
pub struct ChatRequest {
    pub message: String,
    pub history: Vec<ChatMessage>,
}

/// A chat response.
#[derive(Debug, Clone)]
pub struct ChatResponse {
    pub message: String,
    pub tools_used: Vec<String>,
}

} // verus!
