//! Projects: one simulation preparation workflow each.
use vstd::prelude::*;

use crate::ids::{is_simple_uuid, new_uuid_simple, now_nanos};
use crate::ontology::Ontology;
use crate::strs::{owned, push_str};

verus! {

/// Project status.
#[derive(Debug, Clone, Copy, PartialEq, Eq, Structural)]
pub enum ProjectStatus {
    /// Project created, waiting for ontology generation.
    Created,
    /// Ontology generated, ready for graph building.
    OntologyGenerated,
    /// Graph building in progress.
    GraphBuilding,
    /// Graph building completed.
    GraphCompleted,
    /// Operation failed.
    Failed,
}

impl ProjectStatus {
    /// The status's name, as it is displayed.
    pub fn name(&self) -> (r: &'static str)
        ensures
            r@ == project_status_name(*self),
    {
        match self {
            ProjectStatus::Created => "Created",
            ProjectStatus::OntologyGenerated => "OntologyGenerated",
            ProjectStatus::GraphBuilding => "GraphBuilding",
            ProjectStatus::GraphCompleted => "GraphCompleted",
            ProjectStatus::Failed => "Failed",
        }
    }
}

pub open spec fn project_status_name(s: ProjectStatus) -> Seq<char> {
    match s {
        ProjectStatus::Created => "Created"@,
        ProjectStatus::OntologyGenerated => "OntologyGenerated"@,
        ProjectStatus::GraphBuilding => "GraphBuilding"@,
        ProjectStatus::GraphCompleted => "GraphCompleted"@,
        ProjectStatus::Failed => "Failed"@,
    }
}

/// Information on an uploaded project file.
#[derive(Debug, Clone)]
pub struct FileInfo {
    pub filename: String,
    pub size: u64,
    pub path: String,
    pub original_filename: String,
    /// Nanoseconds since the Unix epoch.
    pub uploaded_at: i64,
}

/// A project: one simulation preparation workflow.
#[derive(Debug, Clone)]
pub struct Project {
    pub project_id: String,
    pub name: String,
    pub status: ProjectStatus,
    pub simulation_requirement: String,
    pub ontology: Option<Ontology>,
    pub analysis_summary: String,
    pub graph_id: Option<String>,
    pub graph_build_task_id: Option<String>,
    pub files: Vec<FileInfo>,
    pub total_text_length: usize,
    pub chunk_size: usize,
    pub chunk_overlap: usize,
    pub error: Option<String>,
    /// Nanoseconds since the Unix epoch.
    pub created_at: i64,
    /// Nanoseconds since the Unix epoch.
    pub updated_at: i64,
}

impl Project {
    /// What a freshly created project holds, given its name, the hex digits
    /// of its identifier and the time of creation.
    pub open spec fn fresh(self, name: Seq<char>, id_hex: Seq<char>, now: i64) -> bool {
        &&& self.project_id@ == "proj_"@ + id_hex
        &&& self.name@ == name
        &&& self.status == ProjectStatus::Created
        &&& self.simulation_requirement@ == Seq::<char>::empty()
        &&& self.ontology is None
        &&& self.analysis_summary@ == Seq::<char>::empty()
        &&& self.graph_id is None
        &&& self.graph_build_task_id is None
        &&& self.files@.len() == 0
        &&& self.total_text_length == 0
        &&& self.chunk_size == 500
        &&& self.chunk_overlap == 50
        &&& self.error is None
        &&& self.created_at == now
        &&& self.updated_at == now
    }

    /// A new project with the given identifier digits and creation time.
    pub fn with_id(name: &str, id_hex: &str, now: i64) -> (r: Self)
        ensures
            r.fresh(name@, id_hex@, now),
    {
        let mut project_id = owned("proj_");
        push_str(&mut project_id, id_hex);
        Project {
            project_id,
            name: owned(name),
            status: ProjectStatus::Created,
            simulation_requirement: String::new(),
            ontology: None,
            analysis_summary: String::new(),
            graph_id: None,
            graph_build_task_id: None,
            files: Vec::new(),
            total_text_length: 0,
            chunk_size: 500,
            chunk_overlap: 50,
            error: None,
            created_at: now,
            updated_at: now,
        }
    }

    /// A new project with a random identifier, created now.
    pub fn new(name: &str) -> (r: Self)
        ensures
            exists|h: Seq<char>, t: i64| is_simple_uuid(h) && r.fresh(name@, h, t),
    {
        let id = new_uuid_simple();
        let now = now_nanos();
        let r = Project::with_id(name, id.as_str(), now);
        assert(is_simple_uuid(id@) && r.fresh(name@, id@, now));
        r
    }

    /// Whether the project can accept graph building: its ontology is
    /// generated, or an earlier attempt failed.
    pub fn can_build_graph(&self) -> (r: bool)
        ensures
            r == (self.status == ProjectStatus::OntologyGenerated || self.status
                == ProjectStatus::Failed),
    {
        match self.status {
            ProjectStatus::OntologyGenerated | ProjectStatus::Failed => true,
            _ => false,
        }
    }

    /// Whether graph building is complete.
    pub fn is_graph_complete(&self) -> (r: bool)
        ensures
            r == (self.status == ProjectStatus::GraphCompleted),
    {
        match self.status {
            ProjectStatus::GraphCompleted => true,
            _ => false,
        }
    }
}

/// Project creation request.
#[derive(Debug, Clone)]
pub struct CreateProjectRequest {
    pub name: String,
    pub simulation_requirement: String,
    pub additional_context: Option<String>,
}

/// Project response.
#[derive(Debug, Clone)]
pub struct ProjectResponse {
    pub success: bool,
    pub data: Project,
}

/// Project list response.
#[derive(Debug, Clone)]
pub struct ProjectListResponse {
    pub success: bool,
    pub data: Vec<Project>,
    pub count: usize,
}

} // verus!
