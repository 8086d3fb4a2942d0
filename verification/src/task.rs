//! Background tasks: their records and the in-memory store that tracks them.
use vstd::prelude::*;

use crate::ids::{is_simple_uuid, new_uuid_simple, now_nanos};
use crate::json::{JsonModel, JsonValue, json_model};
use crate::ontology::{first_index, lemma_first_index};
use crate::strs::{owned, push_str, str_eq};

verus! {

/// Task status.
#[derive(Debug, Clone, Copy, PartialEq, Eq, Structural)]
pub enum TaskStatus {
    /// Created, not started.
    Pending,
    Processing,
    Completed,
    Failed,
}

pub open spec fn task_status_name(s: TaskStatus) -> Seq<char> {
    match s {
        TaskStatus::Pending => "Pending"@,
        TaskStatus::Processing => "Processing"@,
        TaskStatus::Completed => "Completed"@,
        TaskStatus::Failed => "Failed"@,
    }
}

impl TaskStatus {
    /// The status's name, as it is displayed.
    pub fn name(&self) -> (r: &'static str)
        ensures
            r@ == task_status_name(*self),
    {
        match self {
            TaskStatus::Pending => "Pending",
            TaskStatus::Processing => "Processing",
            TaskStatus::Completed => "Completed",
            TaskStatus::Failed => "Failed",
        }
    }

    /// Whether a task with this status is over, so that a stream of its
    /// updates ends: it is completed or it failed.
    pub fn is_finished(&self) -> (r: bool)
        ensures
            r == (*self == TaskStatus::Completed || *self == TaskStatus::Failed),
    {
        match self {
            TaskStatus::Completed | TaskStatus::Failed => true,
            _ => false,
        }
    }
}

/// A background task that tracks an asynchronous operation.
#[derive(Debug)]
pub struct Task {
    pub task_id: String,
    pub task_type: String,
    pub status: TaskStatus,
    pub progress: u8,
    pub message: String,
    pub metadata: JsonValue,
    pub result: Option<JsonValue>,
    pub error: Option<String>,
    /// Nanoseconds since the Unix epoch.
    pub created_at: i64,
    /// Nanoseconds since the Unix epoch.
    pub updated_at: i64,
    /// Detailed progress for display.
    pub progress_detail: Option<JsonValue>,
}

/// The content of a task.
pub struct TaskView {
    pub task_id: Seq<char>,
    pub task_type: Seq<char>,
    pub status: TaskStatus,
    pub progress: u8,
    pub message: Seq<char>,
    pub metadata: JsonModel,
    pub result: Option<JsonModel>,
    pub error: Option<Seq<char>>,
    pub created_at: i64,
    pub updated_at: i64,
    pub progress_detail: Option<JsonModel>,
}

pub open spec fn opt_json_model(o: Option<JsonValue>) -> Option<JsonModel> {
    match o {
        Some(v) => Some(json_model(v)),
        None => None,
    }
}

pub open spec fn opt_str_view(o: Option<String>) -> Option<Seq<char>> {
    match o {
        Some(s) => Some(s@),
        None => None,
    }
}

impl View for Task {
    type V = TaskView;

    open spec fn view(&self) -> TaskView {
        TaskView {
            task_id: self.task_id@,
            task_type: self.task_type@,
            status: self.status,
            progress: self.progress,
            message: self.message@,
            metadata: json_model(self.metadata),
            result: opt_json_model(self.result),
            error: opt_str_view(self.error),
            created_at: self.created_at,
            updated_at: self.updated_at,
            progress_detail: opt_json_model(self.progress_detail),
        }
    }
}

fn dup_opt_json(o: &Option<JsonValue>) -> (r: Option<JsonValue>)
    ensures
        opt_json_model(r) == opt_json_model(*o),
{
    match o {
        Some(v) => Some(v.duplicate()),
        None => None,
    }
}

fn dup_opt_string(o: &Option<String>) -> (r: Option<String>)
    ensures
        r == *o,
{
    match o {
        Some(s) => Some(s.clone()),
        None => None,
    }
}

impl Task {
    /// A copy of the task, with the same content.
    pub fn duplicate(&self) -> (r: Task)
        ensures
            r@ == self@,
    {
        Task {
            task_id: self.task_id.clone(),
            task_type: self.task_type.clone(),
            status: self.status,
            progress: self.progress,
            message: self.message.clone(),
            metadata: self.metadata.duplicate(),
            result: dup_opt_json(&self.result),
            error: dup_opt_string(&self.error),
            created_at: self.created_at,
            updated_at: self.updated_at,
            progress_detail: dup_opt_json(&self.progress_detail),
        }
    }

    /// What a freshly created task holds.
    pub open spec fn fresh(
        self,
        task_type: Seq<char>,
        metadata: JsonModel,
        id_hex: Seq<char>,
        now: i64,
    ) -> bool {
        &&& self.task_id@ == "task_"@ + id_hex
        &&& self.task_type@ == task_type
        &&& self.status == TaskStatus::Pending
        &&& self.progress == 0
        &&& self.message@ == Seq::<char>::empty()
        &&& json_model(self.metadata) == metadata
        &&& self.result is None
        &&& self.error is None
        &&& self.created_at == now
        &&& self.updated_at == now
        &&& self.progress_detail is None
    }

    /// A new pending task with the given identifier digits and time.
    pub fn with_id(task_type: &str, metadata: JsonValue, id_hex: &str, now: i64) -> (r: Self)
        ensures
            r.fresh(task_type@, json_model(metadata), id_hex@, now),
    {
        let mut task_id = owned("task_");
        push_str(&mut task_id, id_hex);
        Task {
            task_id,
            task_type: owned(task_type),
            status: TaskStatus::Pending,
            progress: 0,
            message: String::new(),
            metadata,
            result: None,
            error: None,
            created_at: now,
            updated_at: now,
            progress_detail: None,
        }
    }

    /// A new pending task with a random identifier, created now.
    pub fn new(task_type: &str, metadata: JsonValue) -> (r: Self)
        ensures
            exists|h: Seq<char>, t: i64|
                is_simple_uuid(h) && r.fresh(task_type@, json_model(metadata), h, t),
    {
        let ghost m = json_model(metadata);
        let id = new_uuid_simple();
        let now = now_nanos();
        let r = Task::with_id(task_type, metadata, id.as_str(), now);
        assert(is_simple_uuid(id@) && r.fresh(task_type@, m, id@, now));
        r
    }

    /// The task as the API reports it.
    pub fn to_dict(&self) -> (r: TaskDictResponse)
        ensures
            r.task_id@ == self.task_id@,
            r.task_type@ == self.task_type@,
            r.status@ == task_status_name(self.status),
            r.progress == self.progress,
            r.message@ == self.message@,
            opt_json_model(r.progress_detail) == opt_json_model(self.progress_detail),
            opt_json_model(r.result) == opt_json_model(self.result),
            r.error == self.error,
            r.created_at == self.created_at,
            r.updated_at == self.updated_at,
    {
        TaskDictResponse {
            task_id: self.task_id.clone(),
            task_type: self.task_type.clone(),
            status: owned(self.status.name()),
            progress: self.progress,
            message: self.message.clone(),
            progress_detail: dup_opt_json(&self.progress_detail),
            result: dup_opt_json(&self.result),
            error: dup_opt_string(&self.error),
            created_at: self.created_at,
            updated_at: self.updated_at,
        }
    }
}

/// A task as the API reports it.
#[derive(Debug)]
pub struct TaskDictResponse {
    pub task_id: String,
    pub task_type: String,
    pub status: String,
    pub progress: u8,
    pub message: String,
    pub progress_detail: Option<JsonValue>,
    pub result: Option<JsonValue>,
    pub error: Option<String>,
    pub created_at: i64,
    pub updated_at: i64,
}

/// Task creation request.
#[derive(Debug)]
pub struct CreateTaskRequest {
    pub task_type: String,
    pub metadata: JsonValue,
}

/// Task status response.
#[derive(Debug)]
pub struct TaskStatusResponse {
    pub success: bool,
    pub data: TaskDictResponse,
}

/// Task list response.
#[derive(Debug)]
pub struct TaskListResponse {
    pub success: bool,
    pub data: Vec<TaskDictResponse>,
    pub count: usize,
}

/// A progress update, as it is streamed to watchers.
#[derive(Debug)]
pub struct TaskProgressUpdate {
    pub task_id: String,
    pub progress: u8,
    pub message: String,
    pub progress_detail: Option<JsonValue>,
}

} // verus!
