//! The in-memory task store: tasks by identifier, created, updated,
//! completed, failed, listed and cleaned up.
use vstd::prelude::*;

use crate::ids::now_nanos;
use crate::json::{JsonModel, JsonValue, json_model};
use crate::ontology::{first_index, lemma_first_index};
use crate::strs::{owned, push_str, str_eq};
use crate::task::{Task, TaskStatus, TaskView, opt_json_model};

verus! {

/// The identifiers of a sequence of tasks, in order.
pub open spec fn task_ids(ts: Seq<Task>) -> Seq<Seq<char>> {
    ts.map_values(|t: Task| t.task_id@)
}

/// No identifier occurs twice.
pub open spec fn distinct(ids: Seq<Seq<char>>) -> bool {
    forall|i: int, j: int| 0 <= i < ids.len() && 0 <= j < ids.len() && i != j ==> ids[i] != ids[j]
}

/// The task with identifier `id` in `ts`.
pub open spec fn lookup(ts: Seq<Task>, id: Seq<char>) -> Option<TaskView> {
    match first_index(task_ids(ts), id) {
        Some(i) => Some(ts[i]@),
        None => None,
    }
}

/// With distinct identifiers, the task found for an identifier is the one
/// at the index that holds it.
pub proof fn lemma_lookup_at(ts: Seq<Task>, k: int)
    requires
        distinct(task_ids(ts)),
        0 <= k < ts.len(),
    ensures
        first_index(task_ids(ts), ts[k].task_id@) == Some(k),
        lookup(ts, ts[k].task_id@) == Some(ts[k]@),
{
    assert forall|j: int| 0 <= j < k implies task_ids(ts)[j] != ts[k].task_id@ by {
        assert(task_ids(ts)[k] == ts[k].task_id@);
    }
    lemma_first_index(task_ids(ts), ts[k].task_id@, k);
}

/// A task absent from `ts` is found nowhere in it.
pub proof fn lemma_lookup_none(ts: Seq<Task>, id: Seq<char>)
    requires
        forall|j: int| 0 <= j < ts.len() ==> ts[j].task_id@ != id,
    ensures
        lookup(ts, id) is None,
{
    assert(!exists|j: int| 0 <= j < task_ids(ts).len() && task_ids(ts)[j] == id);
}

/// An identifier held at index `k` of a store with distinct identifiers.
pub proof fn lemma_lookup_some(ts: Seq<Task>, id: Seq<char>) -> (k: int)
    requires
        distinct(task_ids(ts)),
        lookup(ts, id) is Some,
    ensures
        0 <= k < ts.len(),
        ts[k].task_id@ == id,
        lookup(ts, id) == Some(ts[k]@),
{
    let k = first_index(task_ids(ts), id)->0;
    assert(exists|i: int| 0 <= i < task_ids(ts).len() && task_ids(ts)[i] == id);
    k
}

/// The in-memory task store. Tasks keep the order in which they were
/// created; no two share an identifier.
pub struct TaskManager {
    tasks: Vec<Task>,
}

impl TaskManager {
    /// The tasks, in order.
    pub closed spec fn tasks(self) -> Seq<Task> {
        self.tasks@
    }

    /// The store's invariant: identifiers are distinct.
    pub open spec fn wf(self) -> bool {
        distinct(task_ids(self.tasks()))
    }

    /// The task stored under `id`.
    pub open spec fn get(self, id: Seq<char>) -> Option<TaskView> {
        lookup(self.tasks(), id)
    }

    /// An empty store.
    pub fn new() -> (r: Self)
        ensures
            r.wf(),
            r.tasks().len() == 0,
            forall|id: Seq<char>| r.get(id) is None,
    {
        let r = TaskManager { tasks: Vec::new() };
        assert forall|id: Seq<char>| r.get(id) is None by {
            lemma_lookup_none(r.tasks(), id);
        }
        r
    }

    fn index_of(&self, id: &str) -> (r: Option<usize>)
        requires
            self.wf(),
        ensures
            match r {
                Some(k) => k < self.tasks().len() && self.tasks()[k as int].task_id@ == id@
                    && self.get(id@) == Some(self.tasks()[k as int]@),
                None => self.get(id@) is None,
            },
    {
        let mut i: usize = 0;
        while i < self.tasks.len()
            invariant
                i <= self.tasks@.len(),
                distinct(task_ids(self.tasks@)),
                forall|j: int| 0 <= j < i ==> self.tasks@[j].task_id@ != id@,
            decreases self.tasks.len() - i,
        {
            if str_eq(self.tasks[i].task_id.as_str(), id) {
                proof {
                    lemma_lookup_at(self.tasks@, i as int);
                }
                return Some(i);
            }
            i = i + 1;
        }
        proof {
            lemma_lookup_none(self.tasks@, id@);
        }
        None
    }

    /// Stores `task` under its identifier, in place of a task stored there
    /// before.
    pub fn insert(&mut self, task: Task)
        requires
            old(self).wf(),
        ensures
            final(self).wf(),
            final(self).get(task.task_id@) == Some(task@),
            forall|id: Seq<char>| id != task.task_id@ ==> final(self).get(id) == old(self).get(id),
    {
        let ghost t = task@;
        let ghost old_tasks = self.tasks@;
        match self.index_of(task.task_id.as_str()) {
            Some(k) => {
                self.tasks.set(k, task);
                proof {
                    assert(task_ids(self.tasks@) =~= task_ids(old_tasks));
                    lemma_lookup_at(self.tasks@, k as int);
                    assert forall|id: Seq<char>| id != t.task_id implies self.get(id) == lookup(
                        old_tasks,
                        id,
                    ) by {
                        if let Some(i) = first_index(task_ids(old_tasks), id) {
                            assert(task_ids(old_tasks)[i] == id);
                            assert(i != k);
                        }
                    }
                }
            },
            None => {
                self.tasks.push(task);
                proof {
                    let n = old_tasks.len() as int;
                    assert(task_ids(self.tasks@) =~= task_ids(old_tasks).push(t.task_id));
                    assert forall|j: int| 0 <= j < n implies old_tasks[j].task_id@ != t.task_id by {
                        if old_tasks[j].task_id@ == t.task_id {
                            lemma_lookup_at(old_tasks, j);
                        }
                    }
                    lemma_lookup_at(self.tasks@, n);
                    assert forall|id: Seq<char>| id != t.task_id implies self.get(id) == lookup(
                        old_tasks,
                        id,
                    ) by {
                        if lookup(old_tasks, id) is Some {
                            let k = lemma_lookup_some(old_tasks, id);
                            lemma_lookup_at(self.tasks@, k);
                        } else {
                            assert forall|j: int| 0 <= j < self.tasks@.len() implies self.tasks@[j].task_id@ != id by {
                                if j < n && old_tasks[j].task_id@ == id {
                                    lemma_lookup_at(old_tasks, j);
                                }
                            }
                            lemma_lookup_none(self.tasks@, id);
                        }
                    }
                }
            },
        }
    }

    /// Creates a pending task of type `task_type` and returns its identifier.
    pub fn create_task(&mut self, task_type: &str, metadata: JsonValue) -> (r: String)
        requires
            old(self).wf(),
        ensures
            final(self).wf(),
            final(self).get(r@) matches Some(t) && t.task_id == r@ && t.task_type == task_type@
                && t.status == TaskStatus::Pending && t.progress == 0 && t.metadata == json_model(
                metadata,
            ) && t.result is None && t.error is None && t.progress_detail is None,
            forall|id: Seq<char>| id != r@ ==> final(self).get(id) == old(self).get(id),
    {
        let task = Task::new(task_type, metadata);
        let id = task.task_id.clone();
        self.insert(task);
        id
    }

    /// A copy of the task stored under `task_id`.
    pub fn get_task(&self, task_id: &str) -> (r: Option<Task>)
        requires
            self.wf(),
        ensures
            match r {
                Some(t) => self.get(task_id@) == Some(t@),
                None => self.get(task_id@) is None,
            },
    {
        match self.index_of(task_id) {
            Some(k) => Some(self.tasks[k].duplicate()),
            None => None,
        }
    }

    /// The tasks, copied, in the order they were created.
    pub fn list_tasks(&self) -> (r: Vec<Task>)
        ensures
            r@.len() == self.tasks().len(),
            forall|i: int| 0 <= i < r@.len() ==> (#[trigger] r@[i])@ == self.tasks()[i]@,
    {
        let mut r: Vec<Task> = Vec::new();
        let mut i: usize = 0;
        while i < self.tasks.len()
            invariant
                i <= self.tasks@.len(),
                r@.len() == i,
                forall|j: int| 0 <= j < i ==> (#[trigger] r@[j])@ == self.tasks@[j]@,
            decreases self.tasks.len() - i,
        {
            r.push(self.tasks[i].duplicate());
            i = i + 1;
        }
        r
    }
}

/// A task after an update: each given field replaced, the update time set.
pub open spec fn updated(
    t: TaskView,
    status: Option<TaskStatus>,
    progress: Option<u8>,
    message: Option<Seq<char>>,
    detail: Option<JsonModel>,
    now: i64,
) -> TaskView {
    TaskView {
        task_id: t.task_id,
        task_type: t.task_type,
        status: match status {
            Some(s) => s,
            None => t.status,
        },
        progress: match progress {
            Some(p) => p,
            None => t.progress,
        },
        message: match message {
            Some(m) => m,
            None => t.message,
        },
        metadata: t.metadata,
        result: t.result,
        error: t.error,
        created_at: t.created_at,
        updated_at: now,
        progress_detail: match detail {
            Some(d) => Some(d),
            None => t.progress_detail,
        },
    }
}

pub open spec fn opt_str(o: Option<&str>) -> Option<Seq<char>> {
    match o {
        Some(s) => Some(s@),
        None => None,
    }
}

/// What a completed task holds: status `Completed`, progress 100, the
/// message "Task completed" and the result.
pub open spec fn completed(t: TaskView, result: JsonModel, now: i64) -> TaskView {
    let u = updated(t, Some(TaskStatus::Completed), Some(100u8), Some("Task completed"@), None, now);
    TaskView { result: Some(result), ..u }
}

/// What a failed task holds: status `Failed`, the message
/// "Task failed: <error>" and the error.
pub open spec fn failed(t: TaskView, error: Seq<char>, now: i64) -> TaskView {
    let u = updated(t, Some(TaskStatus::Failed), None, Some("Task failed: "@ + error), None, now);
    TaskView { error: Some(error), ..u }
}

/// Whether cleanup keeps a task: it was updated after `cutoff`, or it has
/// not completed.
pub open spec fn kept(t: TaskView, cutoff: i64) -> bool {
    t.updated_at > cutoff || t.status != TaskStatus::Completed
}

/// `after` is `before` without the tasks that cleanup at `cutoff` drops.
pub open spec fn cleaned(before: TaskManager, after: TaskManager, cutoff: i64) -> bool {
    forall|id: Seq<char>|
        after.get(id) == match before.get(id) {
            Some(t) => if kept(t, cutoff) {
                Some(t)
            } else {
                None
            },
            None => None,
        }
}

impl TaskManager {
    /// Updates the given fields of the task stored under `task_id` at time
    /// `now`, and returns a copy of it; `None`, with nothing changed, where
    /// there is no such task.
    pub fn update_task_at(
        &mut self,
        task_id: &str,
        status: Option<TaskStatus>,
        progress: Option<u8>,
        message: Option<&str>,
        progress_detail: Option<JsonValue>,
        now: i64,
    ) -> (r: Option<Task>)
        requires
            old(self).wf(),
        ensures
            final(self).wf(),
            match old(self).get(task_id@) {
                Some(t) => {
                    let u = updated(
                        t,
                        status,
                        progress,
                        opt_str(message),
                        opt_json_model(progress_detail),
                        now,
                    );
                    &&& final(self).get(task_id@) == Some(u)
                    &&& r matches Some(x) && x@ == u
                },
                None => r is None && final(self).tasks() == old(self).tasks(),
            },
            forall|id: Seq<char>| id != task_id@ ==> final(self).get(id) == old(self).get(id),
    {
        let ghost d = opt_json_model(progress_detail);
        let k = match self.index_of(task_id) {
            Some(k) => k,
            None => return None,
        };
        let mut t = self.tasks[k].duplicate();
        if let Some(s) = status {
            t.status = s;
        }
        if let Some(p) = progress {
            t.progress = p;
        }
        if let Some(m) = message {
            t.message = owned(m);
        }
        if let Some(dv) = progress_detail {
            t.progress_detail = Some(dv);
        }
        t.updated_at = now;
        let copy = t.duplicate();
        self.insert(t);
        Some(copy)
    }

    /// Updates the given fields of a task, at the current time.
    pub fn update_task(
        &mut self,
        task_id: &str,
        status: Option<TaskStatus>,
        progress: Option<u8>,
        message: Option<&str>,
        progress_detail: Option<JsonValue>,
    ) -> (r: Option<Task>)
        requires
            old(self).wf(),
        ensures
            final(self).wf(),
            match old(self).get(task_id@) {
                Some(t) => exists|now: i64|
                    final(self).get(task_id@) == Some(
                        #[trigger] updated(
                            t,
                            status,
                            progress,
                            opt_str(message),
                            opt_json_model(progress_detail),
                            now,
                        ),
                    ) && r is Some && r->0@ == updated(
                        t,
                        status,
                        progress,
                        opt_str(message),
                        opt_json_model(progress_detail),
                        now,
                    ),
                None => r is None && final(self).tasks() == old(self).tasks(),
            },
            forall|id: Seq<char>| id != task_id@ ==> final(self).get(id) == old(self).get(id),
    {
        let now = now_nanos();
        self.update_task_at(task_id, status, progress, message, progress_detail, now)
    }

    /// Marks the task under `task_id` completed with `result` at time `now`.
    pub fn complete_task_at(&mut self, task_id: &str, result: JsonValue, now: i64) -> (r: Option<
        Task,
    >)
        requires
            old(self).wf(),
        ensures
            final(self).wf(),
            match old(self).get(task_id@) {
                Some(t) => {
                    &&& final(self).get(task_id@) == Some(completed(t, json_model(result), now))
                    &&& r matches Some(x) && x@ == completed(t, json_model(result), now)
                },
                None => r is None && final(self).tasks() == old(self).tasks(),
            },
            forall|id: Seq<char>| id != task_id@ ==> final(self).get(id) == old(self).get(id),
    {
        let ghost g = self.get(task_id@);
        let ghost rm = json_model(result);
        let msg = "Task completed";
        proof {
            reveal_strlit("Task completed");
        }
        if self.update_task_at(task_id, Some(TaskStatus::Completed), Some(100), Some(msg), None, now).is_none() {
            return None;
        }
        let k = match self.index_of(task_id) {
            Some(k) => k,
            None => return None,
        };
        let mut t = self.tasks[k].duplicate();
        t.result = Some(result);
        let copy = t.duplicate();
        self.insert(t);
        Some(copy)
    }

    /// Marks the task under `task_id` completed with `result`, now.
    pub fn complete_task(&mut self, task_id: &str, result: JsonValue) -> (r: Option<Task>)
        requires
            old(self).wf(),
        ensures
            final(self).wf(),
            match old(self).get(task_id@) {
                Some(t) => exists|now: i64|
                    final(self).get(task_id@) == Some(
                        #[trigger] completed(t, json_model(result), now),
                    ) && r is Some && r->0@ == completed(t, json_model(result), now),
                None => r is None && final(self).tasks() == old(self).tasks(),
            },
            forall|id: Seq<char>| id != task_id@ ==> final(self).get(id) == old(self).get(id),
    {
        let now = now_nanos();
        self.complete_task_at(task_id, result, now)
    }

    /// Marks the task under `task_id` failed with `error` at time `now`.
    pub fn fail_task_at(&mut self, task_id: &str, error: &str, now: i64) -> (r: Option<Task>)
        requires
            old(self).wf(),
        ensures
            final(self).wf(),
            match old(self).get(task_id@) {
                Some(t) => {
                    &&& final(self).get(task_id@) == Some(failed(t, error@, now))
                    &&& r matches Some(x) && x@ == failed(t, error@, now)
                },
                None => r is None && final(self).tasks() == old(self).tasks(),
            },
            forall|id: Seq<char>| id != task_id@ ==> final(self).get(id) == old(self).get(id),
    {
        let mut msg = owned("Task failed: ");
        push_str(&mut msg, error);
        if self.update_task_at(task_id, Some(TaskStatus::Failed), None, Some(msg.as_str()), None, now).is_none() {
            return None;
        }
        let k = match self.index_of(task_id) {
            Some(k) => k,
            None => return None,
        };
        let mut t = self.tasks[k].duplicate();
        t.error = Some(owned(error));
        let copy = t.duplicate();
        self.insert(t);
        Some(copy)
    }

    /// Marks the task under `task_id` failed with `error`, now.
    pub fn fail_task(&mut self, task_id: &str, error: &str) -> (r: Option<Task>)
        requires
            old(self).wf(),
        ensures
            final(self).wf(),
            match old(self).get(task_id@) {
                Some(t) => exists|now: i64|
                    final(self).get(task_id@) == Some(#[trigger] failed(t, error@, now)) && r is Some
                        && r->0@ == failed(t, error@, now),
                None => r is None && final(self).tasks() == old(self).tasks(),
            },
            forall|id: Seq<char>| id != task_id@ ==> final(self).get(id) == old(self).get(id),
    {
        let now = now_nanos();
        self.fail_task_at(task_id, error, now)
    }

    /// Drops the completed tasks last updated at or before `cutoff`; the
    /// others stay, in order.
    pub fn cleanup_before(&mut self, cutoff: i64)
        requires
            old(self).wf(),
        ensures
            final(self).wf(),
            cleaned(*old(self), *final(self), cutoff),
    {
        let ghost old_tasks = self.tasks@;
        let mut r: Vec<Task> = Vec::new();
        let ghost mut idx: Seq<int> = Seq::empty();
        let mut i: usize = 0;
        let n = self.tasks.len();
        while i < n
            invariant
                n == old_tasks.len(),
                self.tasks@ == old_tasks,
                distinct(task_ids(old_tasks)),
                i <= n,
                idx.len() == r@.len(),
                forall|a: int| 0 <= a < idx.len() ==> 0 <= #[trigger] idx[a] < i,
                forall|a: int, b: int| 0 <= a < b < idx.len() ==> idx[a] < idx[b],
                forall|a: int| 0 <= a < idx.len() ==> (#[trigger] r@[a])@ == old_tasks[idx[a]]@,
                forall|a: int| 0 <= a < idx.len() ==> kept(old_tasks[#[trigger] idx[a]]@, cutoff),
                forall|j: int|
                    0 <= j < i && kept(#[trigger] old_tasks[j]@, cutoff) ==> exists|a: int|
                        0 <= a < idx.len() && idx[a] == j,
            decreases n - i,
        {
            let t = &self.tasks[i];
            let keep = t.updated_at > cutoff || t.status != TaskStatus::Completed;
            let ghost idx0 = idx;
            if keep {
                r.push(t.duplicate());
                proof {
                    idx = idx.push(i as int);
                }
            }
            proof {
                assert forall|j: int|
                    0 <= j < i + 1 && kept(#[trigger] old_tasks[j]@, cutoff) implies exists|a: int|
                        0 <= a < idx.len() && idx[a] == j by {
                    if j == i {
                        assert(idx[idx.len() - 1] == j);
                    } else {
                        let a = choose|a: int| 0 <= a < idx0.len() && idx0[a] == j;
                        assert(idx[a] == j);
                    }
                }
            }
            i = i + 1;
        }
        self.tasks = r;
        proof {
            let rs = self.tasks@;
            assert forall|a: int, b: int|
                0 <= a < task_ids(rs).len() && 0 <= b < task_ids(rs).len() && a != b implies task_ids(
                rs,
            )[a] != task_ids(rs)[b] by {
                assert(task_ids(rs)[a] == old_tasks[idx[a]].task_id@);
                assert(task_ids(rs)[b] == old_tasks[idx[b]].task_id@);
                assert(idx[a] != idx[b]);
                assert(task_ids(old_tasks)[idx[a]] == old_tasks[idx[a]].task_id@);
                assert(task_ids(old_tasks)[idx[b]] == old_tasks[idx[b]].task_id@);
            }
            assert forall|id: Seq<char>|
                lookup(rs, id) == match lookup(old_tasks, id) {
                    Some(t) => if kept(t, cutoff) {
                        Some(t)
                    } else {
                        None
                    },
                    None => None,
                } by {
                if lookup(old_tasks, id) is Some {
                    let k = lemma_lookup_some(old_tasks, id);
                    if kept(old_tasks[k]@, cutoff) {
                        let a = choose|a: int| 0 <= a < idx.len() && idx[a] == k;
                        lemma_lookup_at(rs, a);
                    } else {
                        assert forall|a: int| 0 <= a < rs.len() implies rs[a].task_id@ != id by {
                            if rs[a].task_id@ == id {
                                lemma_lookup_at(old_tasks, idx[a]);
                                assert(task_ids(old_tasks)[idx[a]] == id);
                                assert(task_ids(old_tasks)[k] == id);
                            }
                        }
                        lemma_lookup_none(rs, id);
                    }
                } else {
                    assert forall|a: int| 0 <= a < rs.len() implies rs[a].task_id@ != id by {
                        if rs[a].task_id@ == id {
                            lemma_lookup_at(old_tasks, idx[a]);
                        }
                    }
                    lemma_lookup_none(rs, id);
                }
            }
        }
    }

    /// Drops the completed tasks not updated within the last `max_age_secs`
    /// seconds before `now` (nanoseconds since the Unix epoch).
    pub fn cleanup_old_tasks_at(&mut self, max_age_secs: u64, now: i64)
        requires
            old(self).wf(),
            max_age_secs * 1_000_000_000 <= now - i64::MIN,
        ensures
            final(self).wf(),
            cleaned(*old(self), *final(self), (now - max_age_secs * 1_000_000_000) as i64),
    {
        let span = (max_age_secs as i128) * 1_000_000_000;
        let cutoff = ((now as i128) - span) as i64;
        self.cleanup_before(cutoff);
    }

    /// Drops the completed tasks not updated within the last `max_age_secs`
    /// seconds, now. Returns `false`, with nothing dropped, where the cutoff
    /// lies before the earliest representable time.
    pub fn cleanup_old_tasks(&mut self, max_age_secs: u64) -> (r: bool)
        requires
            old(self).wf(),
        ensures
            final(self).wf(),
            !r ==> final(self).tasks() == old(self).tasks(),
            r ==> exists|cutoff: i64| #[trigger] cleaned(*old(self), *final(self), cutoff),
    {
        let now = now_nanos();
        let span = (max_age_secs as i128) * 1_000_000_000;
        if (now as i128) - span < (i64::MIN as i128) {
            return false;
        }
        let ghost cutoff = (now - max_age_secs * 1_000_000_000) as i64;
        self.cleanup_old_tasks_at(max_age_secs, now);
        assert(cleaned(*old(self), *self, cutoff));
        true
    }
}


/// Cleanup drops only completed tasks, and of those only the ones last
/// updated at or before the cutoff: a pending, processing or failed task
/// stays whatever its age, a task updated after the cutoff stays whatever
/// its status, an old completed task is gone, and no task appears.
pub proof fn lemma_cleanup_drops_only_old_completed(before: TaskManager, after: TaskManager, cutoff: i64)
    requires
        cleaned(before, after, cutoff),
    ensures
        forall|id: Seq<char>|
            #![trigger after.get(id)]
            before.get(id) matches Some(t) ==> ((t.status == TaskStatus::Pending || t.status
                == TaskStatus::Processing || t.status == TaskStatus::Failed) ==> after.get(id)
                == Some(t)),
        forall|id: Seq<char>|
            #![trigger after.get(id)]
            before.get(id) matches Some(t) ==> (t.updated_at > cutoff ==> after.get(id) == Some(t)),
        forall|id: Seq<char>|
            #![trigger after.get(id)]
            before.get(id) matches Some(t) ==> (t.status == TaskStatus::Completed && t.updated_at
                <= cutoff ==> after.get(id) is None),
        forall|id: Seq<char>| #![trigger after.get(id)] before.get(id) is None ==> after.get(id) is None,
{
    assert forall|id: Seq<char>| #![trigger after.get(id)] true implies after.get(id) == match before.get(id) {
        Some(t) => if kept(t, cutoff) {
            Some(t)
        } else {
            None
        },
        None => None,
    } by {}
}

} // verus!
