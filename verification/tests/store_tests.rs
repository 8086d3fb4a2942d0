use mirofish::json::{JsonNumber, JsonValue};
use mirofish::report_store::{ReportSection, ReportStore, StoredReport};
use mirofish::task::{Task, TaskStatus};
use mirofish::task_manager::TaskManager;

fn obj(fields: Vec<(&str, JsonValue)>) -> JsonValue {
    JsonValue::Object(fields.into_iter().map(|(k, v)| (k.to_string(), v)).collect())
}

fn text(s: &str) -> JsonValue {
    JsonValue::String(s.to_string())
}

fn member<'a>(v: &'a JsonValue, key: &str) -> Option<&'a JsonValue> {
    match v {
        JsonValue::Object(f) => f.iter().find(|(k, _)| k == key).map(|(_, v)| v),
        _ => None,
    }
}

fn member_str(v: &JsonValue, key: &str) -> Option<String> {
    match member(v, key) {
        Some(JsonValue::String(s)) => Some(s.clone()),
        _ => None,
    }
}

#[test]
fn created_task_is_pending_and_found_again() {
    let mut tm = TaskManager::new();
    let id = tm.create_task("graph_build", obj(vec![("project_id", text("p1"))]));
    assert!(id.starts_with("task_"));
    assert_eq!(id.len(), 5 + 32);
    let t = tm.get_task(&id).expect("the task");
    assert_eq!(t.task_id, id);
    assert_eq!(t.task_type, "graph_build");
    assert_eq!(t.status, TaskStatus::Pending);
    assert_eq!(t.progress, 0);
    assert_eq!(t.message, "");
    assert!(t.result.is_none());
    assert!(tm.get_task("task_missing").is_none());
}

#[test]
fn update_changes_only_the_given_fields() {
    let mut tm = TaskManager::new();
    let id = tm.create_task("run", JsonValue::Null);
    let t = tm
        .update_task_at(&id, None, Some(40), Some("Working"), None, 123)
        .expect("updated");
    assert_eq!(t.status, TaskStatus::Pending);
    assert_eq!(t.progress, 40);
    assert_eq!(t.message, "Working");
    assert_eq!(t.updated_at, 123);
    let again = tm.get_task(&id).unwrap();
    assert_eq!(again.progress, 40);
    assert!(tm.update_task_at("nope", Some(TaskStatus::Failed), None, None, None, 1).is_none());
}

#[test]
fn completed_task_has_its_result() {
    let mut tm = TaskManager::new();
    let id = tm.create_task("run", JsonValue::Null);
    let t = tm.complete_task_at(&id, text("done"), 77).expect("completed");
    assert_eq!(t.status, TaskStatus::Completed);
    assert_eq!(t.progress, 100);
    assert_eq!(t.message, "Task completed");
    assert!(matches!(t.result, Some(JsonValue::String(ref s)) if s == "done"));
}

#[test]
fn failed_task_has_its_error() {
    let mut tm = TaskManager::new();
    let id = tm.create_task("run", JsonValue::Null);
    let t = tm.fail_task_at(&id, "disk full", 5).expect("failed");
    assert_eq!(t.status, TaskStatus::Failed);
    assert_eq!(t.message, "Task failed: disk full");
    assert_eq!(t.error.as_deref(), Some("disk full"));
    assert!(tm.fail_task("missing", "x").is_none());
}

#[test]
fn cleanup_drops_only_old_completed_tasks() {
    let mut tm = TaskManager::new();
    let old_done = tm.create_task("a", JsonValue::Null);
    let old_running = tm.create_task("b", JsonValue::Null);
    let new_done = tm.create_task("c", JsonValue::Null);
    tm.complete_task_at(&old_done, JsonValue::Null, 1_000_000_000);
    tm.update_task_at(&old_running, Some(TaskStatus::Processing), None, None, None, 1_000_000_000);
    tm.complete_task_at(&new_done, JsonValue::Null, 9_000_000_000);
    // Now is 10 s; tasks older than 5 s go if they are completed.
    tm.cleanup_old_tasks_at(5, 10_000_000_000);
    assert!(tm.get_task(&old_done).is_none());
    assert!(tm.get_task(&old_running).is_some());
    assert!(tm.get_task(&new_done).is_some());
    assert_eq!(tm.list_tasks().len(), 2);
}

#[test]
fn task_dict_reports_the_status_name() {
    let t = Task::with_id("kind", JsonValue::Null, "0123", 42);
    let d = t.to_dict();
    assert_eq!(d.task_id, "task_0123");
    assert_eq!(d.status, "Pending");
    assert_eq!(d.created_at, 42);
}

fn report(id: &str, sim: &str, created: i64, status: &str) -> StoredReport {
    StoredReport {
        report_id: id.to_string(),
        simulation_id: sim.to_string(),
        status: status.to_string(),
        sections: vec![
            ReportSection { index: 0, title: "Intro".to_string(), content: "first".to_string() },
            ReportSection { index: 1, title: "Body".to_string(), content: "second".to_string() },
        ],
        markdown_content: "# R".to_string(),
        created_at: created,
        completed_at: None,
        error: None,
    }
}

#[test]
fn saved_report_is_found_by_id_and_by_simulation() {
    let mut store = ReportStore::new();
    store.save_report(report("r1", "s1", 0, "completed"));
    let j = store.get_report("r1").expect("stored");
    assert_eq!(member_str(&j, "report_id").as_deref(), Some("r1"));
    assert_eq!(member_str(&j, "simulation_id").as_deref(), Some("s1"));
    assert_eq!(member_str(&j, "created_at").as_deref(), Some("1970-01-01T00:00:00+00:00"));
    let by_sim = store.get_report_by_simulation("s1").expect("linked");
    assert_eq!(member_str(&by_sim, "report_id").as_deref(), Some("r1"));
    assert!(store.get_report("r2").is_none());
    assert!(store.get_report_by_simulation("s2").is_none());
}

#[test]
fn saving_again_replaces_the_report_and_the_link() {
    let mut store = ReportStore::new();
    store.save_report(report("r1", "s1", 0, "generating"));
    store.save_report(report("r2", "s1", 1, "completed"));
    let by_sim = store.get_report_by_simulation("s1").unwrap();
    assert_eq!(member_str(&by_sim, "report_id").as_deref(), Some("r2"));
    store.save_report(report("r1", "s9", 2, "completed"));
    let j = store.get_report("r1").unwrap();
    assert_eq!(member_str(&j, "simulation_id").as_deref(), Some("s9"));
}

#[test]
fn deleted_report_and_its_link_are_gone() {
    let mut store = ReportStore::new();
    store.save_report(report("r1", "s1", 0, "completed"));
    store.save_report(report("r2", "s2", 0, "completed"));
    assert!(store.delete_report("r1"));
    assert!(store.get_report("r1").is_none());
    assert!(store.get_report_by_simulation("s1").is_none());
    assert!(store.get_report("r2").is_some());
    assert!(!store.delete_report("r1"));
}

#[test]
fn sections_are_listed_with_file_names() {
    let mut store = ReportStore::new();
    store.save_report(report("r1", "s1", 0, "completed"));
    let secs = store.get_sections("r1");
    assert_eq!(secs.len(), 2);
    assert_eq!(member_str(&secs[0], "filename").as_deref(), Some("section_00.md"));
    assert_eq!(member_str(&secs[1], "content").as_deref(), Some("second"));
    assert!(matches!(member(&secs[1], "section_index"), Some(JsonValue::Number(JsonNumber::PosInt(1)))));
    assert_eq!(store.get_section("r1", 1).as_deref(), Some("second"));
    assert_eq!(store.get_section("r1", 7), None);
    assert!(store.get_sections("nope").is_empty());
}

#[test]
fn completion_is_read_from_the_status() {
    let mut store = ReportStore::new();
    store.save_report(report("r1", "s1", 0, "completed"));
    store.save_report(report("r2", "s2", 0, "generating"));
    assert!(store.is_report_complete("r1"));
    assert!(!store.is_report_complete("r2"));
    assert!(!store.is_report_complete("r3"));
}

#[test]
fn reports_are_listed_newest_first() {
    let mut store = ReportStore::new();
    store.save_report(report("old", "s1", 1_000_000, "completed"));
    store.save_report(report("new", "s2", 3_000_000, "completed"));
    store.save_report(report("mid", "s3", 2_000_000, "completed"));
    let list = store.list_reports(10);
    let ids: Vec<String> = list.iter().map(|j| member_str(j, "report_id").unwrap()).collect();
    assert_eq!(ids, vec!["new", "mid", "old"]);
    assert_eq!(store.list_reports(1).len(), 1);
}

fn hex_after(id: &str, prefix: &str) -> bool {
    match id.strip_prefix(prefix) {
        Some(rest) => rest.len() == 32 && rest.chars().all(|c| c.is_ascii_digit() || ('a'..='f').contains(&c)),
        None => false,
    }
}

#[test]
fn fresh_records_get_random_simple_uuids() {
    let p = mirofish::project::Project::new("p");
    assert!(hex_after(&p.project_id, "proj_"));
    let t = Task::new("kind", JsonValue::Null);
    assert!(hex_after(&t.task_id, "task_"));
    assert_eq!(t.status, TaskStatus::Pending);
    let s = mirofish::simulation::Simulation::new("p", "g", true, false);
    assert!(hex_after(&s.simulation_id, "sim_"));
    let r = mirofish::report::Report::new("s", "g", "req");
    assert!(hex_after(&r.report_id, "report_"));
    assert_ne!(Task::new("kind", JsonValue::Null).task_id, t.task_id);
    assert!(t.created_at > 0);
}

#[test]
fn report_times_keep_nanoseconds() {
    let mut store = ReportStore::new();
    store.save_report(report("r1", "s1", 1_500_000_001, "completed"));
    let j = store.get_report("r1").expect("stored");
    assert_eq!(member_str(&j, "created_at").as_deref(), Some("1970-01-01T00:00:01.500000001+00:00"));
}

#[test]
fn only_finished_tasks_end_their_stream() {
    assert!(TaskStatus::Completed.is_finished());
    assert!(TaskStatus::Failed.is_finished());
    assert!(!TaskStatus::Pending.is_finished());
    assert!(!TaskStatus::Processing.is_finished());
}
