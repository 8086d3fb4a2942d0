use vstd::prelude::*;

pub mod strs;
pub mod text;
pub mod json;
pub mod error;
pub mod memory_updater;
pub mod llm;
pub mod ontology;
pub mod ids;
pub mod project;
pub mod report;
pub mod simulation;
pub mod task;
pub mod task_manager;
pub mod actions;
pub mod engine;
pub mod agent;
pub mod interview;
pub mod platform;
pub mod graph;
pub mod prompts;
pub mod profile;
pub mod sim_config;
pub mod report_tools;
pub mod react;
pub mod chat;
pub mod planner;
pub mod report_agent;
pub mod report_store;
pub mod files;
pub mod config;
pub mod api;

verus! {
}
