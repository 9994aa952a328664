//! Trove workbench: the verified core of a personal task, memory and
//! reminder workbench.

pub mod chars;
pub mod text;
pub mod ids;
pub mod clock;
pub mod db;
pub mod schema;
pub mod domain;
pub mod rows;
pub mod links;
pub mod dates;
pub mod task_model;
pub mod store;
pub mod task_rules;
pub mod task_query;
pub mod tags;
pub mod tasks;
pub mod json;
pub mod smoke_notes;
pub mod saved_views;
pub mod focus;
pub mod search;
pub mod reminders;
pub mod memories;
pub mod templates;
pub mod memory_text;
pub mod ai_model;
pub mod fragments;
pub mod clipboard;
pub mod weekly_review;
pub mod ai_suggestions;
pub mod automation;
pub mod actions;
pub mod assets;
pub mod app_state;
pub mod cli_protocol;
pub mod workbench_actions;
pub mod csv_tasks;
pub mod backup;
pub mod daily_wrap;
pub mod health_dashboard;
pub mod data_port;
pub mod file_refs;
pub mod semantic_index;
