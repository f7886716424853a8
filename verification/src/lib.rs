//! Orchestration core for a multi-agent coding tool.
//!
//! The crate models the three subsystems that carry the hard
//! concurrency and resource-management work of the application:
//! the agent process lifecycle, the session registry that fans one
//! process's ordered event stream out to many subscribers, and the
//! background workspace status scheduler with generation-based
//! cancellation and a bounded admission pool.  Around them stand the
//! services and terminal-UI state machines that the application
//! drives.  All decision logic is verified; process spawning, network
//! and disk I/O stay with the caller, which hands their outcomes in
//! as plain values.

pub mod errors;
pub mod file_path_detector;
pub mod strutil;
pub mod ui;
pub mod agent;
pub mod broadcast;
pub mod config;
pub mod dto;
pub mod web_dto;
pub mod model_registry;
pub mod registry;
pub mod services;
pub mod gateway;
pub mod status_types;
pub mod status_manager;
