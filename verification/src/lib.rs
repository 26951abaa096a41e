//! Decision core of a coding-agent runtime: lifecycle, turn, compaction, undo and
//! session rules as plain state machines, each with a proved contract.
pub mod compaction;
pub mod config;
pub mod control;
pub mod controllers;
pub mod conversation;
pub mod error;
pub mod event;
pub mod goal_evaluator;
pub mod laws;
pub mod mode;
pub mod owner;
pub mod path;
pub mod phase;
pub mod reminder;
pub mod reprepare;
pub mod rewind;
pub mod session_runtime_registry;
pub mod session_title;
pub mod skill_first;
pub mod start;
pub mod subagent_tiers;
pub mod telemetry;
pub mod text;
pub mod todo;
pub mod undo;
