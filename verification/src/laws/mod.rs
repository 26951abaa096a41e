//! What the operations are for, said of their calls: each law takes the arguments and the
//! result of a call and relates them, whatever the operation does on the way.
pub mod agent_events;
pub mod compaction;
pub mod controllers;
pub mod decisions;
pub mod frames;
pub mod lifecycle;
pub mod questions;
pub mod reconfigure;
pub mod registry;
pub mod reminders;
pub mod telemetry;
pub mod texts;
pub mod titles;
pub mod turns;
pub mod undoing;
