//! Scheduling primitives for agent sessions: cron jobs, monitors and loops,
//! the registries that hold them, the OS crontab block format, and the text
//! shown for them in the scheduling panel.

pub mod text;
pub mod text_lemmas;
pub mod task;
pub mod timestamp;
pub mod cron_job;
pub mod table;
pub mod registry;
pub mod loop_task;
pub mod loop_registry;
pub mod monitor;
pub mod monitor_registry;
pub mod os_cron;
pub mod paths;
pub mod persist;
pub mod tools;
pub mod tool_specs;
pub mod cron_tools;
pub mod loop_tools;
pub mod monitor_tools;
pub mod protocol;
pub mod view;
