//! Gateway protocol schemas: the request, result and event shapes exchanged by
//! gateway RPC clients, with the runtime validation each shape enforces.
use vstd::prelude::*;

pub mod checks;
pub mod cron;
pub mod devices;
pub mod environments;
pub mod frames;
pub mod error_codes;
pub mod exec_approvals;
pub mod fs;
pub mod gateway_suspend;
pub mod json;
pub mod logs_chat;
pub mod maps;
pub mod nodes;
pub mod plugin_approvals;
pub mod plugins;
pub mod primitives;
pub mod protocol_schemas;
pub mod push;
pub mod secrets;
pub mod sessions;
pub mod sessions_catalog;
pub mod snapshot;
pub mod system_info;
pub mod task_suggestions;
pub mod text;

verus! {
} // verus!
