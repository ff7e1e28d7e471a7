//! What the scheduling tools share: their names, their kind, and the
//! message given when scheduling is off in a session.

use vstd::prelude::*;
use crate::timestamp::rfc3339_text;
use crate::timestamp::to_rfc3339;
use crate::timestamp::Timestamp;

verus! {

pub const CRON_CREATE_TOOL_NAME: &'static str = "cron_create";
pub const CRON_LIST_TOOL_NAME: &'static str = "cron_list";
pub const CRON_DELETE_TOOL_NAME: &'static str = "cron_delete";
pub const CRON_SESSION_CREATE_TOOL_NAME: &'static str = "cron_create_session";
pub const CRON_SESSION_LIST_TOOL_NAME: &'static str = "cron_list_session";
pub const CRON_SESSION_DELETE_TOOL_NAME: &'static str = "cron_delete_session";
pub const LOOP_START_TOOL_NAME: &'static str = "loop_start";
pub const LOOP_LIST_TOOL_NAME: &'static str = "loop_list";
pub const LOOP_STOP_TOOL_NAME: &'static str = "loop_stop";
pub const LOOP_WAKEUP_TOOL_NAME: &'static str = "loop_wakeup";
pub const MONITOR_START_TOOL_NAME: &'static str = "monitor_start";
pub const MONITOR_LIST_TOOL_NAME: &'static str = "monitor_list";
pub const MONITOR_STOP_TOOL_NAME: &'static str = "monitor_stop";
pub const MONITOR_WAIT_TOOL_NAME: &'static str = "monitor_wait";
pub const MONITOR_WATCH_FOR_TOOL_NAME: &'static str = "monitor_watch_for";

/// Whether a task made without saying runs in the background: it does.
pub fn default_background() -> (r: bool)
    ensures
        r,
{
    true
}

/// How a tool is invoked: all scheduling tools are function tools.
#[derive(Debug, Clone, Copy, PartialEq, Eq, Structural)]
pub enum ToolKind {
    Function,
}

/// The answer when the session has scheduling turned off.
pub open spec fn not_enabled_text() -> Seq<char> {
    "scheduling feature is not enabled in this session"@
}

pub fn not_enabled_message() -> (r: String)
    ensures
        r@ == not_enabled_text(),
{
    "scheduling feature is not enabled in this session".to_owned()
}

/// An optional instant as RFC 3339 text.
pub open spec fn opt_rfc3339(t: Option<Timestamp>) -> Option<Seq<char>> {
    match t {
        Some(x) => Some(rfc3339_text(x)),
        None => None,
    }
}

/// The view of optional text.
pub open spec fn opt_view(s: Option<String>) -> Option<Seq<char>> {
    match s {
        Some(x) => Some(x@),
        None => None,
    }
}

pub fn opt_to_rfc3339(t: Option<Timestamp>) -> (r: Option<String>)
    ensures
        opt_view(r) == opt_rfc3339(t),
{
    match t {
        Some(x) => Some(to_rfc3339(x)),
        None => None,
    }
}

} // verus!
