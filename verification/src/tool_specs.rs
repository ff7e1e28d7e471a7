//! The tool definitions offered to the model for scheduling: each tool's
//! name, its description (when to use it and when not), and its parameters
//! with their JSON types. Turning them into the wire format of the model
//! API is the host's part.

use vstd::prelude::*;
use crate::text::views;
use crate::tools::CRON_CREATE_TOOL_NAME;
use crate::tools::CRON_DELETE_TOOL_NAME;
use crate::tools::CRON_LIST_TOOL_NAME;
use crate::tools::CRON_SESSION_CREATE_TOOL_NAME;
use crate::tools::CRON_SESSION_DELETE_TOOL_NAME;
use crate::tools::CRON_SESSION_LIST_TOOL_NAME;
use crate::tools::LOOP_LIST_TOOL_NAME;
use crate::tools::LOOP_START_TOOL_NAME;
use crate::tools::LOOP_STOP_TOOL_NAME;
use crate::tools::MONITOR_LIST_TOOL_NAME;
use crate::tools::MONITOR_START_TOOL_NAME;
use crate::tools::MONITOR_STOP_TOOL_NAME;
use crate::tools::MONITOR_WAIT_TOOL_NAME;
use crate::tools::MONITOR_WATCH_FOR_TOOL_NAME;

verus! {

/// The JSON type of a tool parameter.
#[derive(Debug, Clone, Copy, PartialEq, Eq, Structural)]
pub enum ParamType {
    String,
    Number,
    Integer,
    Boolean,
}

/// One parameter of a tool: its name, JSON type and description.
#[derive(Debug)]
pub struct ToolParam {
    pub name: String,
    pub param_type: ParamType,
    pub description: String,
}

/// A tool's parameters as a JSON object schema: the properties in name
/// order, the names that must be given, and whether other properties are
/// allowed.
#[derive(Debug)]
pub struct ObjectSchema {
    pub properties: Vec<ToolParam>,
    pub required: Option<Vec<String>>,
    pub additional_properties: Option<bool>,
}

/// A function tool of the model API.
#[derive(Debug)]
pub struct ResponsesApiTool {
    pub name: String,
    pub description: String,
    pub strict: bool,
    pub defer_loading: Option<bool>,
    pub parameters: ObjectSchema,
    pub output_schema: Option<ObjectSchema>,
}

/// A tool offered to the model.
#[derive(Debug)]
pub enum ToolSpec {
    Function(ResponsesApiTool),
}

/// The plain values of a parameter: name, type, description.
pub open spec fn param_view(p: ToolParam) -> (Seq<char>, ParamType, Seq<char>) {
    (p.name@, p.param_type, p.description@)
}

/// The plain values of parameters, in order.
pub open spec fn params_view(ps: Seq<ToolParam>) -> Seq<(Seq<char>, ParamType, Seq<char>)> {
    ps.map_values(|p: ToolParam| param_view(p))
}

/// `t` is the function tool `name` with `description`, not strict, not
/// deferred, without an output schema, whose parameters are exactly
/// `params` in that order, of which the names `required` must be given,
/// and which allows no other parameters.
pub open spec fn is_function_tool(
    t: ToolSpec,
    name: Seq<char>,
    description: Seq<char>,
    params: Seq<(Seq<char>, ParamType, Seq<char>)>,
    required: Seq<Seq<char>>,
) -> bool {
    match t {
        ToolSpec::Function(f) => {
            &&& f.name@ == name
            &&& f.description@ == description
            &&& !f.strict
            &&& f.defer_loading is None
            &&& f.output_schema is None
            &&& params_view(f.parameters.properties@) == params
            &&& f.parameters.required matches Some(r) && views(r@) == required
            &&& f.parameters.additional_properties == Some(false)
        },
    }
}

fn tool_param(name: &str, param_type: ParamType, description: &str) -> (r: ToolParam)
    ensures
        param_view(r) == (name@, param_type, description@),
{
    ToolParam { name: name.to_owned(), param_type, description: description.to_owned() }
}

fn function_tool(name: &str, description: &str, properties: Vec<ToolParam>, required: Vec<String>) -> (r:
    ToolSpec)
    ensures
        is_function_tool(r, name@, description@, params_view(properties@), views(required@)),
{
    ToolSpec::Function(
        ResponsesApiTool {
            name: name.to_owned(),
            description: description.to_owned(),
            strict: false,
            defer_loading: None,
            parameters: ObjectSchema {
                properties,
                required: Some(required),
                additional_properties: Some(false),
            },
            output_schema: None,
        },
    )
}

/// What the `cron_create` tool is for, for the model.
pub const CRON_CREATE_DESCRIPTION: &'static str = r#"Schedule a prompt to run on a recurring **clock-aligned** schedule, persisted at the OS level via the user's system crontab.

KEY FACTS the model must understand before calling this:

1. **Persistence**: schedules survive ata closing, reboot, and re-login. They live in the user's crontab (`crontab -l`), not in any ata session. Closing ata does NOT stop the schedule.

2. **Fresh process per firing**: each firing launches `ata exec "<prompt>"` as a brand-new ata process. The new process has NO memory of the current chat session, no conversation history, no local variables. Write the prompt as fully self-contained.

3. **Output goes to a log file**, not chat. Each job logs to `~/.ata/cron/<task_id>.log`. The user must `tail -f` the file (or ask you to read it) to see firings.

4. **1-minute minimum**: OS cron's smallest interval is 1 minute. `*/30 * * * * *` (every 30 seconds) is impossible.

5. **5-field, not 6-field**: standard POSIX cron has NO seconds column. Format is `min hour day-of-month month day-of-week`.

USE THIS TOOL when the user wants:
- "every Monday at 9am, do X"
- "at the top of every hour, do X"
- "daily at 09:00, do X"
- "every 2 minutes, do X" (2-min is fine; sub-minute is not)
- Any persistent recurring task that should outlive a single ata session

DO NOT USE THIS TOOL when:
- The user wants the schedule to die when ata closes ("every 5 min while I'm working today") — use `cron_create_session`.
- The firing needs the current chat's context ("every hour, summarize what we've discussed") — use `cron_create_session` (in-chat firings have conversation memory) or `loop_start`.
- The user wants sub-minute granularity — OS cron can't do it. Use `cron_create_session` (allows sub-minute) or `loop_start`.
- The user wants to react to streaming output (logs, build progress) — use `monitor_start`.
- The user wants the agent to keep checking until a condition is met, then stop — use `loop_start`.

Rule of thumb: clock-aligned + persistent + can-be-self-contained → cron. Anything else → loop or monitor.

The tool returns `task_id`, `next_fire_at` (UTC RFC3339), and `log_path`. Surface `log_path` to the user so they know where to look.

Examples:
- "Every 2 minutes, create a new file in /tmp" → cron_expr="*/2 * * * *", prompt="run `touch /tmp/scheduled-$(date +%s).file` and exit."
- "Every weekday at 9am, summarize my GitHub notifications" → cron_expr="0 9 * * 1-5", prompt="fetch my GitHub notifications via gh, write a 3-bullet summary to ~/notes/gh-digest-$(date +%F).md, and exit."
- "Daily at 6am, sync new Zotero items" → cron_expr="0 6 * * *", prompt="run the zotero-sync skill to pull new items into my knowledge base, then exit."
"#;

/// The `cron_expr` parameter of the `cron_create` tool.
pub const CRON_CREATE_CRON_EXPR_DOC: &'static str = "Required. 5-field cron expression in the OS-cron format: `min hour day-of-month month day-of-week`. Examples: `*/2 * * * *` (every 2 minutes), `0 9 * * 1-5` (weekdays at 09:00), `0 */6 * * *` (every 6 hours), `30 14 1 * *` (14:30 on the 1st of every month). The minimum granularity is 1 minute — sub-minute schedules are NOT supported.";

/// The `prompt` parameter of the `cron_create` tool.
pub const CRON_CREATE_PROMPT_DOC: &'static str = "Required. The prompt to send to a fresh `ata exec` subprocess each time the schedule fires. Each firing is a brand-new ata process with NO memory of the current chat session — write the prompt as a self-contained instruction. Output (the agent's reply + any tool output) is captured to a log file; nothing appears in chat.";

/// What the `cron_list` tool is for, for the model.
pub const CRON_LIST_DESCRIPTION: &'static str = r#"List all ata-managed cron jobs currently scheduled in the user's system crontab.

Use when:
- The user asks "what's scheduled?", "what cron jobs are running?", or similar.
- You need to look up a task_id before calling cron_delete.

Returns the task_id, 5-field cron expression, the prompt, next_fire_at (UTC), log_path, and created_at for each ata-tagged entry. Entries from other tools or the user's manually-written crontab lines are ignored — only ata's own jobs are returned.

Note: cron jobs are NOT session-scoped. This list reflects all jobs across all ata sessions for the current user. Created in one session, visible from any."#;

/// What the `cron_delete` tool is for, for the model.
pub const CRON_DELETE_DESCRIPTION: &'static str = r#"Cancel a scheduled cron job by its task_id. Removes the entry from the user's system crontab. After deletion, the job will not fire again.

Use when:
- The user asks to "cancel", "stop", or "remove" a scheduled task.
- The user no longer needs a recurring schedule.

If the task_id is not found, returns `deleted: false` rather than an error.

Use cron_list first if you don't already have the task_id."#;

/// The `task_id` parameter of the `cron_delete` tool.
pub const CRON_DELETE_TASK_ID_DOC: &'static str = "Required. The task_id returned from cron_create or shown in cron_list.";

/// What the `cron_session_create` tool is for, for the model.
pub const CRON_SESSION_CREATE_DESCRIPTION: &'static str = r#"Schedule a prompt to fire on a recurring **clock-aligned** schedule, **inside the current ata session**.

This is the IN-SESSION counterpart to `cron_create`. They share clock-aligned semantics but differ on persistence and what each firing looks like:

| | `cron_create_session` (this tool) | `cron_create` (OS cron) |
|---|---|---|
| Persistence | Dies when ata closes (resumes if you re-open the session) | Survives ata closing — OS owns the schedule |
| Each firing | Injects as a new user turn in THIS chat — agent has full conversation memory | Spawns a fresh `ata exec` subprocess with no memory of any chat |
| Visibility | Renders in chat (modulated by `background` flag) | Output goes to a log file; nothing in chat |
| Minimum interval | Sub-minute OK (e.g. `*/30 * * * * *` for every 30 sec) | 1 minute floor (OS cron limit) |
| Extras | Supports `max_firings`, `until`, `timezone` (UTC offset) | None of these in OS cron |

USE THIS TOOL when:
- The schedule should die when the user closes ata ("while I'm working today, every 5 min check X")
- Each firing should reference the current conversation ("every hour, summarize what we've discussed so far")
- The user wants to SEE firings live in chat
- Sub-minute granularity is needed
- The user explicitly says "in this session" / "while I'm here" / "until I close ata"

DO NOT USE THIS TOOL when:
- The schedule must keep firing after ata closes ("every morning at 9am send me X" — use `cron_create`)
- The user wants a persistent automation that runs in the background of their machine (use `cron_create`)
- The user wants interval-from-now timing ("every 30 seconds starting now" — use `loop_start`)

Returns a task_id usable with `cron_delete_session`."#;

/// The `background` parameter of the `cron_session_create` tool.
pub const CRON_SESSION_CREATE_BACKGROUND_DOC: &'static str = "Optional. Default `true`. Controls whether each firing's natural-language reply is visible in chat.\n\nPass `false` when the user wants to SEE the result of every firing — \"say X every minute\", \"tell me X each hour\", \"report back\".\n\nPass `true` (or omit) for alert-style polls where you only want to surface conditions — \"alert me if\", \"only tell me when\". With `background=true`, tool outputs still render but the agent's reply text is hidden so periodic crons don't flood the chat.";

/// The `cron_expr` parameter of the `cron_session_create` tool.
pub const CRON_SESSION_CREATE_CRON_EXPR_DOC: &'static str = "Required. 6-field cron expression `sec min hour day-of-month month day-of-week`. Examples: `0 0 * * * *` (every hour on the hour), `0 0 9 * * 1-5` (weekdays at 09:00:00), `0 */5 * * * *` (every 5 minutes). Sub-minute granularity is allowed here (unlike `cron_create`, which is bound by OS-cron's 1-minute floor).";

/// The `max_firings` parameter of the `cron_session_create` tool.
pub const CRON_SESSION_CREATE_MAX_FIRINGS_DOC: &'static str = "Optional. Stop after this many total firings. `1` = one-shot reminder. Omit (default) = run until session ends or until manual delete.";

/// The `prompt` parameter of the `cron_session_create` tool.
pub const CRON_SESSION_CREATE_PROMPT_DOC: &'static str = "Required. The text injected as a new user message into THIS chat session each time the schedule fires. The agent receives it as a normal turn — it can reason, call tools, and reference the conversation up to that point.";

/// The `timezone` parameter of the `cron_session_create` tool.
pub const CRON_SESSION_CREATE_TIMEZONE_DOC: &'static str = "Optional. UTC offset like `+07:00`, `-05:00`, `Z`. Interprets the cron expression as wall-clock time at that offset. Omit = UTC. Fixed offset — does NOT auto-adjust for DST.";

/// The `until` parameter of the `cron_session_create` tool.
pub const CRON_SESSION_CREATE_UNTIL_DOC: &'static str = "Optional. Stop firing after this RFC3339 timestamp. Useful for finite-duration schedules. If both `max_firings` and `until` are set, whichever triggers first ends the job.";

/// What the `cron_session_list` tool is for, for the model.
pub const CRON_SESSION_LIST_DESCRIPTION: &'static str = r#"List in-session cron jobs scheduled in THIS chat session.

Use when:
- The user asks about session-scoped cron jobs.
- You need a task_id before calling `cron_delete_session`.

Returns each job's task_id, cron expression, prompt, status, next_fire_at, last_fired_at, and fire_count.

To list OS-level (persistent) cron jobs instead, use `cron_list`."#;

/// What the `cron_session_delete` tool is for, for the model.
pub const CRON_SESSION_DELETE_DESCRIPTION: &'static str = r#"Cancel an in-session cron job by its task_id. No further firings happen.

Use when the user wants to stop a session-scoped cron. If the task_id isn't in this session, returns `deleted: false` rather than erroring.

For OS-level (persistent) cron jobs, use `cron_delete` instead. Call `cron_list_session` first if you don't have the task_id."#;

/// The `task_id` parameter of the `cron_session_delete` tool.
pub const CRON_SESSION_DELETE_TASK_ID_DOC: &'static str = "Required. The task_id returned from `cron_create_session` or shown in `cron_list_session`.";

/// What the `loop_start` tool is for, for the model.
pub const LOOP_START_DESCRIPTION: &'static str = r#"Repeat a prompt on a fixed **interval from now**, in this session. The first iteration fires `interval_seconds` after creation; subsequent iterations fire `interval_seconds` apart. Each iteration injects the prompt as a new user-message turn so you can respond to it (think, run tools, summarize). Keeps running until you call loop_stop.

USE THIS TOOL for any interval-based request — the user almost always means "starting now":
- "every N seconds, do X"
- "every N minutes, do X"
- "every hour starting now"
- "run X every 30 seconds"
- "keep checking ... until ..."
- "repeat X N times"

Research-workflow examples (compose with skills like `$paper-discovery`, `$hn-synthesis`, `$kb`):
- "every 4 hours, run $hn-synthesis on 'agent reasoning'" — running research digest
- "every 30 minutes, search arxiv for new papers on AI safety" — frequent feed check
- "every 2 hours, expand citations for papers in the KB" — incremental citation graph build
- "every 15 minutes, check if my paper-summarization batch script has finished new entries"

DO NOT USE THIS TOOL for clock-aligned schedules ("at 9am daily", "every Monday", "on the hour") — those belong to cron_create.

Don't use when:
- You should react to streaming subprocess output as it appears — use monitor_start.
- The work is a tight pure-shell sequence with no agent reasoning per iteration (e.g. "print date 3 times back-to-back as fast as possible") — a `for` loop is fine there.

Returns a task_id usable with loop_stop. Iteration count and last-fired time are exposed via loop_list. Minimum interval is 5 seconds."#;

/// The `background` parameter of the `loop_start` tool.
pub const LOOP_START_BACKGROUND_DOC: &'static str = "Optional. Default `true`. Controls whether each iteration is visible in chat.\n\nPass `false` when the user clearly wants to SEE each iteration's result — phrases like \"say X every N seconds\", \"tell me X each iteration\", \"print Y every N seconds\", \"show me Z every N\". With `background=false`, the agent's reply is rendered as a normal chat turn.\n\nPass `true` (or omit) when the loop is a quiet poll that should only alert on a condition — phrases like \"alert me if\", \"check until X is true\", \"poll for changes\", \"keep watching for Y\". With `background=true`, the agent's reply text is hidden; only tool-call output (e.g. shell `echo`) renders in chat.\n\nRule of thumb: if the user's request has no conditional (\"only if…\", \"when X happens…\"), prefer `false` so they actually see output. Default to `true` only when the prompt is clearly a polling check.";

/// The `interval_seconds` parameter of the `loop_start` tool.
pub const LOOP_START_INTERVAL_SECONDS_DOC: &'static str = "Required. Seconds between iterations. Minimum 5. Convert any duration the user mentions to seconds before passing in:\n- \"every 30 seconds\" → 30\n- \"every 5 minutes\" → 300\n- \"every 30 minutes\" → 1800\n- \"every hour\" → 3600\n- \"every 6 hours\" → 21600\n- \"every day\" / \"daily\" (interval-style, starting from now) → 86400\n- \"every week\" → 604800\n- \"every month\" (approximate) → 2592000 (30 days)\nAlways honor the user's exact unit; don't round to a different unit unless they say so.";

/// The `prompt` parameter of the `loop_start` tool.
pub const LOOP_START_PROMPT_DOC: &'static str = "Required. The prompt to inject as a new user-message turn each iteration.";

/// What the `loop_list` tool is for, for the model.
pub const LOOP_LIST_DESCRIPTION: &'static str = r#"List all active loops in this session, with their interval, prompt, status, and iteration count.

Use when:
- The user asks "what loops are running?" or you need a task_id before calling loop_stop."#;

/// What the `loop_stop` tool is for, for the model.
pub const LOOP_STOP_DESCRIPTION: &'static str = r#"Stop a running loop by its task_id. No further iterations fire.

Use when:
- The user asks to "stop", "cancel", or "end" a loop.
- The condition the loop was waiting for has been met."#;

/// The `task_id` parameter of the `loop_stop` tool.
pub const LOOP_STOP_TASK_ID_DOC: &'static str = "Required. The task_id returned from loop_start or shown in loop_list.";

/// What the `monitor_start` tool is for, for the model.
pub const MONITOR_START_DESCRIPTION: &'static str = r#"Spawn a background shell command. Each output line is streamed to the user's view in real time; on termination you receive a single summary message with status and the tail of output.

Returns immediately with a task_id. To wait for the command to finish and get the final output in the same turn, call `monitor_wait` with that task_id.

Use when:
- The user wants to run a long-running command (build, test, ping, log tail) and react to the result.
- There is no fixed schedule — work happens whenever output appears.

Don't use when:
- The user wants something to happen on a fixed schedule (every minute, daily at 9am) — use cron_create.
- The user wants model-paced retries until a condition is met — use the loop tool.

The command runs until it exits naturally or you call `monitor_stop`.

USEFUL PATTERNS (compose monitor_start with the right command for the trigger you want):

**File-watch** — fire when a file or directory changes (works while ata is open):
- macOS: `monitor_start command="fswatch /path/to/file"` then `monitor_watch_for pattern=".*"`. Needs `brew install fswatch`.
- Linux: `monitor_start command="inotifywait -m -e modify /path/to/file"` then `monitor_watch_for pattern="MODIFY"`. Needs `apt install inotify-tools`.
Each file change emits one line; `monitor_watch_for` wakes the agent on the match.

**Receive a webhook / one-way HTTP signal** — listen on a localhost port (works while ata is open):
- `monitor_start command="ncat -l 8765 --keep-open"` then `monitor_watch_for pattern="^POST"`. Needs `ncat` (from nmap).
- Caveats: no HTTP response is sent back to the caller (connection just closes); no path routing; no header parsing. Fine for simple "ping me when X happens" hooks, not for production integrations.

NOTE on persistence: monitor (and these patterns) only fire while ata is open. For schedules that must survive ata closing, the only available tool is `cron_create` (OS cron). There is no persistent file-watch or webhook tool today."#;

/// The `background` parameter of the `monitor_start` tool.
pub const MONITOR_START_BACKGROUND_DOC: &'static str = "Optional. Default `true`. Controls per-line visibility in chat.\n\nPass `false` when the user wants to watch streaming output live — phrases like \"show me each ping\", \"tail and display\", \"stream the log\", \"I want to see every line as it comes\". With `background=false`, every stdout/stderr line renders as a chat cell as it happens.\n\nPass `true` (or omit) when the user just wants to know when it finishes (or alert on the result), not see every line — phrases like \"wait for X to finish then…\", \"download and summarize\", \"run build and tell me if it fails\". With `background=true`, per-line output is suppressed in chat; the `/scheduling` panel's `lines N` counter still climbs and the terminate summary still fires.";

/// The `command` parameter of the `monitor_start` tool.
pub const MONITOR_START_COMMAND_DOC: &'static str = "Required. Shell command to run in the background. Examples: `tail -F build.log`, `ping -c 30 example.com`, `cargo test 2>&1`.";

/// The `restart_on_resume` parameter of the `monitor_start` tool.
pub const MONITOR_START_RESTART_ON_RESUME_DOC: &'static str = "Optional. Default `false`. When `true`, if ata quits or restarts while this monitor is running, the same command is automatically re-spawned on session resume (same task_id, fresh tail buffer).\n\nONLY set this for safely-restartable, long-running commands:\n- `tail -F /path/to/log` — re-tailing is idempotent\n- `watch -n 5 'kubectl get pods'` — periodic snapshot, fine to restart\n- `python3 -m http.server 8000` — long-lived dev server\n- `ping example.com` — continuous reachability check\n\nNEVER set this for:\n- One-shot builds/tests (`cargo build`, `npm test`, `pytest`) — re-running silently is surprising\n- Destructive commands (`git push`, `rm`, `make deploy`) — never auto-replay\n- Batch processors that emit per-item output — restart would re-process items\n\nRule of thumb: if the command would behave identically when run a second time and the user expects it to stay alive across sessions, set `true`. Otherwise leave it `false` and let the monitor stay `Interrupted` on resume.";

/// What the `monitor_list` tool is for, for the model.
pub const MONITOR_LIST_DESCRIPTION: &'static str = r#"List all background monitors active in this session.

Use when:
- The user asks "what's being watched?", "what monitors are running?", or similar.
- You need to look up a task_id before calling monitor_stop.

Returns each monitor's task_id, command, status (Pending / Running / Completed / Failed / Killed), started_at, stopped_at, and lines_emitted count."#;

/// What the `monitor_watch_for` tool is for, for the model.
pub const MONITOR_WATCH_FOR_DESCRIPTION: &'static str = r#"Block until a running monitor emits a line containing `pattern`, or until the subprocess terminates without ever matching, or until an explicit `timeout_seconds` fires. Lighter than `monitor_wait` when the caller only cares about a specific event (a phase boundary, an error keyword, a "ready" signal) rather than the final result.

By default this waits indefinitely and returns on the FIRST matching line. Matching is a literal substring on the raw line payload (not the `[stdout]` / `[stderr]` tag).

Batch mode: pass `all_matches=true` to collect EVERY matching line over the lifetime of the subprocess (or until `max_matches` / `timeout_seconds`). Used for "react to each item in a batch" workflows — every paper processed, every test that fails, every download that completes.

Returns: {
  matched: bool,
  matching_line: string | null,        # first match (single-match mode, or convenience first-match in batch mode)
  stream: "stdout" | "stderr" | null,  # only set when at least one match
  matches: [{ matching_line, stream }] # populated only when all_matches=true, contains every match in order
  terminated_without_match: bool,
  timed_out: bool
}.

Use when:
- The user asked you to react to a *specific* phrase in the output ("tell me when the build prints 'warning:'", "alert me when the server says 'listening on port'", "wait for 'PANIC' to appear").
- You want to act mid-stream without waiting for the full subprocess to finish.
- The user is processing a batch and wants per-item feedback ("tell me as each paper downloads", "as each test fails, list it") — pass `all_matches=true`.

Don't use when:
- The user wants the *final result* of the command, including exit status — use `monitor_wait` instead.
- The user wants to keep watching forever — just call `monitor_start` with `background=false` and let the per-line stream render in chat."#;

/// The `all_matches` parameter of the `monitor_watch_for` tool.
pub const MONITOR_WATCH_FOR_ALL_MATCHES_DOC: &'static str = "Optional. Default `false`. When `false`, the call returns on the FIRST matching line — use this when reacting to a one-off event (server ready, first error, panic line, etc).\n\nWhen `true`, the call keeps collecting EVERY matching line until the subprocess terminates, an explicit `timeout_seconds` fires, or `max_matches` is reached. Used for batch workflows: \"as each of 50 papers downloads, give me the line\" / \"every test that emits 'FAILED:' in this run.\" The response carries the full list under `matches`.";

/// The `max_matches` parameter of the `monitor_watch_for` tool.
pub const MONITOR_WATCH_FOR_MAX_MATCHES_DOC: &'static str = "Optional. Only meaningful with `all_matches=true`. Stop collecting after this many matches even if the subprocess keeps running. Omit to collect every match for the lifetime of the subprocess.";

/// The `pattern` parameter of the `monitor_watch_for` tool.
pub const MONITOR_WATCH_FOR_PATTERN_DOC: &'static str = "Required. Literal substring to look for in each output line (case-sensitive). The call returns the moment a matching line appears on stdout or stderr. The tail buffer is also scanned first so matches that happened before this call started are not missed.";

/// The `task_id` parameter of the `monitor_watch_for` tool.
pub const MONITOR_WATCH_FOR_TASK_ID_DOC: &'static str = "Required. The task_id returned from monitor_start.";

/// The `timeout_seconds` parameter of the `monitor_watch_for` tool.
pub const MONITOR_WATCH_FOR_TIMEOUT_SECONDS_DOC: &'static str = "Optional. Maximum seconds to wait before returning even if no line has matched yet. Omit to wait indefinitely — the call stays alive until either (a) a matching line appears, or (b) the subprocess terminates without ever matching.";

/// What the `monitor_wait` tool is for, for the model.
pub const MONITOR_WAIT_DESCRIPTION: &'static str = r#"Block until a running monitor terminates and return its final status plus the tail of its output. Use this right after monitor_start when you want the result in the same turn instead of polling.

By default this call waits indefinitely — there is no internal time cap. The function sits in a cheap polling loop against an in-memory registry, costs no LLM tokens while waiting, and returns the instant the subprocess actually exits. Set `timeout_seconds` only when the caller explicitly wants a bounded wait.

Returns: { status: "Completed" | "Failed" | "Killed" | "Running" (only if an explicit timeout fires), tail: [string] }.

Use when:
- You started a monitor and want to use its output in the same response (e.g. report the result, summarize errors).
- The user asked for a result that depends on a command finishing.

Don't use when:
- The user wants the monitor to keep running in the background — just call monitor_start and move on."#;

/// The `task_id` parameter of the `monitor_wait` tool.
pub const MONITOR_WAIT_TASK_ID_DOC: &'static str = "Required. The task_id returned from monitor_start.";

/// The `timeout_seconds` parameter of the `monitor_wait` tool.
pub const MONITOR_WAIT_TIMEOUT_SECONDS_DOC: &'static str = "Optional. Maximum seconds to wait before returning even if the monitor is still running. Omit to wait indefinitely — the call stays alive for as long as the subprocess takes (minutes, hours, days). Set a value only when the caller explicitly wants to give up after some bound (e.g. \"check back in 30 seconds\").";

/// What the `monitor_stop` tool is for, for the model.
pub const MONITOR_STOP_DESCRIPTION: &'static str = r#"Stop a running background monitor by its task_id. The underlying process is killed and no further output is injected.

Use when:
- The user asks to "stop watching", "kill the monitor", or "cancel" a watch task.

If the task_id is not found, returns a not-found result rather than an error. Use monitor_list first if you don't already have the task_id."#;

/// The `task_id` parameter of the `monitor_stop` tool.
pub const MONITOR_STOP_TASK_ID_DOC: &'static str = "Required. The task_id returned from monitor_start or shown in monitor_list.";

/// The definition of the `cron_create` tool.
pub fn create_cron_create_tool() -> (r: ToolSpec)
    ensures
        is_function_tool(
            r,
            CRON_CREATE_TOOL_NAME@,
            CRON_CREATE_DESCRIPTION@,
            seq![("cron_expr"@, ParamType::String, CRON_CREATE_CRON_EXPR_DOC@), ("prompt"@, ParamType::String, CRON_CREATE_PROMPT_DOC@)],
            seq!["cron_expr"@, "prompt"@],
        ),
{
    let mut properties: Vec<ToolParam> = Vec::new();
    properties.push(tool_param("cron_expr", ParamType::String, CRON_CREATE_CRON_EXPR_DOC));
    properties.push(tool_param("prompt", ParamType::String, CRON_CREATE_PROMPT_DOC));
    let mut required: Vec<String> = Vec::new();
    required.push("cron_expr".to_owned());
    required.push("prompt".to_owned());
    proof {
        assert(params_view(properties@) =~= seq![("cron_expr"@, ParamType::String, CRON_CREATE_CRON_EXPR_DOC@), ("prompt"@, ParamType::String, CRON_CREATE_PROMPT_DOC@)]);
        assert(views(required@) =~= seq!["cron_expr"@, "prompt"@]);
    }
    function_tool(CRON_CREATE_TOOL_NAME, CRON_CREATE_DESCRIPTION, properties, required)
}

/// The definition of the `cron_list` tool.
pub fn create_cron_list_tool() -> (r: ToolSpec)
    ensures
        is_function_tool(
            r,
            CRON_LIST_TOOL_NAME@,
            CRON_LIST_DESCRIPTION@,
            seq![],
            seq![],
        ),
{
    let properties: Vec<ToolParam> = Vec::new();
    let required: Vec<String> = Vec::new();
    proof {
        assert(params_view(properties@) =~= seq![]);
        assert(views(required@) =~= seq![]);
    }
    function_tool(CRON_LIST_TOOL_NAME, CRON_LIST_DESCRIPTION, properties, required)
}

/// The definition of the `cron_delete` tool.
pub fn create_cron_delete_tool() -> (r: ToolSpec)
    ensures
        is_function_tool(
            r,
            CRON_DELETE_TOOL_NAME@,
            CRON_DELETE_DESCRIPTION@,
            seq![("task_id"@, ParamType::String, CRON_DELETE_TASK_ID_DOC@)],
            seq!["task_id"@],
        ),
{
    let mut properties: Vec<ToolParam> = Vec::new();
    properties.push(tool_param("task_id", ParamType::String, CRON_DELETE_TASK_ID_DOC));
    let mut required: Vec<String> = Vec::new();
    required.push("task_id".to_owned());
    proof {
        assert(params_view(properties@) =~= seq![("task_id"@, ParamType::String, CRON_DELETE_TASK_ID_DOC@)]);
        assert(views(required@) =~= seq!["task_id"@]);
    }
    function_tool(CRON_DELETE_TOOL_NAME, CRON_DELETE_DESCRIPTION, properties, required)
}

/// The definition of the `cron_session_create` tool.
pub fn create_cron_session_create_tool() -> (r: ToolSpec)
    ensures
        is_function_tool(
            r,
            CRON_SESSION_CREATE_TOOL_NAME@,
            CRON_SESSION_CREATE_DESCRIPTION@,
            seq![("background"@, ParamType::Boolean, CRON_SESSION_CREATE_BACKGROUND_DOC@), ("cron_expr"@, ParamType::String, CRON_SESSION_CREATE_CRON_EXPR_DOC@), ("max_firings"@, ParamType::Integer, CRON_SESSION_CREATE_MAX_FIRINGS_DOC@), ("prompt"@, ParamType::String, CRON_SESSION_CREATE_PROMPT_DOC@), ("timezone"@, ParamType::String, CRON_SESSION_CREATE_TIMEZONE_DOC@), ("until"@, ParamType::String, CRON_SESSION_CREATE_UNTIL_DOC@)],
            seq!["cron_expr"@, "prompt"@],
        ),
{
    let mut properties: Vec<ToolParam> = Vec::new();
    properties.push(tool_param("background", ParamType::Boolean, CRON_SESSION_CREATE_BACKGROUND_DOC));
    properties.push(tool_param("cron_expr", ParamType::String, CRON_SESSION_CREATE_CRON_EXPR_DOC));
    properties.push(tool_param("max_firings", ParamType::Integer, CRON_SESSION_CREATE_MAX_FIRINGS_DOC));
    properties.push(tool_param("prompt", ParamType::String, CRON_SESSION_CREATE_PROMPT_DOC));
    properties.push(tool_param("timezone", ParamType::String, CRON_SESSION_CREATE_TIMEZONE_DOC));
    properties.push(tool_param("until", ParamType::String, CRON_SESSION_CREATE_UNTIL_DOC));
    let mut required: Vec<String> = Vec::new();
    required.push("cron_expr".to_owned());
    required.push("prompt".to_owned());
    proof {
        assert(params_view(properties@) =~= seq![("background"@, ParamType::Boolean, CRON_SESSION_CREATE_BACKGROUND_DOC@), ("cron_expr"@, ParamType::String, CRON_SESSION_CREATE_CRON_EXPR_DOC@), ("max_firings"@, ParamType::Integer, CRON_SESSION_CREATE_MAX_FIRINGS_DOC@), ("prompt"@, ParamType::String, CRON_SESSION_CREATE_PROMPT_DOC@), ("timezone"@, ParamType::String, CRON_SESSION_CREATE_TIMEZONE_DOC@), ("until"@, ParamType::String, CRON_SESSION_CREATE_UNTIL_DOC@)]);
        assert(views(required@) =~= seq!["cron_expr"@, "prompt"@]);
    }
    function_tool(CRON_SESSION_CREATE_TOOL_NAME, CRON_SESSION_CREATE_DESCRIPTION, properties, required)
}

/// The definition of the `cron_session_list` tool.
pub fn create_cron_session_list_tool() -> (r: ToolSpec)
    ensures
        is_function_tool(
            r,
            CRON_SESSION_LIST_TOOL_NAME@,
            CRON_SESSION_LIST_DESCRIPTION@,
            seq![],
            seq![],
        ),
{
    let properties: Vec<ToolParam> = Vec::new();
    let required: Vec<String> = Vec::new();
    proof {
        assert(params_view(properties@) =~= seq![]);
        assert(views(required@) =~= seq![]);
    }
    function_tool(CRON_SESSION_LIST_TOOL_NAME, CRON_SESSION_LIST_DESCRIPTION, properties, required)
}

/// The definition of the `cron_session_delete` tool.
pub fn create_cron_session_delete_tool() -> (r: ToolSpec)
    ensures
        is_function_tool(
            r,
            CRON_SESSION_DELETE_TOOL_NAME@,
            CRON_SESSION_DELETE_DESCRIPTION@,
            seq![("task_id"@, ParamType::String, CRON_SESSION_DELETE_TASK_ID_DOC@)],
            seq!["task_id"@],
        ),
{
    let mut properties: Vec<ToolParam> = Vec::new();
    properties.push(tool_param("task_id", ParamType::String, CRON_SESSION_DELETE_TASK_ID_DOC));
    let mut required: Vec<String> = Vec::new();
    required.push("task_id".to_owned());
    proof {
        assert(params_view(properties@) =~= seq![("task_id"@, ParamType::String, CRON_SESSION_DELETE_TASK_ID_DOC@)]);
        assert(views(required@) =~= seq!["task_id"@]);
    }
    function_tool(CRON_SESSION_DELETE_TOOL_NAME, CRON_SESSION_DELETE_DESCRIPTION, properties, required)
}

/// The definition of the `loop_start` tool.
pub fn create_loop_start_tool() -> (r: ToolSpec)
    ensures
        is_function_tool(
            r,
            LOOP_START_TOOL_NAME@,
            LOOP_START_DESCRIPTION@,
            seq![("background"@, ParamType::Boolean, LOOP_START_BACKGROUND_DOC@), ("interval_seconds"@, ParamType::Integer, LOOP_START_INTERVAL_SECONDS_DOC@), ("prompt"@, ParamType::String, LOOP_START_PROMPT_DOC@)],
            seq!["prompt"@, "interval_seconds"@],
        ),
{
    let mut properties: Vec<ToolParam> = Vec::new();
    properties.push(tool_param("background", ParamType::Boolean, LOOP_START_BACKGROUND_DOC));
    properties.push(tool_param("interval_seconds", ParamType::Integer, LOOP_START_INTERVAL_SECONDS_DOC));
    properties.push(tool_param("prompt", ParamType::String, LOOP_START_PROMPT_DOC));
    let mut required: Vec<String> = Vec::new();
    required.push("prompt".to_owned());
    required.push("interval_seconds".to_owned());
    proof {
        assert(params_view(properties@) =~= seq![("background"@, ParamType::Boolean, LOOP_START_BACKGROUND_DOC@), ("interval_seconds"@, ParamType::Integer, LOOP_START_INTERVAL_SECONDS_DOC@), ("prompt"@, ParamType::String, LOOP_START_PROMPT_DOC@)]);
        assert(views(required@) =~= seq!["prompt"@, "interval_seconds"@]);
    }
    function_tool(LOOP_START_TOOL_NAME, LOOP_START_DESCRIPTION, properties, required)
}

/// The definition of the `loop_list` tool.
pub fn create_loop_list_tool() -> (r: ToolSpec)
    ensures
        is_function_tool(
            r,
            LOOP_LIST_TOOL_NAME@,
            LOOP_LIST_DESCRIPTION@,
            seq![],
            seq![],
        ),
{
    let properties: Vec<ToolParam> = Vec::new();
    let required: Vec<String> = Vec::new();
    proof {
        assert(params_view(properties@) =~= seq![]);
        assert(views(required@) =~= seq![]);
    }
    function_tool(LOOP_LIST_TOOL_NAME, LOOP_LIST_DESCRIPTION, properties, required)
}

/// The definition of the `loop_stop` tool.
pub fn create_loop_stop_tool() -> (r: ToolSpec)
    ensures
        is_function_tool(
            r,
            LOOP_STOP_TOOL_NAME@,
            LOOP_STOP_DESCRIPTION@,
            seq![("task_id"@, ParamType::String, LOOP_STOP_TASK_ID_DOC@)],
            seq!["task_id"@],
        ),
{
    let mut properties: Vec<ToolParam> = Vec::new();
    properties.push(tool_param("task_id", ParamType::String, LOOP_STOP_TASK_ID_DOC));
    let mut required: Vec<String> = Vec::new();
    required.push("task_id".to_owned());
    proof {
        assert(params_view(properties@) =~= seq![("task_id"@, ParamType::String, LOOP_STOP_TASK_ID_DOC@)]);
        assert(views(required@) =~= seq!["task_id"@]);
    }
    function_tool(LOOP_STOP_TOOL_NAME, LOOP_STOP_DESCRIPTION, properties, required)
}

/// The definition of the `monitor_start` tool.
pub fn create_monitor_start_tool() -> (r: ToolSpec)
    ensures
        is_function_tool(
            r,
            MONITOR_START_TOOL_NAME@,
            MONITOR_START_DESCRIPTION@,
            seq![("background"@, ParamType::Boolean, MONITOR_START_BACKGROUND_DOC@), ("command"@, ParamType::String, MONITOR_START_COMMAND_DOC@), ("restart_on_resume"@, ParamType::Boolean, MONITOR_START_RESTART_ON_RESUME_DOC@)],
            seq!["command"@],
        ),
{
    let mut properties: Vec<ToolParam> = Vec::new();
    properties.push(tool_param("background", ParamType::Boolean, MONITOR_START_BACKGROUND_DOC));
    properties.push(tool_param("command", ParamType::String, MONITOR_START_COMMAND_DOC));
    properties.push(tool_param("restart_on_resume", ParamType::Boolean, MONITOR_START_RESTART_ON_RESUME_DOC));
    let mut required: Vec<String> = Vec::new();
    required.push("command".to_owned());
    proof {
        assert(params_view(properties@) =~= seq![("background"@, ParamType::Boolean, MONITOR_START_BACKGROUND_DOC@), ("command"@, ParamType::String, MONITOR_START_COMMAND_DOC@), ("restart_on_resume"@, ParamType::Boolean, MONITOR_START_RESTART_ON_RESUME_DOC@)]);
        assert(views(required@) =~= seq!["command"@]);
    }
    function_tool(MONITOR_START_TOOL_NAME, MONITOR_START_DESCRIPTION, properties, required)
}

/// The definition of the `monitor_list` tool.
pub fn create_monitor_list_tool() -> (r: ToolSpec)
    ensures
        is_function_tool(
            r,
            MONITOR_LIST_TOOL_NAME@,
            MONITOR_LIST_DESCRIPTION@,
            seq![],
            seq![],
        ),
{
    let properties: Vec<ToolParam> = Vec::new();
    let required: Vec<String> = Vec::new();
    proof {
        assert(params_view(properties@) =~= seq![]);
        assert(views(required@) =~= seq![]);
    }
    function_tool(MONITOR_LIST_TOOL_NAME, MONITOR_LIST_DESCRIPTION, properties, required)
}

/// The definition of the `monitor_watch_for` tool.
pub fn create_monitor_watch_for_tool() -> (r: ToolSpec)
    ensures
        is_function_tool(
            r,
            MONITOR_WATCH_FOR_TOOL_NAME@,
            MONITOR_WATCH_FOR_DESCRIPTION@,
            seq![("all_matches"@, ParamType::Boolean, MONITOR_WATCH_FOR_ALL_MATCHES_DOC@), ("max_matches"@, ParamType::Number, MONITOR_WATCH_FOR_MAX_MATCHES_DOC@), ("pattern"@, ParamType::String, MONITOR_WATCH_FOR_PATTERN_DOC@), ("task_id"@, ParamType::String, MONITOR_WATCH_FOR_TASK_ID_DOC@), ("timeout_seconds"@, ParamType::Number, MONITOR_WATCH_FOR_TIMEOUT_SECONDS_DOC@)],
            seq!["task_id"@, "pattern"@],
        ),
{
    let mut properties: Vec<ToolParam> = Vec::new();
    properties.push(tool_param("all_matches", ParamType::Boolean, MONITOR_WATCH_FOR_ALL_MATCHES_DOC));
    properties.push(tool_param("max_matches", ParamType::Number, MONITOR_WATCH_FOR_MAX_MATCHES_DOC));
    properties.push(tool_param("pattern", ParamType::String, MONITOR_WATCH_FOR_PATTERN_DOC));
    properties.push(tool_param("task_id", ParamType::String, MONITOR_WATCH_FOR_TASK_ID_DOC));
    properties.push(tool_param("timeout_seconds", ParamType::Number, MONITOR_WATCH_FOR_TIMEOUT_SECONDS_DOC));
    let mut required: Vec<String> = Vec::new();
    required.push("task_id".to_owned());
    required.push("pattern".to_owned());
    proof {
        assert(params_view(properties@) =~= seq![("all_matches"@, ParamType::Boolean, MONITOR_WATCH_FOR_ALL_MATCHES_DOC@), ("max_matches"@, ParamType::Number, MONITOR_WATCH_FOR_MAX_MATCHES_DOC@), ("pattern"@, ParamType::String, MONITOR_WATCH_FOR_PATTERN_DOC@), ("task_id"@, ParamType::String, MONITOR_WATCH_FOR_TASK_ID_DOC@), ("timeout_seconds"@, ParamType::Number, MONITOR_WATCH_FOR_TIMEOUT_SECONDS_DOC@)]);
        assert(views(required@) =~= seq!["task_id"@, "pattern"@]);
    }
    function_tool(MONITOR_WATCH_FOR_TOOL_NAME, MONITOR_WATCH_FOR_DESCRIPTION, properties, required)
}

/// The definition of the `monitor_wait` tool.
pub fn create_monitor_wait_tool() -> (r: ToolSpec)
    ensures
        is_function_tool(
            r,
            MONITOR_WAIT_TOOL_NAME@,
            MONITOR_WAIT_DESCRIPTION@,
            seq![("task_id"@, ParamType::String, MONITOR_WAIT_TASK_ID_DOC@), ("timeout_seconds"@, ParamType::Number, MONITOR_WAIT_TIMEOUT_SECONDS_DOC@)],
            seq!["task_id"@],
        ),
{
    let mut properties: Vec<ToolParam> = Vec::new();
    properties.push(tool_param("task_id", ParamType::String, MONITOR_WAIT_TASK_ID_DOC));
    properties.push(tool_param("timeout_seconds", ParamType::Number, MONITOR_WAIT_TIMEOUT_SECONDS_DOC));
    let mut required: Vec<String> = Vec::new();
    required.push("task_id".to_owned());
    proof {
        assert(params_view(properties@) =~= seq![("task_id"@, ParamType::String, MONITOR_WAIT_TASK_ID_DOC@), ("timeout_seconds"@, ParamType::Number, MONITOR_WAIT_TIMEOUT_SECONDS_DOC@)]);
        assert(views(required@) =~= seq!["task_id"@]);
    }
    function_tool(MONITOR_WAIT_TOOL_NAME, MONITOR_WAIT_DESCRIPTION, properties, required)
}

/// The definition of the `monitor_stop` tool.
pub fn create_monitor_stop_tool() -> (r: ToolSpec)
    ensures
        is_function_tool(
            r,
            MONITOR_STOP_TOOL_NAME@,
            MONITOR_STOP_DESCRIPTION@,
            seq![("task_id"@, ParamType::String, MONITOR_STOP_TASK_ID_DOC@)],
            seq!["task_id"@],
        ),
{
    let mut properties: Vec<ToolParam> = Vec::new();
    properties.push(tool_param("task_id", ParamType::String, MONITOR_STOP_TASK_ID_DOC));
    let mut required: Vec<String> = Vec::new();
    required.push("task_id".to_owned());
    proof {
        assert(params_view(properties@) =~= seq![("task_id"@, ParamType::String, MONITOR_STOP_TASK_ID_DOC@)]);
        assert(views(required@) =~= seq!["task_id"@]);
    }
    function_tool(MONITOR_STOP_TOOL_NAME, MONITOR_STOP_DESCRIPTION, properties, required)
}

} // verus!
