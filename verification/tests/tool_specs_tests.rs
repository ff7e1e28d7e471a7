use codex_scheduling::tool_specs::create_cron_create_tool;
use codex_scheduling::tool_specs::create_cron_delete_tool;
use codex_scheduling::tool_specs::create_cron_list_tool;
use codex_scheduling::tool_specs::create_cron_session_create_tool;
use codex_scheduling::tool_specs::create_cron_session_delete_tool;
use codex_scheduling::tool_specs::create_cron_session_list_tool;
use codex_scheduling::tool_specs::create_loop_list_tool;
use codex_scheduling::tool_specs::create_loop_start_tool;
use codex_scheduling::tool_specs::create_loop_stop_tool;
use codex_scheduling::tool_specs::create_monitor_list_tool;
use codex_scheduling::tool_specs::create_monitor_start_tool;
use codex_scheduling::tool_specs::create_monitor_stop_tool;
use codex_scheduling::tool_specs::create_monitor_wait_tool;
use codex_scheduling::tool_specs::create_monitor_watch_for_tool;
use codex_scheduling::tool_specs::ParamType;
use codex_scheduling::tool_specs::ToolSpec;

#[test]
#[allow(irrefutable_let_patterns)]
fn cron_spec_create_tool_requires_cron_expr_and_prompt() {
    let ToolSpec::Function(tool) = create_cron_create_tool() else {
        panic!("cron_create should be a function tool");
    };
    let required = tool.parameters.required.as_ref().expect("required fields list");
    assert!(required.contains(&"cron_expr".to_string()));
    assert!(required.contains(&"prompt".to_string()));
}

#[test]
#[allow(irrefutable_let_patterns)]
fn cron_spec_list_tool_has_no_required_args() {
    let ToolSpec::Function(tool) = create_cron_list_tool() else {
        panic!("cron_list should be a function tool");
    };
    assert!(matches!(tool.parameters.required.as_ref().map(|r| r.is_empty()), Some(true)));
}

#[test]
#[allow(irrefutable_let_patterns)]
fn cron_spec_delete_tool_requires_task_id() {
    let ToolSpec::Function(tool) = create_cron_delete_tool() else {
        panic!("cron_delete should be a function tool");
    };
    assert_eq!(tool.parameters.required.as_ref().expect("required").len(), 1);
}

#[test]
#[allow(irrefutable_let_patterns)]
fn cron_session_spec_create_tool_requires_cron_expr_and_prompt() {
    let ToolSpec::Function(tool) = create_cron_session_create_tool() else {
        panic!("cron_create_session should be a function tool");
    };
    let required = tool.parameters.required.as_ref().expect("required");
    assert!(required.contains(&"cron_expr".to_string()));
    assert!(required.contains(&"prompt".to_string()));
}

#[test]
#[allow(irrefutable_let_patterns)]
fn cron_session_spec_list_tool_has_no_required_args() {
    let ToolSpec::Function(tool) = create_cron_session_list_tool() else {
        panic!("cron_list_session should be a function tool");
    };
    assert!(matches!(tool.parameters.required.as_ref().map(|r| r.is_empty()), Some(true)));
}

#[test]
#[allow(irrefutable_let_patterns)]
fn cron_session_spec_delete_tool_requires_task_id() {
    let ToolSpec::Function(tool) = create_cron_session_delete_tool() else {
        panic!("cron_delete_session should be a function tool");
    };
    assert_eq!(tool.parameters.required.as_ref().expect("required").len(), 1);
}

#[test]
#[allow(irrefutable_let_patterns)]
fn start_tool_requires_prompt_and_interval() {
    let ToolSpec::Function(tool) = create_loop_start_tool() else {
        panic!("loop_start should be a function tool");
    };
    let required = tool.parameters.required.as_ref().expect("required");
    assert!(required.contains(&"prompt".to_string()));
    assert!(required.contains(&"interval_seconds".to_string()));
}

#[test]
#[allow(irrefutable_let_patterns)]
fn loop_tool_spec_list_tool_has_no_required_args() {
    let ToolSpec::Function(tool) = create_loop_list_tool() else {
        panic!("loop_list should be a function tool");
    };
    assert!(matches!(tool.parameters.required.as_ref().map(|r| r.is_empty()), Some(true)));
}

#[test]
#[allow(irrefutable_let_patterns)]
fn loop_tool_spec_stop_tool_requires_task_id() {
    let ToolSpec::Function(tool) = create_loop_stop_tool() else {
        panic!("loop_stop should be a function tool");
    };
    assert_eq!(tool.parameters.required.as_ref().expect("required").len(), 1);
}

#[test]
#[allow(irrefutable_let_patterns)]
fn start_tool_requires_command() {
    let ToolSpec::Function(tool) = create_monitor_start_tool() else {
        panic!("monitor_start should be a function tool");
    };
    assert_eq!(tool.parameters.required.as_ref().expect("required").len(), 1);
}

#[test]
#[allow(irrefutable_let_patterns)]
fn monitor_spec_stop_tool_requires_task_id() {
    let ToolSpec::Function(tool) = create_monitor_stop_tool() else {
        panic!("monitor_stop should be a function tool");
    };
    assert_eq!(tool.parameters.required.as_ref().expect("required").len(), 1);
}

#[test]
#[allow(irrefutable_let_patterns)]
fn monitor_spec_list_tool_has_no_required_args() {
    let ToolSpec::Function(tool) = create_monitor_list_tool() else {
        panic!("monitor_list should be a function tool");
    };
    assert!(matches!(tool.parameters.required.as_ref().map(|r| r.is_empty()), Some(true)));
}

fn summary(spec: ToolSpec) -> (String, Vec<(String, ParamType)>, Vec<String>, bool, Option<bool>) {
    match spec {
        ToolSpec::Function(tool) => (
            tool.name,
            tool.parameters.properties.into_iter().map(|p| (p.name, p.param_type)).collect(),
            tool.parameters.required.unwrap_or_default(),
            tool.strict,
            tool.parameters.additional_properties,
        ),
    }
}

#[test]
fn tools_carry_their_names_and_typed_parameters_in_name_order() {
    let (name, params, required, strict, extra) = summary(create_cron_session_create_tool());
    assert_eq!(name, "cron_create_session");
    let names: Vec<&str> = params.iter().map(|p| p.0.as_str()).collect();
    assert_eq!(names, vec!["background", "cron_expr", "max_firings", "prompt", "timezone", "until"]);
    assert_eq!(params[0].1, ParamType::Boolean);
    assert_eq!(params[2].1, ParamType::Integer);
    assert_eq!(required, vec!["cron_expr".to_string(), "prompt".to_string()]);
    assert!(!strict);
    assert_eq!(extra, Some(false));

    let (name, params, required, _, _) = summary(create_monitor_watch_for_tool());
    assert_eq!(name, "monitor_watch_for");
    let names: Vec<&str> = params.iter().map(|p| p.0.as_str()).collect();
    assert_eq!(names, vec!["all_matches", "max_matches", "pattern", "task_id", "timeout_seconds"]);
    assert_eq!(params[1].1, ParamType::Number);
    assert_eq!(required, vec!["task_id".to_string(), "pattern".to_string()]);

    let (name, params, required, _, _) = summary(create_monitor_wait_tool());
    assert_eq!(name, "monitor_wait");
    assert_eq!(params.len(), 2);
    assert_eq!(required, vec!["task_id".to_string()]);

    let (name, params, _, _, _) = summary(create_loop_start_tool());
    assert_eq!(name, "loop_start");
    assert_eq!(params[1], ("interval_seconds".to_string(), ParamType::Integer));
}

#[test]
#[allow(irrefutable_let_patterns)]
fn descriptions_say_when_to_use_each_tool() {
    let ToolSpec::Function(tool) = create_cron_create_tool() else {
        panic!("cron_create should be a function tool");
    };
    assert!(tool.description.starts_with("Schedule a prompt to run on a recurring"));
    assert!(tool.description.contains("DO NOT USE THIS TOOL when:"));
    assert!(tool.output_schema.is_none());
    assert!(tool.defer_loading.is_none());
    let prompt = &tool.parameters.properties[1];
    assert_eq!(prompt.name, "prompt");
    assert!(prompt.description.starts_with("Required. The prompt to send"));
    let ToolSpec::Function(tool) = create_monitor_start_tool() else {
        panic!("monitor_start should be a function tool");
    };
    let restart = &tool.parameters.properties[2];
    assert_eq!(restart.name, "restart_on_resume");
    assert!(restart.description.contains("\n- `tail -F /path/to/log` — re-tailing is idempotent\n"));
}
