use trove::actions::{query_limit, workbench_action_description, ActionOutcome, ActionSource, WorkbenchAction};
use trove::cli_protocol::{
    dry_run_outcome, frame_request, is_cli_action_arg, unframe_request, CliDispatchRequest,
    TROVE_ACTION_PREFIX,
};
use trove::task_model::CreateTaskInput;

#[test]
fn roundtrip_encode_decode() {
    let json = r#"{"action":{"type":"navigate","path":"/today"},"options":{"source":"cli","dryRun":false},"responsePath":"/tmp/out.json"}"#;
    let encoded = frame_request(json);
    assert!(encoded.starts_with(TROVE_ACTION_PREFIX));
    assert!(is_cli_action_arg(&encoded));
    let decoded = unframe_request(&encoded).ok().unwrap();
    assert_eq!(decoded, json);
    let options = CliDispatchRequest::cli_options(false);
    assert_eq!(options.source, ActionSource::Cli);
    assert!(!options.dry_run);
}

#[test]
fn dry_run_describes_task_create() {
    let action = WorkbenchAction::CreateTask {
        input: CreateTaskInput {
            title: "CLI task".to_string(),
            notes: None,
            priority: None,
            list_id: None,
            due_date: None,
            due_time: None,
            tag_names: None,
        },
        confirmed: true,
    };
    let outcome = dry_run_outcome(&action);
    assert!(matches!(outcome, ActionOutcome::DryRun { .. }));
    match outcome {
        ActionOutcome::DryRun { description } => assert_eq!(description, "创建任务：CLI task"),
        _ => unreachable!(),
    }
}

#[test]
fn unprefixed_argument_is_refused() {
    assert!(!is_cli_action_arg("--help"));
    assert!(unframe_request("{\"action\":1}").is_err());
    assert_eq!(unframe_request("trove-action:").ok().unwrap(), "");
}

#[test]
fn action_descriptions_and_limits() {
    assert_eq!(
        workbench_action_description(&WorkbenchAction::Navigate { path: "/today".to_string() }),
        "打开页面：/today"
    );
    assert_eq!(workbench_action_description(&WorkbenchAction::QueryToday), "查询今日");
    assert_eq!(query_limit(None), 20);
    assert_eq!(query_limit(Some(0)), 1);
    assert_eq!(query_limit(Some(500)), 100);
}
