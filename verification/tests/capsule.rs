use astrid_sdk::capsule::{doc_text, plan_capsule, ArgKind, ArmKind, AstridAttr, CapsulePlan, ErrorSpan, MethodInfo, PlanError};

fn attr(kind: &str, name: Option<&str>, mutable: bool) -> AstridAttr {
    AstridAttr { kind: kind.into(), name: name.map(String::from), mutable }
}

fn method(name: &str, arg: ArgKind, attrs: Vec<AstridAttr>) -> MethodInfo {
    MethodInfo { name: name.into(), arg, mut_receiver: false, attrs, description: None }
}

fn plan(methods: Vec<MethodInfo>) -> Result<CapsulePlan, PlanError> {
    plan_capsule(false, &methods)
}

#[test]
fn mutable_attr_sets_true_in_schema() {
    let p = plan(vec![method("write_file", ArgKind::Other, vec![attr("tool", Some("write_file"), false), attr("mutable", None, false)])]).unwrap();
    assert!(p.tools[0].mutable);
}

#[test]
fn non_mutable_tool_sets_false_in_schema() {
    let p = plan(vec![method("read_file", ArgKind::Other, vec![attr("tool", Some("read_file"), false)])]).unwrap();
    assert!(!p.tools[0].mutable);
}

#[test]
fn inline_mutable_name_inferred() {
    let p = plan(vec![method("write_file", ArgKind::Other, vec![attr("tool", None, true)])]).unwrap();
    assert!(p.tools[0].mutable);
    assert_eq!(p.tools[0].name, "write_file");
    assert_eq!(p.arms[0].action, "tool_execute_write_file");
}

#[test]
fn mutable_before_tool_attr_order() {
    let p = plan(vec![method("delete_file", ArgKind::Other, vec![attr("mutable", None, false), attr("tool", Some("delete_file"), false)])]).unwrap();
    assert!(p.tools[0].mutable);
}

#[test]
fn multi_tool_mixed_mutability() {
    let p = plan(vec![
        method("read_file", ArgKind::Other, vec![attr("tool", Some("read_file"), false)]),
        method("write_file", ArgKind::Other, vec![attr("tool", Some("write_file"), false), attr("mutable", None, false)]),
    ])
    .unwrap();
    assert!(!p.tools[0].mutable);
    assert!(p.tools[1].mutable);
}

#[test]
fn no_lifecycle_no_exports() {
    let p = plan(vec![method("do_thing", ArgKind::Other, vec![attr("tool", Some("do_thing"), false)])]).unwrap();
    assert!(p.install.is_none() && p.upgrade.is_none() && p.run.is_none());
    let actions: Vec<&str> = p.arms.iter().map(|a| a.action.as_str()).collect();
    assert_eq!(actions, vec!["tool_execute_do_thing", "tool_describe"]);
    assert_eq!(p.arms[1].kind, ArmKind::ToolDescribe);
}

fn error(r: Result<CapsulePlan, PlanError>) -> PlanError {
    match r {
        Err(e) => e,
        Ok(_) => panic!("expected a compile error"),
    }
}

#[test]
fn duplicate_install_is_compile_error() {
    let e = error(plan(vec![
        method("install", ArgKind::NoArg, vec![attr("install", None, false)]),
        method("install2", ArgKind::NoArg, vec![attr("install", None, false)]),
    ]));
    assert_eq!(e.message, "only one #[astrid::install] method is allowed per capsule");
    assert_eq!(e.span, ErrorSpan::Attribute);
}

#[test]
fn duplicate_upgrade_is_compile_error() {
    let e = error(plan(vec![
        method("upgrade1", ArgKind::RefStr, vec![attr("upgrade", None, false)]),
        method("upgrade2", ArgKind::RefStr, vec![attr("upgrade", None, false)]),
    ]));
    assert_eq!(e.message, "only one #[astrid::upgrade] method is allowed per capsule");
}

#[test]
fn install_with_args_is_compile_error() {
    let e = error(plan(vec![method("install", ArgKind::Other, vec![attr("install", None, false)])]));
    assert_eq!(e.message, "#[astrid::install] must have signature: fn(&self) -> Result<(), SysError>");
    assert_eq!(e.span, ErrorSpan::Signature);
}

#[test]
fn upgrade_without_args_is_compile_error() {
    let e = error(plan(vec![method("upgrade", ArgKind::NoArg, vec![attr("upgrade", None, false)])]));
    assert_eq!(e.message, "#[astrid::upgrade] must have signature: fn(&self, prev_version: &str) -> Result<(), SysError>");
}

#[test]
fn upgrade_with_wrong_arg_type_is_compile_error() {
    assert!(plan(vec![method("upgrade", ArgKind::Other, vec![attr("upgrade", None, false)])]).is_err());
}

#[test]
fn both_install_and_upgrade() {
    let p = plan(vec![
        method("install", ArgKind::NoArg, vec![attr("install", None, false)]),
        method("upgrade", ArgKind::RefStr, vec![attr("upgrade", None, false)]),
    ])
    .unwrap();
    assert_eq!(p.install.as_deref(), Some("install"));
    assert_eq!(p.upgrade.as_deref(), Some("upgrade"));
    assert!(p.arms.is_empty());
}

#[test]
fn mutable_on_install_is_compile_error() {
    let e = error(plan(vec![method("install", ArgKind::NoArg, vec![attr("mutable", None, false), attr("install", None, false)])]));
    assert_eq!(e.message, "#[astrid::mutable] cannot be used on lifecycle hooks or #[astrid::run]");
}

#[test]
fn install_then_mutable_is_compile_error() {
    assert!(plan(vec![method("install", ArgKind::NoArg, vec![attr("install", None, false), attr("mutable", None, false)])]).is_err());
}

#[test]
fn mutable_on_run_is_compile_error() {
    assert!(plan(vec![method("run", ArgKind::NoArg, vec![attr("mutable", None, false), attr("run", None, false)])]).is_err());
}

#[test]
fn duplicate_run_is_compile_error() {
    let e = error(plan(vec![
        method("run", ArgKind::NoArg, vec![attr("run", None, false)]),
        method("run2", ArgKind::NoArg, vec![attr("run", None, false)]),
    ]));
    assert_eq!(e.message, "only one #[astrid::run] method is allowed per capsule");
}

#[test]
fn run_with_args_is_compile_error() {
    let e = error(plan(vec![method("run", ArgKind::Other, vec![attr("run", None, false)])]));
    assert_eq!(e.message, "#[astrid::run] must have signature: fn(&self) -> Result<(), SysError>");
}

#[test]
fn run_with_different_method_name() {
    let p = plan(vec![method("event_loop", ArgKind::NoArg, vec![attr("run", None, false)])]).unwrap();
    assert_eq!(p.run.as_deref(), Some("event_loop"));
}

#[test]
fn commands_follow_interceptors_and_describe() {
    let p = plan(vec![
        method("cmd", ArgKind::NoArg, vec![attr("command", Some("/status"), false)]),
        method("on_msg", ArgKind::Other, vec![attr("interceptor", Some("on_message"), false)]),
        method("search", ArgKind::Other, vec![attr("tool", None, false)]),
    ])
    .unwrap();
    let actions: Vec<&str> = p.arms.iter().map(|a| a.action.as_str()).collect();
    assert_eq!(actions, vec!["on_message", "tool_execute_search", "tool_describe", "/status"]);
    assert_eq!(p.arms[3].kind, ArmKind::Command);
    assert!(!p.arms[3].takes_args);
    assert!(p.arms[0].takes_args);
}

fn mut_method(name: &str, arg: ArgKind, attrs: Vec<AstridAttr>) -> MethodInfo {
    MethodInfo { name: name.into(), arg, mut_receiver: true, attrs, description: None }
}

fn actions(p: &CapsulePlan) -> Vec<&str> {
    p.arms.iter().map(|a| a.action.as_str()).collect()
}

#[test]
fn explicit_state_attr_forces_stateful_dispatch() {
    let methods = vec![method("query", ArgKind::Other, vec![attr("tool", Some("query"), false)])];
    let p = plan_capsule(true, &methods).unwrap();
    assert!(p.stateful);
    assert_eq!(actions(&p), vec!["tool_execute_query", "tool_describe"]);
    assert!(!plan_capsule(false, &methods).unwrap().stateful);
}

#[test]
fn doc_comment_becomes_tool_description() {
    let lines = vec![
        " Read the contents of a file.".to_string(),
        "".to_string(),
        " Supports optional line range selection for partial reads.".to_string(),
    ];
    let desc = doc_text(&lines);
    assert_eq!(
        desc.as_deref(),
        Some("Read the contents of a file.\n\nSupports optional line range selection for partial reads.")
    );
    let mut m = method("read_file", ArgKind::Other, vec![attr("tool", Some("read_file"), false)]);
    m.description = desc.clone();
    let p = plan_capsule(false, &vec![m]).unwrap();
    assert_eq!(p.tools[0].description, desc);
}

#[test]
fn tool_without_doc_comment_has_no_description() {
    assert_eq!(doc_text(&vec![]), None);
    let p = plan(vec![method("bare_tool", ArgKind::Other, vec![attr("tool", Some("bare_tool"), false)])]).unwrap();
    assert_eq!(p.tools[0].description, None);
}

#[test]
fn capsule_doc_comment_becomes_export_description() {
    let lines = vec![
        " Core filesystem tools for the Astrid OS.".to_string(),
        "".to_string(),
        " Provides sandboxed file operations through the VFS.".to_string(),
    ];
    let desc = doc_text(&lines).unwrap();
    assert!(desc.contains("Core filesystem tools"));
    assert!(desc.contains("sandboxed file operations"));
    assert_eq!(desc, "Core filesystem tools for the Astrid OS.\n\nProvides sandboxed file operations through the VFS.");
}

#[test]
fn capsule_without_doc_has_no_description() {
    assert_eq!(doc_text(&vec![]), None);
}

#[test]
fn inline_mutable_in_tool_attr() {
    let p = plan(vec![method("write_file", ArgKind::Other, vec![attr("tool", Some("write_file"), true)])]).unwrap();
    assert!(p.tools[0].mutable);
    assert_eq!(p.tools[0].name, "write_file");
}

#[test]
fn mutable_on_upgrade_is_compile_error() {
    let e = error(plan(vec![method("upgrade", ArgKind::RefStr, vec![attr("mutable", None, false), attr("upgrade", None, false)])]));
    assert_eq!(e.message, "#[astrid::mutable] cannot be used on lifecycle hooks or #[astrid::run]");
}

#[test]
fn upgrade_with_string_arg_is_compile_error() {
    let e = error(plan(vec![method("upgrade", ArgKind::Other, vec![attr("upgrade", None, false)])]));
    assert_eq!(e.message, "#[astrid::upgrade] must have signature: fn(&self, prev_version: &str) -> Result<(), SysError>");
}

#[test]
fn install_generates_export() {
    let p = plan(vec![method("install", ArgKind::NoArg, vec![attr("install", None, false)])]).unwrap();
    assert_eq!(p.install.as_deref(), Some("install"));
    assert_eq!(p.upgrade, None);
    assert!(!p.stateful);
}

#[test]
fn upgrade_generates_export() {
    let p = plan(vec![method("upgrade", ArgKind::RefStr, vec![attr("upgrade", None, false)])]).unwrap();
    assert_eq!(p.upgrade.as_deref(), Some("upgrade"));
    assert_eq!(p.install, None);
    assert!(!p.stateful);
}

#[test]
fn stateful_install_persists_state() {
    let p = plan_capsule(true, &vec![method("install", ArgKind::NoArg, vec![attr("install", None, false)])]).unwrap();
    assert_eq!(p.install.as_deref(), Some("install"));
    assert!(p.stateful);
}

#[test]
fn stateful_upgrade_loads_and_persists_state() {
    let p = plan_capsule(true, &vec![method("upgrade", ArgKind::RefStr, vec![attr("upgrade", None, false)])]).unwrap();
    assert_eq!(p.upgrade.as_deref(), Some("upgrade"));
    assert!(p.stateful);
}

#[test]
fn stateful_both_install_and_upgrade() {
    let p = plan_capsule(
        true,
        &vec![
            method("install", ArgKind::NoArg, vec![attr("install", None, false)]),
            method("upgrade", ArgKind::RefStr, vec![attr("upgrade", None, false)]),
        ],
    )
    .unwrap();
    assert_eq!(p.install.as_deref(), Some("install"));
    assert_eq!(p.upgrade.as_deref(), Some("upgrade"));
    assert!(p.stateful);
}

#[test]
fn run_generates_export() {
    let p = plan(vec![method("run", ArgKind::NoArg, vec![attr("run", None, false)])]).unwrap();
    assert_eq!(p.run.as_deref(), Some("run"));
}

#[test]
fn run_stateless_uses_get_instance() {
    let p = plan(vec![method("run", ArgKind::NoArg, vec![attr("run", None, false)])]).unwrap();
    assert_eq!(p.run.as_deref(), Some("run"));
    assert!(!p.stateful);
}

#[test]
fn run_stateful_loads_state() {
    let p = plan_capsule(true, &vec![method("run", ArgKind::NoArg, vec![attr("run", None, false)])]).unwrap();
    assert_eq!(p.run.as_deref(), Some("run"));
    assert!(p.stateful);
}

#[test]
fn run_with_tools_and_install() {
    let p = plan(vec![
        method("search", ArgKind::Other, vec![attr("tool", Some("search"), false)]),
        method("install", ArgKind::NoArg, vec![attr("install", None, false)]),
        method("run", ArgKind::NoArg, vec![attr("run", None, false)]),
    ])
    .unwrap();
    assert_eq!(actions(&p), vec!["tool_execute_search", "tool_describe"]);
    assert_eq!(p.install.as_deref(), Some("install"));
    assert_eq!(p.run.as_deref(), Some("run"));
}

#[test]
fn stateful_run_with_tools_separates_state_persistence() {
    let p = plan_capsule(
        true,
        &vec![
            method("search", ArgKind::Other, vec![attr("tool", Some("search"), false)]),
            method("run", ArgKind::NoArg, vec![attr("run", None, false)]),
        ],
    )
    .unwrap();
    assert!(p.stateful);
    assert_eq!(p.arms[0].action, "tool_execute_search");
    assert_eq!(p.arms[0].kind, ArmKind::Tool);
    assert_eq!(p.run.as_deref(), Some("run"));
}

#[test]
fn stateful_tool_dispatch_loads_and_saves_state() {
    let p = plan(vec![mut_method("update", ArgKind::Other, vec![attr("tool", Some("update"), false)])]).unwrap();
    assert!(p.stateful);
    assert_eq!(actions(&p), vec!["tool_execute_update", "tool_describe"]);
}

#[test]
fn stateless_tool_dispatch_uses_singleton() {
    let p = plan(vec![method("read", ArgKind::Other, vec![attr("tool", Some("read"), false)])]).unwrap();
    assert!(!p.stateful);
    assert_eq!(actions(&p), vec!["tool_execute_read", "tool_describe"]);
}

#[test]
fn stateful_interceptor_dispatch_loads_and_saves_state() {
    let p = plan(vec![mut_method("handle_event", ArgKind::Other, vec![attr("interceptor", Some("handle_event"), false)])]).unwrap();
    assert!(p.stateful);
    assert_eq!(actions(&p), vec!["handle_event"]);
    assert_eq!(p.arms[0].kind, ArmKind::Interceptor);
    assert_eq!(p.arms[0].method, "handle_event");
}

#[test]
fn stateful_command_dispatch_loads_and_saves_state() {
    let p = plan(vec![mut_method("reset", ArgKind::Other, vec![attr("command", Some("reset"), false)])]).unwrap();
    assert!(p.stateful);
    assert_eq!(actions(&p), vec!["reset"]);
    assert_eq!(p.arms[0].kind, ArmKind::Command);
}

#[test]
fn hook_trigger_returns_capsule_result() {
    let p = plan(vec![method("handle", ArgKind::Other, vec![attr("interceptor", Some("my_hook"), false)])]).unwrap();
    assert_eq!(actions(&p), vec!["my_hook"]);
    assert_eq!(p.continue_action, "continue");
    assert_eq!(p.deny_action, "deny");
}

#[test]
fn all_four_guest_methods_always_present() {
    let p = plan(vec![method("ping", ArgKind::NoArg, vec![attr("tool", Some("ping"), false)])]).unwrap();
    assert_eq!(p.exports, vec!["astrid_hook_trigger", "run", "astrid_install", "astrid_upgrade"]);
    assert_eq!(p.install, None);
    assert_eq!(p.upgrade, None);
    assert_eq!(p.run, None);
}

#[test]
fn tool_describe_publishes_response_for_fanout() {
    let p = plan(vec![method("search", ArgKind::Other, vec![attr("tool", Some("search"), false)])]).unwrap();
    assert_eq!(p.arms[0].publish_topic.as_deref(), Some("tool.v1.execute.search.result"));
    assert_eq!(p.arms[1].kind, ArmKind::ToolDescribe);
    assert_eq!(p.arms[1].publish_topic.as_deref(), Some("tool.v1.response.describe.self"));
}

#[test]
fn capsule_without_tools_has_no_describe_publish() {
    let p = plan(vec![
        method("on_msg", ArgKind::Other, vec![attr("interceptor", Some("on_message"), false)]),
        method("cmd", ArgKind::NoArg, vec![attr("command", Some("/status"), false)]),
    ])
    .unwrap();
    assert!(p.arms.iter().all(|a| a.kind != ArmKind::ToolDescribe && a.publish_topic.is_none()));
}
