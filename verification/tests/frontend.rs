use bahamut::{
    plan, Arguments, DomainFetcher, ExecutionRequest, ModuleRegistry, Plan,
};

fn registry(ids: &[&str]) -> ModuleRegistry<DomainFetcher> {
    let mut registry = ModuleRegistry::new();
    for id in ids {
        assert_eq!(registry.register(String::from(*id), DomainFetcher), Ok(()));
    }
    registry
}

fn arguments(short: &[(&str, &str)], long: &[(&str, &str)]) -> Arguments {
    let mut arguments = Arguments::new(false);
    for (name, value) in short {
        arguments.set_short(String::from(*name), String::from(*value));
    }
    for (name, value) in long {
        arguments.set_long(String::from(*name), String::from(*value));
    }
    arguments
}

fn run(module_id: &str, target: &str) -> Plan {
    Plan::Run(ExecutionRequest::new(String::from(module_id), String::from(target)))
}

#[test]
fn no_arguments_shows_help() {
    assert_eq!(plan(&Arguments::new(true), &registry(&["fetch"])), Plan::ShowHelp);
}

#[test]
fn short_help_shows_help() {
    let arguments = arguments(&[("h", "true"), ("t", "example.com")], &[("fetch", "true")]);
    assert_eq!(plan(&arguments, &registry(&["fetch"])), Plan::ShowHelp);
}

#[test]
fn long_help_shows_help() {
    let arguments = arguments(&[], &[("help", "true")]);
    assert_eq!(plan(&arguments, &registry(&["fetch"])), Plan::ShowHelp);
    assert!(arguments.wants_help());
}

#[test]
fn help_in_the_other_table_is_no_help() {
    let arguments = arguments(&[("help", "true")], &[("h", "true"), ("target", "example.com")]);
    assert!(!arguments.wants_help());
    assert_eq!(plan(&arguments, &registry(&["fetch"])), Plan::Idle);
}

#[test]
fn missing_target_with_a_module_flag() {
    let arguments = arguments(&[], &[("fetch", "true")]);
    assert_eq!(plan(&arguments, &registry(&["fetch"])), Plan::MissingTarget);
}

#[test]
fn missing_target_without_a_module_flag() {
    let arguments = arguments(&[("v", "true")], &[]);
    assert_eq!(plan(&arguments, &registry(&["fetch"])), Plan::MissingTarget);
    assert_eq!(arguments.target(), None);
}

#[test]
fn short_target_and_fetch_flag() {
    let arguments = arguments(&[("t", "example.com")], &[("fetch", "true")]);
    assert_eq!(plan(&arguments, &registry(&["fetch"])), run("fetch", "example.com"));
}

#[test]
fn long_target_and_fetch_flag() {
    let arguments = arguments(&[], &[("target", "example.org"), ("fetch", "true")]);
    assert_eq!(plan(&arguments, &registry(&["fetch"])), run("fetch", "example.org"));
}

#[test]
fn long_target_wins_over_short_target() {
    let arguments =
        arguments(&[("t", "short.example")], &[("target", "long.example"), ("fetch", "true")]);
    assert_eq!(arguments.target(), Some(String::from("long.example")));
    assert_eq!(plan(&arguments, &registry(&["fetch"])), run("fetch", "long.example"));
}

#[test]
fn target_in_the_other_table_is_no_target() {
    let arguments = arguments(&[("target", "example.com")], &[("t", "example.org")]);
    assert_eq!(arguments.target(), None);
}

#[test]
fn target_without_a_module_is_idle() {
    let arguments = arguments(&[("t", "example.com")], &[]);
    assert_eq!(plan(&arguments, &registry(&["fetch"])), Plan::Idle);
}

#[test]
fn flag_of_an_unregistered_module_chooses_nothing() {
    let arguments = arguments(&[("t", "example.com")], &[("portscan", "true")]);
    assert_eq!(plan(&arguments, &registry(&["fetch"])), Plan::Idle);
}

#[test]
fn empty_target_is_passed_on_to_the_dispatcher() {
    let arguments = arguments(&[("t", "")], &[("fetch", "true")]);
    assert_eq!(plan(&arguments, &registry(&["fetch"])), run("fetch", ""));
}

#[test]
fn first_registered_module_among_the_flagged_runs() {
    let arguments =
        arguments(&[("t", "example.com")], &[("portscan", "true"), ("fetch", "true")]);
    let ids = vec![String::from("dns"), String::from("fetch"), String::from("portscan")];
    assert_eq!(arguments.module(&ids), Some(String::from("fetch")));
    assert_eq!(
        plan(&arguments, &registry(&["dns", "portscan", "fetch"])),
        run("portscan", "example.com")
    );
}

#[test]
fn module_option_names_the_module() {
    let arguments = arguments(&[("t", "example.com")], &[("module", "portscan")]);
    assert_eq!(
        plan(&arguments, &registry(&["fetch", "portscan"])),
        run("portscan", "example.com")
    );
}

#[test]
fn module_option_wins_over_a_module_flag() {
    let arguments =
        arguments(&[("t", "example.com")], &[("fetch", "true"), ("module", "portscan")]);
    assert_eq!(
        plan(&arguments, &registry(&["fetch", "portscan"])),
        run("portscan", "example.com")
    );
}

#[test]
fn module_option_may_name_an_unknown_module() {
    let arguments = arguments(&[("t", "example.com")], &[("module", "nope")]);
    assert_eq!(plan(&arguments, &registry(&["fetch"])), run("nope", "example.com"));
}

#[test]
fn no_module_among_no_ids() {
    let arguments = arguments(&[("t", "example.com")], &[("fetch", "true")]);
    assert_eq!(arguments.module(&Vec::new()), None);
    assert_eq!(plan(&arguments, &registry(&[])), Plan::Idle);
}

#[test]
fn a_later_value_replaces_an_earlier_one() {
    let mut arguments = Arguments::new(false);
    arguments.set_short(String::from("t"), String::from("first.example"));
    arguments.set_short(String::from("t"), String::from("second.example"));
    assert_eq!(arguments.target(), Some(String::from("second.example")));
    arguments.set_long(String::from("target"), String::from("third.example"));
    arguments.set_long(String::from("target"), String::from("fourth.example"));
    assert_eq!(arguments.target(), Some(String::from("fourth.example")));
}

#[test]
fn exit_status_of_a_plan() {
    assert_eq!(Plan::ShowHelp.exit_status(), Some(0));
    assert_eq!(Plan::MissingTarget.exit_status(), Some(1));
    assert_eq!(Plan::Idle.exit_status(), Some(0));
    assert_eq!(run("fetch", "example.com").exit_status(), None);
}
