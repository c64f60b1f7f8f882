use local_control::cli::{
    ActionCatalogCommand, AppCommand, CatalogFilterArgs, CompletionShell, ControlArgs, ControlCommand,
    InstanceCommand, OutputFormat, ParseError, TabCommand,
};

fn parse_ok<const N: usize>(args: [&str; N]) -> ControlArgs<String> {
    ControlArgs::try_parse_from(&args).expect("command parses")
}

fn parse_err<const N: usize>(args: [&str; N]) -> ParseError {
    ControlArgs::try_parse_from(&args).expect_err("command is rejected")
}

#[test]
fn parses_first_slice_tab_create() {
    let args = parse_ok(["warpctrl", "tab", "create", "--instance", "inst_123"]);
    let ControlCommand::Tab(TabCommand::Create(target)) = args.command else {
        panic!("expected tab create command");
    };
    assert_eq!(target.instance.as_deref(), Some("inst_123"));
}

#[test]
fn parses_first_slice_instance_list() {
    let args = parse_ok(["warpctrl", "instance", "list"]);
    assert!(matches!(
        args.command,
        ControlCommand::Instance(InstanceCommand::List)
    ));
}

#[test]
fn parses_first_slice_app_smoke_metadata_commands() {
    parse_ok(["warpctrl", "app", "ping"]);
    parse_ok(["warpctrl", "app", "version"]);
}

#[test]
fn parses_completion_generation_command() {
    let args = parse_ok(["warpctrl", "completions", "bash"]);
    assert!(matches!(
        args.command,
        ControlCommand::Completions {
            shell: Some(CompletionShell::Bash)
        }
    ));
}

#[test]
fn rejects_future_catalog_commands_not_in_first_slice() {
    parse_err(["warpctrl", "window", "list"]);
    parse_err(["warpctrl", "tab", "list"]);
    parse_err(["warpctrl", "setting", "list"]);
}

#[test]
fn rejects_file_content_crud_commands() {
    for args in [
        ["warpctrl", "file", "read"],
        ["warpctrl", "file", "write"],
        ["warpctrl", "file", "append"],
        ["warpctrl", "file", "delete"],
    ] {
        parse_err(args);
    }
}

#[test]
fn parser_accepts_all_implemented_protocol_commands() {
    for args in [
        ["warpctrl", "instance", "list"],
        ["warpctrl", "app", "ping"],
        ["warpctrl", "app", "version"],
        ["warpctrl", "tab", "create"],
    ] {
        parse_ok(args);
    }
}

#[test]
fn instance_selector_flags_are_available_on_control_requests() {
    let args = parse_ok(["warpctrl", "app", "ping", "--pid", "1234"]);
    let ControlCommand::App(AppCommand::Ping(target)) = args.command else {
        panic!("expected app ping command");
    };
    assert_eq!(target.pid, Some(1234));

    parse_err([
        "warpctrl",
        "app",
        "ping",
        "--pid",
        "1234",
        "--instance",
        "inst_123",
    ]);
}

#[test]
fn output_format_is_read_before_the_command() {
    let args = parse_ok(["warpctrl", "--output-format", "json", "tab", "create"]);
    assert_eq!(args.output_format, OutputFormat::Json);
    let default = parse_ok(["warpctrl", "tab", "create"]);
    assert_eq!(default.output_format, OutputFormat::Pretty);
    assert_eq!(parse_err(["warpctrl", "--output-format", "yaml", "tab", "create"]), ParseError::InvalidValue);
    assert_eq!(parse_err(["warpctrl", "--output-format"]), ParseError::MissingValue);
}

#[test]
fn parse_errors_name_what_is_wrong() {
    assert_eq!(parse_err(["warpctrl"]), ParseError::MissingCommand);
    assert_eq!(parse_err(["warpctrl", "window", "list"]), ParseError::UnknownCommand);
    assert_eq!(parse_err(["warpctrl", "tab"]), ParseError::MissingSubcommand);
    assert_eq!(parse_err(["warpctrl", "tab", "list"]), ParseError::UnknownSubcommand);
    assert_eq!(parse_err(["warpctrl", "instance", "list", "extra"]), ParseError::UnexpectedArgument);
    assert_eq!(parse_err(["warpctrl", "app", "ping", "--pid"]), ParseError::MissingValue);
    assert_eq!(parse_err(["warpctrl", "app", "ping", "--pid", "12a"]), ParseError::InvalidValue);
    assert_eq!(parse_err(["warpctrl", "app", "ping", "--pid", "4294967296"]), ParseError::InvalidValue);
    assert_eq!(parse_err(["warpctrl", "app", "ping", "--pid", "1", "--pid", "2"]), ParseError::DuplicateArgument);
    assert_eq!(parse_err(["warpctrl", "app", "ping", "--pid", "1", "--instance", "x"]), ParseError::ConflictingArguments);
}

#[test]
fn largest_pid_is_accepted() {
    let args = parse_ok(["warpctrl", "app", "focus", "--pid", "4294967295"]);
    let ControlCommand::App(AppCommand::Focus(target)) = args.command else {
        panic!("expected app focus command");
    };
    assert_eq!(target.pid, Some(4294967295));
    assert_eq!(target.instance, None);
}

#[test]
fn catalog_commands_parse_filters_and_names() {
    let args = parse_ok(["warpctrl", "action", "list", "--stubs-only"]);
    assert_eq!(
        args.command,
        ControlCommand::Action(ActionCatalogCommand::List(CatalogFilterArgs { implemented_only: false, stubs_only: true }))
    );
    let args = parse_ok(["warpctrl", "action", "inspect", "tab.create"]);
    assert_eq!(
        args.command,
        ControlCommand::Action(ActionCatalogCommand::Inspect { action: "tab.create".to_string() })
    );
    assert_eq!(parse_err(["warpctrl", "action", "inspect"]), ParseError::MissingValue);
    assert_eq!(parse_err(["warpctrl", "capability", "inspect", "--x"]), ParseError::UnexpectedArgument);
}
