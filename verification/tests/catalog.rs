use local_control::cli::{ActionCatalogCommand, CapabilityCommand, CatalogFilterArgs, OutputFormat};
use local_control::commands::{
    catalog_list, catalog_row_line, metadata_for_action_name, render_catalog_list, render_catalog_metadata, run_action_catalog_command,
    run_capability_command, CatalogOutput,
};
use local_control::protocol::{ActionImplementationStatus, ActionKind, ErrorCode};

#[test]
fn catalog_list_filters() {
    let implemented = catalog_list(CatalogFilterArgs { implemented_only: true, stubs_only: false });
    assert_eq!(implemented.len(), 4);
    let stubs = catalog_list(CatalogFilterArgs { implemented_only: false, stubs_only: true });
    assert!(stubs.iter().all(|m| m.implementation_status == ActionImplementationStatus::Stub));
    let all = catalog_list(CatalogFilterArgs { implemented_only: false, stubs_only: false });
    assert_eq!(all.len(), ActionKind::all().len());
    assert_eq!(implemented.len() + stubs.len(), all.len());
    let both = catalog_list(CatalogFilterArgs { implemented_only: true, stubs_only: true });
    assert_eq!(both.len(), 4);
}

#[test]
fn metadata_is_found_by_wire_name() {
    assert_eq!(metadata_for_action_name("tab.create").unwrap().kind, ActionKind::TabCreate);
    let err = metadata_for_action_name("input.run").unwrap_err();
    assert_eq!(err.code, ErrorCode::NotAllowlisted);
    assert_eq!(err.message, "input.run is not in the public warpctrl action catalog");
    assert!(catalog_list(CatalogFilterArgs { implemented_only: false, stubs_only: false })
        .iter()
        .all(|m| m.kind != ActionKind::InputRun));
    let err = metadata_for_action_name("file.read").unwrap_err();
    assert_eq!(err.code, ErrorCode::NotAllowlisted);
    assert_eq!(err.message, "file.read is not in the public warpctrl action catalog");
    assert_eq!(err.details.as_deref(), Some("Use `warpctrl action list` to inspect allowlisted actions."));
}

#[test]
fn catalog_output_follows_the_format() {
    let args = CatalogFilterArgs { implemented_only: true, stubs_only: false };
    assert!(matches!(render_catalog_list(args, OutputFormat::Json), CatalogOutput::JsonDocument(v) if v.len() == 4));
    assert!(matches!(render_catalog_list(args, OutputFormat::Ndjson), CatalogOutput::JsonLines(v) if v.len() == 4));
    match render_catalog_list(args, OutputFormat::Text) {
        CatalogOutput::Table(rows) => {
            assert_eq!(rows.iter().map(|r| r.name.as_str()).collect::<Vec<_>>(), vec!["instance.list", "app.ping", "app.version", "tab.create"]);
        }
        _ => panic!("expected a table"),
    }
    let m = ActionKind::AppPing.metadata();
    assert_eq!(render_catalog_metadata(m.clone(), OutputFormat::Ndjson), CatalogOutput::SingleJsonLine(m.clone()));
    assert_eq!(render_catalog_metadata(m.clone(), OutputFormat::Pretty), CatalogOutput::SingleJsonDocument(m));
}

#[test]
fn catalog_commands_inspect_and_list() {
    let out = run_action_catalog_command(ActionCatalogCommand::Inspect { action: "app.ping".to_string() }, OutputFormat::Json).unwrap();
    assert_eq!(out, CatalogOutput::SingleJsonDocument(ActionKind::AppPing.metadata()));
    let err = run_capability_command(CapabilityCommand::Inspect { action: "nope".to_string() }, OutputFormat::Json).unwrap_err();
    assert_eq!(err.code, ErrorCode::NotAllowlisted);
    let out = run_capability_command(CapabilityCommand::List(CatalogFilterArgs { implemented_only: false, stubs_only: false }), OutputFormat::Ndjson).unwrap();
    assert!(matches!(out, CatalogOutput::JsonLines(v) if v.len() == ActionKind::all().len()));
}

#[test]
fn catalog_table_rows_name_each_field() {
    let rows = match render_catalog_list(CatalogFilterArgs { implemented_only: true, stubs_only: false }, OutputFormat::Text) {
        CatalogOutput::Table(rows) => rows,
        other => panic!("unexpected {other:?}"),
    };
    let lines: Vec<String> = rows.iter().map(catalog_row_line).collect();
    assert_eq!(
        lines,
        vec![
            "instance.list\tstatus=Implemented\tscope=Instance\tpermission=ReadMetadata\tauthenticated_user=false",
            "app.ping\tstatus=Implemented\tscope=Instance\tpermission=ReadMetadata\tauthenticated_user=false",
            "app.version\tstatus=Implemented\tscope=Instance\tpermission=ReadMetadata\tauthenticated_user=false",
            "tab.create\tstatus=Implemented\tscope=Window\tpermission=MutateAppState\tauthenticated_user=false",
        ]
    );
    let stub = match render_catalog_list(CatalogFilterArgs { implemented_only: false, stubs_only: true }, OutputFormat::Pretty) {
        CatalogOutput::Table(rows) => rows,
        other => panic!("unexpected {other:?}"),
    };
    assert_eq!(
        catalog_row_line(&stub[0]),
        "instance.inspect\tstatus=Stub\tscope=Instance\tpermission=ReadMetadata\tauthenticated_user=true"
    );
}
