use local_control::cloud_object::{
    CloudModel, CloudObject, CloudObjectModel, CloudObjectTypeAndId, GenericStringObjectFormat, JsonObjectType,
    ObjectType, SyncId,
};
use local_control::drive::{
    cloud_object_type_label, control_drive_object_type, drive_env_var_collection_open, drive_inspect, drive_list,
    drive_notebook_open, drive_object_content, drive_object_get_result, drive_object_share_open, drive_object_summary,
    drive_object_type_rank, drive_open, drive_type_mismatch_error, drive_unsupported_type_error,
    resolve_cloud_object_type_and_id, resolve_typed_drive_sync_id, select_window_for_drive_open,
    validate_drive_open_target, validate_drive_target, DriveObjectContent, DriveObjectType,
};
use local_control::protocol::{ActionKind, ErrorCode, TargetSelector, WindowTarget};
use local_control::windows::WindowSnapshot;

fn json(t: JsonObjectType) -> ObjectType {
    ObjectType::GenericStringObject(GenericStringObjectFormat::Json(t))
}

fn object(uid: &str, name: &str, object_type: ObjectType, model: CloudObjectModel) -> CloudObject {
    CloudObject {
        uid: uid.to_string(),
        display_name: name.to_string(),
        object_type,
        sync_id: SyncId::ServerId(format!("sync-{uid}")),
        model,
    }
}

fn workflow(agent: bool) -> CloudObjectModel {
    CloudObjectModel::Workflow { is_agent_mode_workflow: agent, data_json: "{\"name\":\"w\"}".to_string() }
}

fn model() -> CloudModel {
    CloudModel {
        objects: vec![
            object("f1", "Folder", ObjectType::Folder, CloudObjectModel::Folder { name: "Folder".to_string(), is_open: true, is_warp_pack: false }),
            object("w2", "beta", ObjectType::Workflow, workflow(false)),
            object("n1", "Notes", ObjectType::Notebook, CloudObjectModel::Notebook {
                title: "Notes".to_string(),
                data: "# hi".to_string(),
                ai_document_id: None,
                conversation_id: Some("c1".to_string()),
            }),
            object("w1", "alpha", ObjectType::Workflow, workflow(false)),
            object("p1", "prompt", ObjectType::Workflow, workflow(true)),
            object("e1", "env", json(JsonObjectType::EnvVarCollection), CloudObjectModel::EnvVarCollection { string_model_json: "{}".to_string() }),
            object("a1", "fact", json(JsonObjectType::AIFact), CloudObjectModel::Opaque),
            object("r1", "rule", json(JsonObjectType::AIRule), CloudObjectModel::Opaque),
            object("m1", "mcp", json(JsonObjectType::TemplatableMCPServer), CloudObjectModel::Opaque),
            object("w0", "alpha", ObjectType::Workflow, workflow(false)),
            object("x1", "broken", ObjectType::Notebook, CloudObjectModel::Opaque),
        ],
    }
}

fn windows() -> WindowSnapshot {
    WindowSnapshot {
        active_window: Some("7".to_string()),
        window_ids: vec!["7".to_string(), "9".to_string()],
        workspace_window_ids: vec!["7".to_string(), "9".to_string()],
    }
}

#[test]
fn drive_list_orders_by_kind_then_name_then_id() {
    let rows = drive_list(&TargetSelector::empty(), None, &model()).unwrap();
    let listed: Vec<(DriveObjectType, &str, &str)> =
        rows.iter().map(|r| (r.object_type, r.name.as_str(), r.id.as_str())).collect();
    assert_eq!(
        listed,
        vec![
            (DriveObjectType::Workflow, "alpha", "w0"),
            (DriveObjectType::Workflow, "alpha", "w1"),
            (DriveObjectType::Workflow, "beta", "w2"),
            (DriveObjectType::Prompt, "prompt", "p1"),
            (DriveObjectType::Notebook, "Notes", "n1"),
            (DriveObjectType::Notebook, "broken", "x1"),
            (DriveObjectType::EnvVarCollection, "env", "e1"),
            (DriveObjectType::Folder, "Folder", "f1"),
            (DriveObjectType::AiFact, "fact", "a1"),
            (DriveObjectType::McpServer, "mcp", "m1"),
        ]
    );
}

#[test]
fn drive_list_filters_by_kind() {
    let rows = drive_list(&TargetSelector::empty(), Some(DriveObjectType::Workflow), &model()).unwrap();
    assert_eq!(rows.iter().map(|r| r.id.as_str()).collect::<Vec<_>>(), vec!["w0", "w1", "w2"]);
    let rows = drive_list(&TargetSelector::empty(), Some(DriveObjectType::Trash), &model()).unwrap();
    assert!(rows.is_empty());
}

#[test]
fn drive_list_rejects_window_selectors() {
    let target = TargetSelector { window: Some(WindowTarget::Active), ..TargetSelector::empty() };
    let err = drive_list(&target, None, &model()).unwrap_err();
    assert_eq!(err.code, ErrorCode::InvalidSelector);
    assert_eq!(err.message, "drive.list does not accept window, tab, pane, or session selectors");
}

#[test]
fn drive_object_kinds_and_ranks() {
    let m = model();
    assert_eq!(control_drive_object_type(&m.objects[4]), Some(DriveObjectType::Prompt));
    assert_eq!(control_drive_object_type(&m.objects[7]), None);
    assert_eq!(control_drive_object_type(&m.objects[8]), Some(DriveObjectType::McpServer));
    assert_eq!(drive_object_type_rank(DriveObjectType::Workflow), 0);
    assert_eq!(drive_object_type_rank(DriveObjectType::Trash), 10);
    assert!(drive_object_summary(&m.objects[7]).is_none());
    let s = drive_object_summary(&m.objects[2]).unwrap();
    assert_eq!((s.object_type, s.id.as_str(), s.name.as_str()), (DriveObjectType::Notebook, "n1", "Notes"));
}

#[test]
fn drive_inspect_reads_supported_content() {
    let result = drive_inspect(&TargetSelector::empty(), "n1", &model()).unwrap();
    assert_eq!(result.object.id, "n1");
    assert_eq!(
        result.content,
        DriveObjectContent::Notebook {
            title: "Notes".to_string(),
            data: "# hi".to_string(),
            ai_document_id: None,
            conversation_id: Some("c1".to_string()),
        }
    );
    let folder = drive_object_get_result(&model().objects[0]).unwrap();
    assert_eq!(folder.content, DriveObjectContent::Folder { name: "Folder".to_string(), is_open: true, is_warp_pack: false });
}

#[test]
fn drive_inspect_errors() {
    let m = model();
    let err = drive_inspect(&TargetSelector::empty(), "nope", &m).unwrap_err();
    assert_eq!(err.code, ErrorCode::StaleTarget);
    assert_eq!(err.message, "drive.inspect could not resolve the requested Drive object id");
    let err = drive_inspect(&TargetSelector::empty(), "r1", &m).unwrap_err();
    assert_eq!(err.code, ErrorCode::UnsupportedAction);
    assert_eq!(err.message, "drive.inspect does not support this Drive object type");
    let err = drive_inspect(&TargetSelector::empty(), "a1", &m).unwrap_err();
    assert_eq!(err, drive_unsupported_type_error());
    let err = drive_object_content(&m.objects[10]).unwrap_err();
    assert_eq!(err, drive_type_mismatch_error());
    assert_eq!(err.code, ErrorCode::TargetStateConflict);
}

#[test]
fn drive_open_targets_are_checked() {
    let tab = TargetSelector { tab: Some("t".to_string()), ..TargetSelector::empty() };
    let err = validate_drive_open_target(&tab, ActionKind::DriveOpen).unwrap_err();
    assert_eq!(err.message, "drive.open does not accept tab, pane, or session selectors");
    let by_index = TargetSelector { window: Some(WindowTarget::Index { index: 1 }), ..TargetSelector::empty() };
    let err = validate_drive_open_target(&by_index, ActionKind::DriveOpen).unwrap_err();
    assert_eq!(err.message, "drive.open only supports active and opaque window id selectors");
    let by_id = TargetSelector { window: Some(WindowTarget::Id { id: "9".to_string() }), ..TargetSelector::empty() };
    assert!(validate_drive_open_target(&by_id, ActionKind::DriveOpen).is_ok());
    assert!(validate_drive_target(&by_id, ActionKind::DriveList).is_err());
}

#[test]
fn drive_open_resolves_object_and_window() {
    let by_id = TargetSelector { window: Some(WindowTarget::Id { id: "9".to_string() }), ..TargetSelector::empty() };
    let plan = drive_open(&by_id, "w1", &model(), &windows()).unwrap();
    assert_eq!(plan.window_id, "9");
    assert_eq!(plan.object, CloudObjectTypeAndId::Workflow(SyncId::ServerId("sync-w1".to_string())));
    assert_eq!(cloud_object_type_label(&plan.object), "workflow");
    let plan = drive_object_share_open(&TargetSelector::empty(), "e1", &model(), &windows()).unwrap();
    assert_eq!(plan.window_id, "7");
    assert_eq!(cloud_object_type_label(&plan.object), "env_var_collection");
}

#[test]
fn drive_open_errors_in_order() {
    let err = drive_open(&TargetSelector::empty(), "   ", &model(), &windows()).unwrap_err();
    assert_eq!(err.code, ErrorCode::InvalidParams);
    assert_eq!(err.message, "drive.open requires a non-empty Drive object id");
    let err = drive_open(&TargetSelector::empty(), "zz", &model(), &windows()).unwrap_err();
    assert_eq!(err.code, ErrorCode::StaleTarget);
    let none_active = WindowSnapshot { active_window: None, window_ids: vec![], workspace_window_ids: vec![] };
    let err = drive_open(&TargetSelector::empty(), "w1", &model(), &none_active).unwrap_err();
    assert_eq!(err.code, ErrorCode::MissingTarget);
    assert_eq!(err.message, "drive.open requires an active Warp window");
    let by_id = TargetSelector { window: Some(WindowTarget::Id { id: "3".to_string() }), ..TargetSelector::empty() };
    let err = select_window_for_drive_open(ActionKind::DriveOpen, &by_id, &windows()).unwrap_err();
    assert_eq!(err.code, ErrorCode::StaleTarget);
    assert_eq!(err.message, "drive.open cannot resolve the requested window id");
}

#[test]
fn typed_drive_opens_check_the_object_type() {
    let plan = drive_notebook_open(&TargetSelector::empty(), "n1", &model(), &windows()).unwrap();
    assert_eq!(plan.object, SyncId::ServerId("sync-n1".to_string()));
    let err = drive_notebook_open(&TargetSelector::empty(), "w1", &model(), &windows()).unwrap_err();
    assert_eq!(err.code, ErrorCode::TargetStateConflict);
    assert_eq!(err.message, "drive.notebook.open can only open Drive objects of type notebook");
    let plan = drive_env_var_collection_open(&TargetSelector::empty(), "e1", &model(), &windows()).unwrap();
    assert_eq!(plan.object, SyncId::ServerId("sync-e1".to_string()));
    let err = resolve_typed_drive_sync_id("n1", json(JsonObjectType::EnvVarCollection), ActionKind::DriveEnvVarCollectionOpen, &model()).unwrap_err();
    assert_eq!(err.message, "drive.env-var-collection.open can only open Drive objects of type env var collection");
    let resolved = resolve_cloud_object_type_and_id("m1", ActionKind::DriveOpen, &model()).unwrap();
    assert_eq!(cloud_object_type_label(&resolved), "mcp_server");
}

#[test]
fn drive_open_actions_need_a_workspace_in_the_window() {
    let bare = WindowSnapshot {
        active_window: Some("7".to_string()),
        window_ids: vec!["7".to_string()],
        workspace_window_ids: vec![],
    };
    let err = drive_open(&TargetSelector::empty(), "w1", &model(), &bare).unwrap_err();
    assert_eq!(err.code, ErrorCode::MissingTarget);
    assert_eq!(err.message, "drive.open requires a workspace in the target window");
    let err = drive_notebook_open(&TargetSelector::empty(), "n1", &model(), &bare).unwrap_err();
    assert_eq!(err.message, "drive.notebook.open requires a workspace in the target window");
    let err = drive_env_var_collection_open(&TargetSelector::empty(), "e1", &model(), &bare).unwrap_err();
    assert_eq!(err.message, "drive.env-var-collection.open requires a workspace in the target window");
    let err = drive_object_share_open(&TargetSelector::empty(), "w1", &model(), &bare).unwrap_err();
    assert_eq!(err.message, "drive.object.share.open requires a workspace in the target window");
    let err = drive_open(&TargetSelector::empty(), "zz", &model(), &bare).unwrap_err();
    assert_eq!(err.code, ErrorCode::StaleTarget);
}
