use local_control::cloud_object::{
    CloudModel, CloudObject, CloudObjectModel, CloudObjectTypeAndId, GenericStringObjectFormat, JsonObjectType,
    ObjectType, SyncId,
};
use local_control::file_project::{
    drive_object_type_and_id, line_and_column, open_drive_object, open_drive_object_share_dialog, open_file,
    open_project, validate_window_scoped_target, DriveObjectType, DriveOpenAction, FileOpenParams, LineAndColumnArg,
};
use local_control::protocol::{ActionKind, ErrorCode, TargetSelector, WindowTarget};
use local_control::windows::{select_window, workspace_for_window, WindowSnapshot};

fn windows() -> WindowSnapshot {
    WindowSnapshot {
        active_window: Some("1".to_string()),
        window_ids: vec!["1".to_string(), "2".to_string()],
        workspace_window_ids: vec!["1".to_string(), "2".to_string()],
    }
}

#[test]
fn line_and_column_needs_a_line() {
    assert_eq!(line_and_column(None, Some(3)).unwrap(), None);
    assert_eq!(line_and_column(Some(10), None).unwrap(), Some(LineAndColumnArg { line_num: 10, column_num: None }));
    assert_eq!(line_and_column(Some(10), Some(4)).unwrap(), Some(LineAndColumnArg { line_num: 10, column_num: Some(4) }));
}

#[test]
fn window_scoped_actions_reject_finer_selectors() {
    let target = TargetSelector { block: Some("b".to_string()), ..TargetSelector::empty() };
    let err = validate_window_scoped_target(ActionKind::FileOpen, &target).unwrap_err();
    assert_eq!(err.code, ErrorCode::InvalidSelector);
    assert_eq!(err.message, "file.open only accepts instance and window selectors");
    let by_title = TargetSelector { window: Some(WindowTarget::Title { title: "x".to_string() }), ..TargetSelector::empty() };
    assert!(validate_window_scoped_target(ActionKind::FileOpen, &by_title).is_ok());
    let err = select_window(ActionKind::FileOpen, &by_title, &windows()).unwrap_err();
    assert_eq!(err.message, "file.open only supports active and opaque window id selectors");
}

#[test]
fn open_file_plans_a_new_tab() {
    let params = FileOpenParams { path: "/tmp/a.rs".to_string(), line: Some(3), column: None, new_window: false };
    let plan = open_file(&TargetSelector::empty(), params, &windows()).unwrap();
    assert_eq!(plan.window_id, "1");
    assert_eq!(plan.path, "/tmp/a.rs");
    assert_eq!(plan.line_and_column, Some(LineAndColumnArg { line_num: 3, column_num: None }));
    let params = FileOpenParams { path: "/tmp/a.rs".to_string(), line: None, column: None, new_window: true };
    let err = open_file(&TargetSelector::empty(), params, &windows()).unwrap_err();
    assert_eq!(err.code, ErrorCode::InvalidParams);
    assert_eq!(err.message, "file.open --new-window is not implemented in this stack layer");
}

#[test]
fn open_project_uses_the_named_window() {
    let target = TargetSelector { window: Some(WindowTarget::Id { id: "2".to_string() }), ..TargetSelector::empty() };
    let plan = open_project(&target, "/repo".to_string(), &windows()).unwrap();
    assert_eq!(plan.window_id, "2");
    assert_eq!(plan.path, "/repo");
}

#[test]
fn drive_objects_by_kind() {
    assert_eq!(
        drive_object_type_and_id(DriveObjectType::Prompt, "abc"),
        CloudObjectTypeAndId::Workflow(SyncId::ServerId("abc".to_string()))
    );
    assert_eq!(
        drive_object_type_and_id(DriveObjectType::Environment, "abc"),
        CloudObjectTypeAndId::GenericStringObject {
            object_type: GenericStringObjectFormat::Json(JsonObjectType::EnvVarCollection),
            id: SyncId::ServerId("abc".to_string()),
        }
    );
    let plan = open_drive_object(&TargetSelector::empty(), DriveObjectType::Notebook, "n9", &windows()).unwrap();
    assert_eq!(plan.object, DriveOpenAction::OpenNotebook { id: SyncId::ServerId("n9".to_string()) });
    let plan = open_drive_object(&TargetSelector::empty(), DriveObjectType::Workflow, "w9", &windows()).unwrap();
    assert_eq!(
        plan.object,
        DriveOpenAction::ViewObjectInWarpDrive(CloudObjectTypeAndId::Workflow(SyncId::ServerId("w9".to_string())))
    );
}

#[test]
fn share_dialog_needs_a_loaded_object() {
    let model = CloudModel {
        objects: vec![CloudObject {
            uid: "n1".to_string(),
            display_name: "Notes".to_string(),
            object_type: ObjectType::Notebook,
            sync_id: SyncId::ServerId("n1".to_string()),
            model: CloudObjectModel::Opaque,
        }],
    };
    let plan = open_drive_object_share_dialog(&TargetSelector::empty(), "n1", &model, &windows()).unwrap();
    assert_eq!(plan.object, CloudObjectTypeAndId::Notebook(SyncId::ServerId("n1".to_string())));
    let err = open_drive_object_share_dialog(&TargetSelector::empty(), "n2", &model, &windows()).unwrap_err();
    assert_eq!(err.code, ErrorCode::MissingTarget);
    assert_eq!(err.message, "drive.object.share.open requires a loaded Warp Drive object");
}

#[test]
fn workspace_is_the_first_of_the_window() {
    assert_eq!(workspace_for_window(ActionKind::FileOpen, Some(vec![3, 4])).unwrap(), 3);
    let err = workspace_for_window::<u8>(ActionKind::FileOpen, Some(vec![])).unwrap_err();
    assert_eq!(err.code, ErrorCode::MissingTarget);
    assert_eq!(err.message, "file.open requires a workspace in the target window");
    assert!(workspace_for_window::<u8>(ActionKind::ProjectOpen, None).is_err());
}

fn without_workspace() -> WindowSnapshot {
    WindowSnapshot {
        active_window: Some("1".to_string()),
        window_ids: vec!["1".to_string(), "2".to_string()],
        workspace_window_ids: vec!["2".to_string()],
    }
}

#[test]
fn window_actions_need_a_workspace_in_the_window() {
    let params = FileOpenParams { path: "/tmp/a.rs".to_string(), line: None, column: None, new_window: false };
    let err = open_file(&TargetSelector::empty(), params.clone(), &without_workspace()).unwrap_err();
    assert_eq!(err.code, ErrorCode::MissingTarget);
    assert_eq!(err.message, "file.open requires a workspace in the target window");
    let by_id = TargetSelector { window: Some(WindowTarget::Id { id: "2".to_string() }), ..TargetSelector::empty() };
    assert_eq!(open_file(&by_id, params, &without_workspace()).unwrap().window_id, "2");
    let err = open_project(&TargetSelector::empty(), "/repo".to_string(), &without_workspace()).unwrap_err();
    assert_eq!(err.message, "project.open requires a workspace in the target window");
    let err = open_drive_object(&TargetSelector::empty(), DriveObjectType::Workflow, "w", &without_workspace()).unwrap_err();
    assert_eq!(err.message, "drive.open requires a workspace in the target window");
    let empty = CloudModel { objects: vec![] };
    let err = open_drive_object_share_dialog(&TargetSelector::empty(), "missing", &empty, &without_workspace()).unwrap_err();
    assert_eq!(err.code, ErrorCode::MissingTarget);
    assert_eq!(err.message, "drive.object.share.open requires a workspace in the target window");
}
