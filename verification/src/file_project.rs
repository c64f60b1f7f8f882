//! App-state handlers of local control: opening files, projects and Warp
//! Drive objects in a window.
use crate::cloud_object::{
    first_with_uid, type_and_id_of, CloudModel, CloudObjectTypeAndId, GenericStringObjectFormat,
    JsonObjectType, ObjectType, SyncId,
};
use crate::drive::DriveOpenPlan;
use crate::protocol::{action_name, ActionKind, ControlError, ErrorCode, TargetSelector};
use crate::text::{concat2, owned};
use crate::windows::{select_workspace_window, workspace_window_choice, WindowSnapshot};
use vstd::prelude::*;

verus! {

/// The Drive object kinds that `drive.open` by kind accepts.
#[derive(Clone, Copy, PartialEq, Eq, Structural, Debug)]
pub enum DriveObjectType {
    Notebook,
    Workflow,
    Environment,
    Prompt,
}

/// A 1-based position in a file to open at.
#[derive(Clone, Copy, PartialEq, Eq, Structural, Debug)]
pub struct LineAndColumnArg {
    pub line_num: usize,
    pub column_num: Option<usize>,
}

/// The position `file.open` opens at: none without a line; a column only
/// together with a line.
pub fn line_and_column(line: Option<u32>, column: Option<u32>) -> (r: Result<Option<LineAndColumnArg>, ControlError>)
    ensures
        match line {
            None => r matches Ok(None),
            Some(l) => r matches Ok(Some(p)) && p.line_num == l && match column {
                None => p.column_num is None,
                Some(c) => p.column_num == Some(c as usize),
            },
        },
{
    match line {
        None => Ok(None),
        Some(l) => {
            let column_num = match column {
                Some(c) => Some(c as usize),
                None => None,
            };
            Ok(Some(LineAndColumnArg { line_num: l as usize, column_num }))
        },
    }
}

pub open spec fn window_scoped_denial(action: ActionKind, target: TargetSelector) -> Option<(ErrorCode, Seq<char>)> {
    if target.tab is Some || target.pane is Some || target.session is Some || target.block is Some
        || target.file is Some || target.drive is Some {
        Some((ErrorCode::InvalidSelector, action_name(action) + " only accepts instance and window selectors"@))
    } else {
        None
    }
}

/// Window-scoped actions accept instance and window selectors only.
pub fn validate_window_scoped_target(action: ActionKind, target: &TargetSelector) -> (r: Result<(), ControlError>)
    ensures
        crate::permissions::outcome_matches(r, window_scoped_denial(action, *target)),
{
    if target.tab.is_some() || target.pane.is_some() || target.session.is_some() || target.block.is_some()
        || target.file.is_some() || target.drive.is_some() {
        return Err(ControlError::new(
            ErrorCode::InvalidSelector,
            concat2(action.as_str(), " only accepts instance and window selectors"),
        ));
    }
    Ok(())
}

pub open spec fn server_sync_id(id: Seq<char>, s: SyncId) -> bool {
    s matches SyncId::ServerId(v) && v@ == id
}

/// The object a `drive.open` by kind names: prompts are workflows, and an
/// environment is an environment-variable collection.
pub open spec fn named_object(object_type: DriveObjectType, t: CloudObjectTypeAndId, id: Seq<char>) -> bool {
    server_sync_id(id, t.id()) && t.kind() == match object_type {
        DriveObjectType::Workflow | DriveObjectType::Prompt => ObjectType::Workflow,
        DriveObjectType::Notebook => ObjectType::Notebook,
        DriveObjectType::Environment => ObjectType::GenericStringObject(GenericStringObjectFormat::Json(JsonObjectType::EnvVarCollection)),
    }
}

/// The object a `drive.open` by kind names. The id is used as the object's
/// server id exactly as written: server ids here are plain strings, so
/// reading one from text keeps the text.
pub fn drive_object_type_and_id(object_type: DriveObjectType, id: &str) -> (r: CloudObjectTypeAndId)
    ensures
        named_object(object_type, r, id@),
{
    let sync_id = SyncId::ServerId(owned(id));
    match object_type {
        DriveObjectType::Workflow | DriveObjectType::Prompt => CloudObjectTypeAndId::Workflow(sync_id),
        DriveObjectType::Notebook => CloudObjectTypeAndId::from_id_and_type(sync_id, ObjectType::Notebook),
        DriveObjectType::Environment => CloudObjectTypeAndId::from_generic_string_object(
            GenericStringObjectFormat::Json(JsonObjectType::EnvVarCollection),
            sync_id,
        ),
    }
}

/// The parameters of `file.open`.
#[derive(Clone, PartialEq, Eq, Debug)]
pub struct FileOpenParams {
    pub path: String,
    pub line: Option<u32>,
    pub column: Option<u32>,
    pub new_window: bool,
}

/// Where and how a file opens: in a new tab of `window_id`.
#[derive(Clone, PartialEq, Eq, Debug)]
pub struct FileOpenPlan {
    pub window_id: String,
    pub path: String,
    pub line_and_column: Option<LineAndColumnArg>,
}

/// `file.open`: the target is checked, then the new-window flag, then the
/// window is chosen, which must hold a workspace.
pub fn open_file(target: &TargetSelector, params: FileOpenParams, windows: &WindowSnapshot) -> (r: Result<FileOpenPlan, ControlError>)
    ensures
        match window_scoped_denial(ActionKind::FileOpen, *target) {
            Some(x) => r matches Err(e) && e.is(x.0, x.1),
            None => if params.new_window {
                r matches Err(e) && e.is(ErrorCode::InvalidParams, "file.open --new-window is not implemented in this stack layer"@)
            } else {
                match workspace_window_choice(ActionKind::FileOpen, target.window, *windows) {
                    Err(x) => r matches Err(e) && e.is(x.0, x.1),
                    Ok(w) => r matches Ok(p) && p.window_id@ == w && p.path == params.path
                        && match params.line {
                            None => p.line_and_column is None,
                            Some(l) => p.line_and_column matches Some(lc) && lc.line_num == l && match params.column {
                                None => lc.column_num is None,
                                Some(c) => lc.column_num == Some(c as usize),
                            },
                        },
                }
            },
        },
{
    validate_window_scoped_target(ActionKind::FileOpen, target)?;
    if params.new_window {
        return Err(ControlError::new(
            ErrorCode::InvalidParams,
            owned("file.open --new-window is not implemented in this stack layer"),
        ));
    }
    let window_id = select_workspace_window(ActionKind::FileOpen, target, windows)?;
    let line_and_column = line_and_column(params.line, params.column)?;
    Ok(FileOpenPlan { window_id, path: params.path, line_and_column })
}

/// Which window a project opens in.
#[derive(Clone, PartialEq, Eq, Debug)]
pub struct ProjectOpenPlan {
    pub window_id: String,
    pub path: String,
}

/// `project.open`.
pub fn open_project(target: &TargetSelector, path: String, windows: &WindowSnapshot) -> (r: Result<ProjectOpenPlan, ControlError>)
    ensures
        match window_scoped_denial(ActionKind::ProjectOpen, *target) {
            Some(x) => r matches Err(e) && e.is(x.0, x.1),
            None => match workspace_window_choice(ActionKind::ProjectOpen, target.window, *windows) {
                Err(x) => r matches Err(e) && e.is(x.0, x.1),
                Ok(w) => r matches Ok(p) && p.window_id@ == w && p.path == path,
            },
        },
{
    validate_window_scoped_target(ActionKind::ProjectOpen, target)?;
    let window_id = select_workspace_window(ActionKind::ProjectOpen, target, windows)?;
    Ok(ProjectOpenPlan { window_id, path })
}

/// What opening a Drive object does: notebooks open in a pane, every other
/// kind is revealed in the Warp Drive panel.
#[derive(Clone, PartialEq, Eq, Debug)]
pub enum DriveOpenAction {
    OpenNotebook { id: SyncId },
    ViewObjectInWarpDrive(CloudObjectTypeAndId),
}

/// `drive.open` by kind and id.
pub fn open_drive_object(target: &TargetSelector, object_type: DriveObjectType, id: &str, windows: &WindowSnapshot) -> (r: Result<DriveOpenPlan<DriveOpenAction>, ControlError>)
    ensures
        match window_scoped_denial(ActionKind::DriveOpen, *target) {
            Some(x) => r matches Err(e) && e.is(x.0, x.1),
            None => match workspace_window_choice(ActionKind::DriveOpen, target.window, *windows) {
                Err(x) => r matches Err(e) && e.is(x.0, x.1),
                Ok(w) => r matches Ok(p) && p.window_id@ == w && match object_type {
                    DriveObjectType::Notebook => p.object matches DriveOpenAction::OpenNotebook { id: s } && server_sync_id(id@, s),
                    _ => p.object matches DriveOpenAction::ViewObjectInWarpDrive(t) && named_object(object_type, t, id@),
                },
            },
        },
{
    validate_window_scoped_target(ActionKind::DriveOpen, target)?;
    let window_id = select_workspace_window(ActionKind::DriveOpen, target, windows)?;
    let object_id = drive_object_type_and_id(object_type, id);
    let action = match object_type {
        DriveObjectType::Notebook => DriveOpenAction::OpenNotebook { id: object_id.sync_id() },
        _ => DriveOpenAction::ViewObjectInWarpDrive(object_id),
    };
    Ok(DriveOpenPlan { object: action, window_id })
}

/// `drive.object.share.open` by id: the object must be loaded. The id is
/// read as a server id, whose uid is the id's own text, so the object is the
/// first loaded one with that uid.
pub fn open_drive_object_share_dialog(target: &TargetSelector, id: &str, model: &CloudModel, windows: &WindowSnapshot) -> (r: Result<DriveOpenPlan<CloudObjectTypeAndId>, ControlError>)
    ensures
        match window_scoped_denial(ActionKind::DriveObjectShareOpen, *target) {
            Some(x) => r matches Err(e) && e.is(x.0, x.1),
            None => match workspace_window_choice(ActionKind::DriveObjectShareOpen, target.window, *windows) {
                Err(x) => r matches Err(e) && e.is(x.0, x.1),
                Ok(w) => match first_with_uid(model.objects@, id@) {
                    None => r matches Err(e) && e.is(ErrorCode::MissingTarget, "drive.object.share.open requires a loaded Warp Drive object"@),
                    Some(o) => r matches Ok(p) && p.window_id@ == w && p.object == type_and_id_of(o.sync_id, o.object_type),
                },
            },
        },
{
    validate_window_scoped_target(ActionKind::DriveObjectShareOpen, target)?;
    let window_id = select_workspace_window(ActionKind::DriveObjectShareOpen, target, windows)?;
    let object = match model.get_by_uid(id) {
        Some(o) => o.cloud_object_type_and_id(),
        None => {
            return Err(ControlError::new(
                ErrorCode::MissingTarget,
                owned("drive.object.share.open requires a loaded Warp Drive object"),
            ));
        },
    };
    Ok(DriveOpenPlan { object, window_id })
}

} // verus!
