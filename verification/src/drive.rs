//! Warp Drive handlers of local control: listing, inspecting and opening
//! Drive objects.
use crate::cloud_object::{
    type_and_id_of, CloudModel, CloudObject, CloudObjectModel, CloudObjectTypeAndId,
    GenericStringObjectFormat, JsonObjectType, ObjectType,
};
use crate::protocol::{action_name, ActionKind, ControlError, ErrorCode, TargetSelector, WindowTarget};
use crate::cloud_object::first_with_uid;
use crate::text::{compare_str, concat2, is_blank, lemma_lex_transitive, lemma_lex_trichotomy, lex_lt, owned, trimmed_is_empty, LexOrder};
use crate::windows::{require_workspace, select_window, window_choice, workspace_window_choice, WindowSnapshot};
use crate::cloud_object::{object_type_display, SyncId};
use vstd::prelude::*;

verus! {

/// The Drive object kinds of the control protocol.
#[derive(Clone, Copy, PartialEq, Eq, Structural, Debug)]
pub enum DriveObjectType {
    Workflow,
    Prompt,
    Notebook,
    EnvVarCollection,
    Folder,
    AiFact,
    McpServer,
    McpServerCollection,
    AiRule,
    Space,
    Trash,
}

/// Where a kind is listed: workflows first, trash last.
pub open spec fn rank_of(t: DriveObjectType) -> u8 {
    match t {
        DriveObjectType::Workflow => 0,
        DriveObjectType::Prompt => 1,
        DriveObjectType::Notebook => 2,
        DriveObjectType::EnvVarCollection => 3,
        DriveObjectType::Folder => 4,
        DriveObjectType::AiFact => 5,
        DriveObjectType::McpServer => 6,
        DriveObjectType::McpServerCollection => 7,
        DriveObjectType::AiRule => 8,
        DriveObjectType::Space => 9,
        DriveObjectType::Trash => 10,
    }
}

pub fn drive_object_type_rank(object_type: DriveObjectType) -> (r: u8)
    ensures
        r == rank_of(object_type),
{
    match object_type {
        DriveObjectType::Workflow => 0,
        DriveObjectType::Prompt => 1,
        DriveObjectType::Notebook => 2,
        DriveObjectType::EnvVarCollection => 3,
        DriveObjectType::Folder => 4,
        DriveObjectType::AiFact => 5,
        DriveObjectType::McpServer => 6,
        DriveObjectType::McpServerCollection => 7,
        DriveObjectType::AiRule => 8,
        DriveObjectType::Space => 9,
        DriveObjectType::Trash => 10,
    }
}

/// Distinct kinds have distinct ranks, so the rank orders kinds totally.
pub proof fn lemma_rank_injective(a: DriveObjectType, b: DriveObjectType)
    ensures
        rank_of(a) == rank_of(b) ==> a == b,
{
}

/// The protocol kind of an object, when the protocol can show it: a workflow
/// whose model is an agent-mode workflow is a prompt.
pub open spec fn control_type_of(object: CloudObject) -> Option<DriveObjectType> {
    match object.object_type {
        ObjectType::Workflow => match object.model {
            CloudObjectModel::Workflow { is_agent_mode_workflow, .. } => if is_agent_mode_workflow {
                Some(DriveObjectType::Prompt)
            } else {
                Some(DriveObjectType::Workflow)
            },
            _ => None,
        },
        ObjectType::Notebook => Some(DriveObjectType::Notebook),
        ObjectType::Folder => Some(DriveObjectType::Folder),
        ObjectType::GenericStringObject(GenericStringObjectFormat::Json(j)) => match j {
            JsonObjectType::EnvVarCollection => Some(DriveObjectType::EnvVarCollection),
            JsonObjectType::AIFact => Some(DriveObjectType::AiFact),
            JsonObjectType::MCPServer | JsonObjectType::TemplatableMCPServer => Some(DriveObjectType::McpServer),
            _ => None,
        },
    }
}

pub fn control_drive_object_type(object: &CloudObject) -> (r: Option<DriveObjectType>)
    ensures
        r == control_type_of(*object),
{
    match object.object_type {
        ObjectType::Workflow => match &object.model {
            CloudObjectModel::Workflow { is_agent_mode_workflow, .. } => if *is_agent_mode_workflow {
                Some(DriveObjectType::Prompt)
            } else {
                Some(DriveObjectType::Workflow)
            },
            _ => None,
        },
        ObjectType::Notebook => Some(DriveObjectType::Notebook),
        ObjectType::Folder => Some(DriveObjectType::Folder),
        ObjectType::GenericStringObject(GenericStringObjectFormat::Json(j)) => match j {
            JsonObjectType::EnvVarCollection => Some(DriveObjectType::EnvVarCollection),
            JsonObjectType::AIFact => Some(DriveObjectType::AiFact),
            JsonObjectType::MCPServer | JsonObjectType::TemplatableMCPServer => Some(DriveObjectType::McpServer),
            _ => None,
        },
    }
}

/// One row of a Drive listing.
#[derive(PartialEq, Eq, Debug)]
pub struct DriveObjectSummary {
    pub object_type: DriveObjectType,
    pub id: String,
    pub name: String,
}

impl Clone for DriveObjectSummary {
    fn clone(&self) -> (r: DriveObjectSummary)
        ensures
            r == *self,
    {
        DriveObjectSummary { object_type: self.object_type, id: self.id.clone(), name: self.name.clone() }
    }
}

pub open spec fn summary_of(object: CloudObject) -> Option<DriveObjectSummary> {
    match control_type_of(object) {
        Some(t) => Some(DriveObjectSummary { object_type: t, id: object.uid, name: object.display_name }),
        None => None,
    }
}

/// The listing row of an object: its protocol kind, uid and display name.
pub fn drive_object_summary(object: &CloudObject) -> (r: Option<DriveObjectSummary>)
    ensures
        r == summary_of(*object),
{
    match control_drive_object_type(object) {
        Some(t) => Some(DriveObjectSummary { object_type: t, id: object.uid.clone(), name: object.display_name.clone() }),
        None => None,
    }
}

/// What `drive.inspect` reads of an object's model.
#[derive(PartialEq, Eq, Debug)]
pub enum DriveObjectContent {
    Workflow { data_json: String },
    Notebook { title: String, data: String, ai_document_id: Option<String>, conversation_id: Option<String> },
    EnvVarCollection { string_model_json: String },
    Folder { name: String, is_open: bool, is_warp_pack: bool },
}

pub open spec fn mismatch_message() -> Seq<char> {
    "drive.inspect Drive object type does not match the resolved object"@
}

pub open spec fn unsupported_content_message() -> Seq<char> {
    "drive.inspect content reads are not supported for this Drive object type"@
}

pub fn drive_type_mismatch_error() -> (e: ControlError)
    ensures
        e.is(ErrorCode::TargetStateConflict, mismatch_message()),
{
    ControlError::new(ErrorCode::TargetStateConflict, owned("drive.inspect Drive object type does not match the resolved object"))
}

pub fn drive_unsupported_type_error() -> (e: ControlError)
    ensures
        e.is(ErrorCode::UnsupportedAction, unsupported_content_message()),
{
    ControlError::new(ErrorCode::UnsupportedAction, owned("drive.inspect content reads are not supported for this Drive object type"))
}

/// The content `drive.inspect` returns for an object, or the code of the
/// error it answers: workflows, prompts, notebooks, environment-variable
/// collections and folders have readable content; a model of another kind
/// than the declared type is a conflict; every other kind is unsupported.
pub open spec fn content_of(object: CloudObject) -> Result<DriveObjectContent, ErrorCode> {
    match control_type_of(object) {
        None => Err(ErrorCode::UnsupportedAction),
        Some(t) => match t {
            DriveObjectType::Workflow | DriveObjectType::Prompt => match object.model {
                CloudObjectModel::Workflow { data_json, .. } => Ok(DriveObjectContent::Workflow { data_json }),
                _ => Err(ErrorCode::TargetStateConflict),
            },
            DriveObjectType::Notebook => match object.model {
                CloudObjectModel::Notebook { title, data, ai_document_id, conversation_id } =>
                    Ok(DriveObjectContent::Notebook { title, data, ai_document_id, conversation_id }),
                _ => Err(ErrorCode::TargetStateConflict),
            },
            DriveObjectType::EnvVarCollection => match object.model {
                CloudObjectModel::EnvVarCollection { string_model_json } =>
                    Ok(DriveObjectContent::EnvVarCollection { string_model_json }),
                _ => Err(ErrorCode::TargetStateConflict),
            },
            DriveObjectType::Folder => match object.model {
                CloudObjectModel::Folder { name, is_open, is_warp_pack } =>
                    Ok(DriveObjectContent::Folder { name, is_open, is_warp_pack }),
                _ => Err(ErrorCode::TargetStateConflict),
            },
            _ => Err(ErrorCode::UnsupportedAction),
        },
    }
}

pub open spec fn error_message_of(code: ErrorCode) -> Seq<char> {
    if code == ErrorCode::TargetStateConflict {
        mismatch_message()
    } else {
        unsupported_content_message()
    }
}

fn clone_opt(o: &Option<String>) -> (r: Option<String>)
    ensures
        r == *o,
{
    match o {
        Some(s) => Some(s.clone()),
        None => None,
    }
}

pub fn drive_object_content(object: &CloudObject) -> (r: Result<DriveObjectContent, ControlError>)
    ensures
        match content_of(*object) {
            Ok(c) => r == Ok::<DriveObjectContent, ControlError>(c),
            Err(code) => r matches Err(e) && e.is(code, error_message_of(code)),
        },
{
    let t = match control_drive_object_type(object) {
        Some(t) => t,
        None => return Err(drive_unsupported_type_error()),
    };
    match t {
        DriveObjectType::Workflow | DriveObjectType::Prompt => match &object.model {
            CloudObjectModel::Workflow { data_json, .. } => Ok(DriveObjectContent::Workflow { data_json: data_json.clone() }),
            _ => Err(drive_type_mismatch_error()),
        },
        DriveObjectType::Notebook => match &object.model {
            CloudObjectModel::Notebook { title, data, ai_document_id, conversation_id } => Ok(DriveObjectContent::Notebook {
                title: title.clone(),
                data: data.clone(),
                ai_document_id: clone_opt(ai_document_id),
                conversation_id: clone_opt(conversation_id),
            }),
            _ => Err(drive_type_mismatch_error()),
        },
        DriveObjectType::EnvVarCollection => match &object.model {
            CloudObjectModel::EnvVarCollection { string_model_json } => Ok(DriveObjectContent::EnvVarCollection {
                string_model_json: string_model_json.clone(),
            }),
            _ => Err(drive_type_mismatch_error()),
        },
        DriveObjectType::Folder => match &object.model {
            CloudObjectModel::Folder { name, is_open, is_warp_pack } => Ok(DriveObjectContent::Folder {
                name: name.clone(),
                is_open: *is_open,
                is_warp_pack: *is_warp_pack,
            }),
            _ => Err(drive_type_mismatch_error()),
        },
        _ => Err(drive_unsupported_type_error()),
    }
}

/// The answer to `drive.inspect`.
#[derive(PartialEq, Eq, Debug)]
pub struct DriveInspectResult {
    pub object: DriveObjectSummary,
    pub content: DriveObjectContent,
}

pub open spec fn no_summary_message() -> Seq<char> {
    "drive.inspect does not support this Drive object type"@
}

/// The summary and content of an object; an object without a protocol kind
/// is refused before its content is read.
pub fn drive_object_get_result(object: &CloudObject) -> (r: Result<DriveInspectResult, ControlError>)
    ensures
        match summary_of(*object) {
            None => r matches Err(e) && e.is(ErrorCode::UnsupportedAction, no_summary_message()),
            Some(s) => match content_of(*object) {
                Ok(c) => r == Ok::<DriveInspectResult, ControlError>(DriveInspectResult { object: s, content: c }),
                Err(code) => r matches Err(e) && e.is(code, error_message_of(code)),
            },
        },
{
    let summary = match drive_object_summary(object) {
        Some(s) => s,
        None => {
            return Err(ControlError::new(
                ErrorCode::UnsupportedAction,
                owned("drive.inspect does not support this Drive object type"),
            ));
        },
    };
    let content = drive_object_content(object)?;
    Ok(DriveInspectResult { object: summary, content })
}

pub open spec fn drive_target_denial(target: TargetSelector, action: ActionKind) -> Option<(ErrorCode, Seq<char>)> {
    if target.window is Some || target.tab is Some || target.pane is Some || target.session is Some {
        Some((ErrorCode::InvalidSelector, action_name(action) + " does not accept window, tab, pane, or session selectors"@))
    } else {
        None
    }
}

/// Drive-wide actions take no window, tab, pane or session selector.
pub fn validate_drive_target(target: &TargetSelector, action: ActionKind) -> (r: Result<(), ControlError>)
    ensures
        crate::permissions::outcome_matches(r, drive_target_denial(*target, action)),
{
    if target.window.is_some() || target.tab.is_some() || target.pane.is_some() || target.session.is_some() {
        return Err(ControlError::new(
            ErrorCode::InvalidSelector,
            concat2(action.as_str(), " does not accept window, tab, pane, or session selectors"),
        ));
    }
    Ok(())
}

pub open spec fn drive_open_target_denial(target: TargetSelector, action: ActionKind) -> Option<(ErrorCode, Seq<char>)> {
    if target.tab is Some || target.pane is Some || target.session is Some {
        Some((ErrorCode::InvalidSelector, action_name(action) + " does not accept tab, pane, or session selectors"@))
    } else if target.window matches Some(w) && (w is Index || w is Title) {
        Some((ErrorCode::InvalidSelector, action_name(action) + " only supports active and opaque window id selectors"@))
    } else {
        None
    }
}

/// Open-style Drive actions act on app-wide Drive state: they may name the
/// active window or a window by its opaque id, and nothing finer.
pub fn validate_drive_open_target(target: &TargetSelector, action: ActionKind) -> (r: Result<(), ControlError>)
    ensures
        crate::permissions::outcome_matches(r, drive_open_target_denial(*target, action)),
{
    if target.tab.is_some() || target.pane.is_some() || target.session.is_some() {
        return Err(ControlError::new(
            ErrorCode::InvalidSelector,
            concat2(action.as_str(), " does not accept tab, pane, or session selectors"),
        ));
    }
    let by_index_or_title = match &target.window {
        Some(WindowTarget::Index { .. }) | Some(WindowTarget::Title { .. }) => true,
        _ => false,
    };
    if by_index_or_title {
        return Err(ControlError::new(
            ErrorCode::InvalidSelector,
            concat2(action.as_str(), " only supports active and opaque window id selectors"),
        ));
    }
    Ok(())
}

/// Every target that a drive-wide action accepts, an open-style Drive action
/// accepts too.
pub proof fn lemma_drive_target_accepted_for_open(target: TargetSelector, action: ActionKind)
    ensures
        drive_target_denial(target, action) is None ==> drive_open_target_denial(target, action) is None,
{
}

} // verus!

verus! {

/// The kind and sync id that `id` resolves to for `action`, or why it does
/// not: a blank id is invalid, an unknown one is stale.
pub open spec fn resolution_of(id: Seq<char>, action: ActionKind, model: CloudModel) -> Result<CloudObjectTypeAndId, (ErrorCode, Seq<char>)> {
    if is_blank(id) {
        Err((ErrorCode::InvalidParams, action_name(action) + " requires a non-empty Drive object id"@))
    } else {
        match first_with_uid(model.objects@, id) {
            Some(o) => Ok(type_and_id_of(o.sync_id, o.object_type)),
            None => Err((ErrorCode::StaleTarget, action_name(action) + " could not resolve the requested Drive object id"@)),
        }
    }
}

/// `r` is what `expected` says: the same value, or an error with that code
/// and message.
pub open spec fn result_matches<T>(r: Result<T, ControlError>, expected: Result<T, (ErrorCode, Seq<char>)>) -> bool {
    match r {
        Ok(v) => expected == Ok::<T, (ErrorCode, Seq<char>)>(v),
        Err(e) => expected matches Err(x) && e.is(x.0, x.1),
    }
}

pub fn resolve_cloud_object_type_and_id(id: &str, action: ActionKind, model: &CloudModel) -> (r: Result<CloudObjectTypeAndId, ControlError>)
    ensures
        result_matches(r, resolution_of(id@, action, *model)),
{
    if trimmed_is_empty(id) {
        return Err(ControlError::new(
            ErrorCode::InvalidParams,
            concat2(action.as_str(), " requires a non-empty Drive object id"),
        ));
    }
    match model.get_by_uid(id) {
        Some(object) => Ok(object.cloud_object_type_and_id()),
        None => Err(ControlError::new(
            ErrorCode::StaleTarget,
            concat2(action.as_str(), " could not resolve the requested Drive object id"),
        )),
    }
}

/// The sync id of the object `id` names, which must be of type `expected`.
pub open spec fn typed_resolution_of(id: Seq<char>, expected: ObjectType, action: ActionKind, model: CloudModel) -> Result<SyncId, (ErrorCode, Seq<char>)> {
    match resolution_of(id, action, model) {
        Err(x) => Err(x),
        Ok(t) => if t.kind() != expected {
            Err((ErrorCode::TargetStateConflict,
                action_name(action) + " can only open Drive objects of type "@ + object_type_display(expected)))
        } else {
            Ok(t.id())
        },
    }
}

pub fn resolve_typed_drive_sync_id(id: &str, expected: ObjectType, action: ActionKind, model: &CloudModel) -> (r: Result<SyncId, ControlError>)
    ensures
        result_matches(r, typed_resolution_of(id@, expected, action, *model)),
{
    let object_type_and_id = resolve_cloud_object_type_and_id(id, action, model)?;
    if object_type_and_id.object_type() != expected {
        let mut message = concat2(action.as_str(), " can only open Drive objects of type ");
        message.append(expected.display_name());
        return Err(ControlError::new(ErrorCode::TargetStateConflict, message));
    }
    Ok(object_type_and_id.sync_id())
}

/// The window a Drive open action targets: the active one unless the
/// target names a window by id.
pub fn select_window_for_drive_open(action: ActionKind, target: &TargetSelector, windows: &WindowSnapshot) -> (r: Result<String, ControlError>)
    ensures
        crate::windows::result_matches_view(r, window_choice(action, target.window, *windows)),
{
    select_window(action, target, windows)
}

pub open spec fn type_label_of(t: CloudObjectTypeAndId) -> Seq<char> {
    match t {
        CloudObjectTypeAndId::Notebook(_) => "notebook"@,
        CloudObjectTypeAndId::Workflow(_) => "workflow"@,
        CloudObjectTypeAndId::Folder(_) => "folder"@,
        CloudObjectTypeAndId::GenericStringObject { object_type: GenericStringObjectFormat::Json(j), .. } => match j {
            JsonObjectType::EnvVarCollection => "env_var_collection"@,
            JsonObjectType::AIFact => "ai_fact"@,
            JsonObjectType::MCPServer | JsonObjectType::TemplatableMCPServer => "mcp_server"@,
            _ => "generic_string_object"@,
        },
    }
}

/// The label under which an opened object's type is reported.
pub fn cloud_object_type_label(object_type_and_id: &CloudObjectTypeAndId) -> (s: &'static str)
    ensures
        s@ == type_label_of(*object_type_and_id),
{
    match object_type_and_id {
        CloudObjectTypeAndId::Notebook(_) => "notebook",
        CloudObjectTypeAndId::Workflow(_) => "workflow",
        CloudObjectTypeAndId::Folder(_) => "folder",
        CloudObjectTypeAndId::GenericStringObject { object_type: GenericStringObjectFormat::Json(j), .. } => match j {
            JsonObjectType::EnvVarCollection => "env_var_collection",
            JsonObjectType::AIFact => "ai_fact",
            JsonObjectType::MCPServer | JsonObjectType::TemplatableMCPServer => "mcp_server",
            _ => "generic_string_object",
        },
    }
}

/// What a Drive open action opens, and in which window.
#[derive(PartialEq, Eq, Debug)]
pub struct DriveOpenPlan<T> {
    pub object: T,
    pub window_id: String,
}

/// The plan an open action follows: the target is checked first, then the
/// object, then the window and its workspace.
pub open spec fn open_plan_of<T>(target_denial: Option<(ErrorCode, Seq<char>)>, object: Result<T, (ErrorCode, Seq<char>)>, window: Result<Seq<char>, (ErrorCode, Seq<char>)>, r: Result<DriveOpenPlan<T>, ControlError>) -> bool {
    match target_denial {
        Some(x) => r matches Err(e) && e.is(x.0, x.1),
        None => match object {
            Err(x) => r matches Err(e) && e.is(x.0, x.1),
            Ok(o) => match window {
                Err(x) => r matches Err(e) && e.is(x.0, x.1),
                Ok(w) => r matches Ok(p) && p.object == o && p.window_id@ == w,
            },
        },
    }
}

fn plan_open<T>(action: ActionKind, target: &TargetSelector, object: T, windows: &WindowSnapshot) -> (r: Result<DriveOpenPlan<T>, ControlError>)
    ensures
        match workspace_window_choice(action, target.window, *windows) {
            Err(x) => r matches Err(e) && e.is(x.0, x.1),
            Ok(w) => r matches Ok(p) && p.object == object && p.window_id@ == w,
        },
{
    let window_id = select_window_for_drive_open(action, target, windows)?;
    require_workspace(action, window_id.as_str(), windows)?;
    Ok(DriveOpenPlan { object, window_id })
}

/// `drive.open`: reveal an object in the Warp Drive panel.
pub fn drive_open(target: &TargetSelector, id: &str, model: &CloudModel, windows: &WindowSnapshot) -> (r: Result<DriveOpenPlan<CloudObjectTypeAndId>, ControlError>)
    ensures
        open_plan_of(
            drive_open_target_denial(*target, ActionKind::DriveOpen),
            resolution_of(id@, ActionKind::DriveOpen, *model),
            workspace_window_choice(ActionKind::DriveOpen, target.window, *windows),
            r,
        ),
{
    validate_drive_open_target(target, ActionKind::DriveOpen)?;
    let object = resolve_cloud_object_type_and_id(id, ActionKind::DriveOpen, model)?;
    plan_open(ActionKind::DriveOpen, target, object, windows)
}

/// `drive.object.share.open`: open the sharing dialog of an object.
pub fn drive_object_share_open(target: &TargetSelector, id: &str, model: &CloudModel, windows: &WindowSnapshot) -> (r: Result<DriveOpenPlan<CloudObjectTypeAndId>, ControlError>)
    ensures
        open_plan_of(
            drive_open_target_denial(*target, ActionKind::DriveObjectShareOpen),
            resolution_of(id@, ActionKind::DriveObjectShareOpen, *model),
            workspace_window_choice(ActionKind::DriveObjectShareOpen, target.window, *windows),
            r,
        ),
{
    validate_drive_open_target(target, ActionKind::DriveObjectShareOpen)?;
    let object = resolve_cloud_object_type_and_id(id, ActionKind::DriveObjectShareOpen, model)?;
    plan_open(ActionKind::DriveObjectShareOpen, target, object, windows)
}

/// `drive.notebook.open`: open a notebook, which the id must name.
pub fn drive_notebook_open(target: &TargetSelector, id: &str, model: &CloudModel, windows: &WindowSnapshot) -> (r: Result<DriveOpenPlan<SyncId>, ControlError>)
    ensures
        open_plan_of(
            drive_open_target_denial(*target, ActionKind::DriveNotebookOpen),
            typed_resolution_of(id@, ObjectType::Notebook, ActionKind::DriveNotebookOpen, *model),
            workspace_window_choice(ActionKind::DriveNotebookOpen, target.window, *windows),
            r,
        ),
{
    validate_drive_open_target(target, ActionKind::DriveNotebookOpen)?;
    let sync_id = resolve_typed_drive_sync_id(id, ObjectType::Notebook, ActionKind::DriveNotebookOpen, model)?;
    plan_open(ActionKind::DriveNotebookOpen, target, sync_id, windows)
}

pub open spec fn env_var_collection_type() -> ObjectType {
    ObjectType::GenericStringObject(GenericStringObjectFormat::Json(JsonObjectType::EnvVarCollection))
}

/// `drive.env-var-collection.open`: open an environment-variable collection,
/// which the id must name.
pub fn drive_env_var_collection_open(target: &TargetSelector, id: &str, model: &CloudModel, windows: &WindowSnapshot) -> (r: Result<DriveOpenPlan<SyncId>, ControlError>)
    ensures
        open_plan_of(
            drive_open_target_denial(*target, ActionKind::DriveEnvVarCollectionOpen),
            typed_resolution_of(id@, env_var_collection_type(), ActionKind::DriveEnvVarCollectionOpen, *model),
            workspace_window_choice(ActionKind::DriveEnvVarCollectionOpen, target.window, *windows),
            r,
        ),
{
    validate_drive_open_target(target, ActionKind::DriveEnvVarCollectionOpen)?;
    let t = ObjectType::GenericStringObject(GenericStringObjectFormat::Json(JsonObjectType::EnvVarCollection));
    let sync_id = resolve_typed_drive_sync_id(id, t, ActionKind::DriveEnvVarCollectionOpen, model)?;
    plan_open(ActionKind::DriveEnvVarCollectionOpen, target, sync_id, windows)
}

/// `drive.inspect`: the summary and content of the object `id` names.
pub fn drive_inspect(target: &TargetSelector, id: &str, model: &CloudModel) -> (r: Result<DriveInspectResult, ControlError>)
    ensures
        match drive_target_denial(*target, ActionKind::DriveInspect) {
            Some(x) => r matches Err(e) && e.is(x.0, x.1),
            None => match first_with_uid(model.objects@, id@) {
                None => r matches Err(e) && e.is(ErrorCode::StaleTarget, "drive.inspect could not resolve the requested Drive object id"@),
                Some(o) => match summary_of(o) {
                    None => r matches Err(e) && e.is(ErrorCode::UnsupportedAction, no_summary_message()),
                    Some(s) => match content_of(o) {
                        Ok(c) => r == Ok::<DriveInspectResult, ControlError>(DriveInspectResult { object: s, content: c }),
                        Err(code) => r matches Err(e) && e.is(code, error_message_of(code)),
                    },
                },
            },
        },
{
    validate_drive_target(target, ActionKind::DriveInspect)?;
    let object = match model.get_by_uid(id) {
        Some(o) => o,
        None => {
            return Err(ControlError::new(
                ErrorCode::StaleTarget,
                owned("drive.inspect could not resolve the requested Drive object id"),
            ));
        },
    };
    drive_object_get_result(object)
}

} // verus!

verus! {

/// The listing order: by kind rank, then by name, then by id.
pub open spec fn listed_before_or_same(a: DriveObjectSummary, b: DriveObjectSummary) -> bool {
    ||| rank_of(a.object_type) < rank_of(b.object_type)
    ||| rank_of(a.object_type) == rank_of(b.object_type) && lex_lt(a.name@, b.name@)
    ||| rank_of(a.object_type) == rank_of(b.object_type) && a.name@ == b.name@ && lex_lt(a.id@, b.id@)
    ||| rank_of(a.object_type) == rank_of(b.object_type) && a.name@ == b.name@ && a.id@ == b.id@
}

pub open spec fn sorted_for_listing(s: Seq<DriveObjectSummary>) -> bool {
    forall|i: int, j: int| 0 <= i < j < s.len() ==> listed_before_or_same(#[trigger] s[i], #[trigger] s[j])
}

/// Any two summaries are ordered one way or the other.
pub proof fn lemma_listing_order_total(a: DriveObjectSummary, b: DriveObjectSummary)
    ensures
        listed_before_or_same(a, b) || listed_before_or_same(b, a),
{
    lemma_lex_trichotomy(a.name@, b.name@);
    lemma_lex_trichotomy(a.id@, b.id@);
}

/// The listing order is transitive.
pub proof fn lemma_listing_order_transitive(a: DriveObjectSummary, b: DriveObjectSummary, c: DriveObjectSummary)
    requires
        listed_before_or_same(a, b),
        listed_before_or_same(b, c),
    ensures
        listed_before_or_same(a, c),
{
    if lex_lt(a.name@, b.name@) && lex_lt(b.name@, c.name@) {
        lemma_lex_transitive(a.name@, b.name@, c.name@);
    }
    if lex_lt(a.id@, b.id@) && lex_lt(b.id@, c.id@) {
        lemma_lex_transitive(a.id@, b.id@, c.id@);
    }
}

fn listed_before_or_same_exec(a: &DriveObjectSummary, b: &DriveObjectSummary) -> (r: bool)
    ensures
        r == listed_before_or_same(*a, *b),
{
    let ra = drive_object_type_rank(a.object_type);
    let rb = drive_object_type_rank(b.object_type);
    if ra != rb {
        return ra < rb;
    }
    match compare_str(a.name.as_str(), b.name.as_str()) {
        LexOrder::Less => true,
        LexOrder::Greater => {
            proof {
                lemma_lex_trichotomy(a.name@, b.name@);
            }
            false
        },
        LexOrder::Equal => match compare_str(a.id.as_str(), b.id.as_str()) {
            LexOrder::Greater => {
                proof {
                    lemma_lex_trichotomy(a.id@, b.id@);
                }
                false
            },
            _ => true,
        },
    }
}

/// Inserting an item anywhere adds it once to the multiset of items.
pub(crate) proof fn lemma_insert_to_multiset<A>(s: Seq<A>, p: int, x: A)
    requires
        0 <= p <= s.len(),
    ensures
        s.insert(p, x).to_multiset() =~= s.to_multiset().insert(x),
{
    let t = s.insert(p, x);
    s.insert_ensures(p, x);
    assert(t.remove(p) =~= s);
    t.to_multiset_ensures();
    assert(t.contains(x)) by {
        assert(t[p] == x);
    }
}

proof fn lemma_insert_keeps_sorted(s: Seq<DriveObjectSummary>, p: int, x: DriveObjectSummary)
    requires
        0 <= p <= s.len(),
        sorted_for_listing(s),
        forall|j: int| 0 <= j < p ==> !listed_before_or_same(x, #[trigger] s[j]),
        p < s.len() ==> listed_before_or_same(x, s[p]),
    ensures
        sorted_for_listing(s.insert(p, x)),
{
    let t = s.insert(p, x);
    s.insert_ensures(p, x);
    assert forall|i: int, j: int| 0 <= i < j < t.len() implies listed_before_or_same(#[trigger] t[i], #[trigger] t[j]) by {
        if i < p && j < p {
        } else if i < p && j == p {
            lemma_listing_order_total(x, s[i]);
        } else if i < p && j > p {
            assert(t[j] == s[j - 1]);
        } else if i == p {
            assert(t[j] == s[j - 1]);
            if j - 1 > p {
                lemma_listing_order_transitive(x, s[p], s[j - 1]);
            }
        } else {
            assert(t[i] == s[i - 1] && t[j] == s[j - 1]);
        }
    }
}

/// Sorts listing rows into listing order.
fn sort_for_listing(v: Vec<DriveObjectSummary>) -> (r: Vec<DriveObjectSummary>)
    ensures
        sorted_for_listing(r@),
        r@.to_multiset() == v@.to_multiset(),
{
    let ghost original = v@;
    let mut rest = v;
    let mut out: Vec<DriveObjectSummary> = Vec::new();
    proof {
        out@.to_multiset_ensures();
        assert(out@.to_multiset() =~= vstd::multiset::Multiset::empty());
    }
    while rest.len() > 0
        invariant
            sorted_for_listing(out@),
            out@.to_multiset().add(rest@.to_multiset()) =~= original.to_multiset(),
        decreases rest@.len(),
    {
        let ghost before_rest = rest@;
        let x = rest.pop().unwrap();
        proof {
            assert(before_rest =~= rest@.push(x));
            rest@.to_multiset_ensures();
        }
        let mut p: usize = 0;
        while p < out.len() && !listed_before_or_same_exec(&x, &out[p])
            invariant
                p <= out@.len(),
                forall|j: int| 0 <= j < p ==> !listed_before_or_same(x, #[trigger] out@[j]),
            decreases out@.len() - p,
        {
            p = p + 1;
        }
        proof {
            lemma_insert_keeps_sorted(out@, p as int, x);
            lemma_insert_to_multiset(out@, p as int, x);
        }
        out.insert(p, x);
    }
    proof {
        rest@.to_multiset_ensures();
        assert(rest@.to_multiset() =~= vstd::multiset::Multiset::empty());
    }
    out
}

/// The rows a listing shows, in model order: objects with a protocol kind,
/// of the requested kind when one is requested.
pub open spec fn listed(objects: Seq<CloudObject>, filter: Option<DriveObjectType>) -> Seq<DriveObjectSummary>
    decreases objects.len(),
{
    if objects.len() == 0 {
        Seq::empty()
    } else {
        let rest = listed(objects.drop_last(), filter);
        match summary_of(objects.last()) {
            Some(s) => if filter is None || filter == Some(s.object_type) {
                rest.push(s)
            } else {
                rest
            },
            None => rest,
        }
    }
}

/// `drive.list`: every Drive object the protocol can show, optionally only
/// those of one kind, in listing order.
pub fn drive_list(target: &TargetSelector, object_type: Option<DriveObjectType>, model: &CloudModel) -> (r: Result<Vec<DriveObjectSummary>, ControlError>)
    ensures
        match drive_target_denial(*target, ActionKind::DriveList) {
            Some(x) => r matches Err(e) && e.is(x.0, x.1),
            None => r matches Ok(v) && sorted_for_listing(v@)
                && v@.to_multiset() == listed(model.objects@, object_type).to_multiset(),
        },
{
    validate_drive_target(target, ActionKind::DriveList)?;
    let mut rows: Vec<DriveObjectSummary> = Vec::new();
    let mut i: usize = 0;
    while i < model.objects.len()
        invariant
            i <= model.objects@.len(),
            rows@ == listed(model.objects@.take(i as int), object_type),
        decreases model.objects@.len() - i,
    {
        proof {
            assert(model.objects@.take(i + 1).drop_last() =~= model.objects@.take(i as int));
            assert(model.objects@.take(i + 1).last() == model.objects@[i as int]);
        }
        match drive_object_summary(&model.objects[i]) {
            Some(summary) => {
                let keep = match object_type {
                    None => true,
                    Some(t) => summary.object_type == t,
                };
                if keep {
                    rows.push(summary);
                }
            },
            None => {},
        }
        i = i + 1;
    }
    assert(model.objects@.take(model.objects@.len() as int) =~= model.objects@);
    Ok(sort_for_listing(rows))
}

} // verus!

verus! {

/// An object that the Drive panel labels as an MCP server, plain or
/// templatable, has the protocol kind `mcp_server` and is listed under its
/// uid and name.
pub proof fn lemma_mcp_servers_are_listed(object: CloudObject)
    requires
        type_label_of(type_and_id_of(object.sync_id, object.object_type)) == "mcp_server"@,
    ensures
        control_type_of(object) == Some(DriveObjectType::McpServer),
        summary_of(object) == Some(DriveObjectSummary {
            object_type: DriveObjectType::McpServer,
            id: object.uid,
            name: object.display_name,
        }),
{
    reveal_strlit("mcp_server");
    reveal_strlit("notebook");
    reveal_strlit("workflow");
    reveal_strlit("folder");
    reveal_strlit("env_var_collection");
    reveal_strlit("ai_fact");
    reveal_strlit("generic_string_object");
    let label = type_label_of(type_and_id_of(object.sync_id, object.object_type));
    assert(label[0] == 'm');
    assert(label[1] == 'c');
}

/// Every object with a protocol kind appears in the unfiltered listing.
pub proof fn lemma_listed_contains(objects: Seq<CloudObject>, i: int)
    requires
        0 <= i < objects.len(),
        summary_of(objects[i]) is Some,
    ensures
        listed(objects, None).contains(summary_of(objects[i]).unwrap()),
    decreases objects.len(),
{
    let rest = listed(objects.drop_last(), None);
    if i == objects.len() - 1 {
        let s = summary_of(objects.last()).unwrap();
        assert(listed(objects, None) == rest.push(s));
        assert(rest.push(s)[rest.len() as int] == s);
    } else {
        lemma_listed_contains(objects.drop_last(), i);
        assert(objects.drop_last()[i] == objects[i]);
        let s = summary_of(objects[i]).unwrap();
        let j = choose|j: int| 0 <= j < rest.len() && rest[j] == s;
        match summary_of(objects.last()) {
            Some(t) => {
                assert(listed(objects, None) == rest.push(t));
                assert(rest.push(t)[j] == s);
            },
            None => {},
        }
    }
}

/// Content can be read for workflows and prompts, notebooks,
/// environment-variable collections and folders, each from its own model;
/// any other JSON object is refused as unsupported, and nothing else has
/// readable content.
pub proof fn lemma_readable_content_kinds(object: CloudObject)
    ensures
        object.model matches CloudObjectModel::Workflow { data_json, .. } ==> (object.object_type == ObjectType::Workflow
            ==> content_of(object) == Ok::<DriveObjectContent, ErrorCode>(DriveObjectContent::Workflow { data_json })),
        object.model matches CloudObjectModel::Notebook { title, data, ai_document_id, conversation_id }
            ==> (object.object_type == ObjectType::Notebook ==> content_of(object) == Ok::<DriveObjectContent, ErrorCode>(
                DriveObjectContent::Notebook { title, data, ai_document_id, conversation_id },
            )),
        object.model matches CloudObjectModel::EnvVarCollection { string_model_json }
            ==> (object.object_type == ObjectType::GenericStringObject(GenericStringObjectFormat::Json(JsonObjectType::EnvVarCollection))
                ==> content_of(object) == Ok::<DriveObjectContent, ErrorCode>(DriveObjectContent::EnvVarCollection { string_model_json })),
        object.model matches CloudObjectModel::Folder { name, is_open, is_warp_pack } ==> (object.object_type == ObjectType::Folder
            ==> content_of(object) == Ok::<DriveObjectContent, ErrorCode>(DriveObjectContent::Folder { name, is_open, is_warp_pack })),
        object.object_type is GenericStringObject
            && object.object_type != ObjectType::GenericStringObject(GenericStringObjectFormat::Json(JsonObjectType::EnvVarCollection))
            ==> content_of(object) == Err::<DriveObjectContent, ErrorCode>(ErrorCode::UnsupportedAction),
        content_of(object) is Ok ==> object.object_type == ObjectType::Workflow || object.object_type == ObjectType::Notebook
            || object.object_type == ObjectType::Folder
            || object.object_type == ObjectType::GenericStringObject(GenericStringObjectFormat::Json(JsonObjectType::EnvVarCollection)),
{
}

} // verus!
