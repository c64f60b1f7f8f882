//! Choosing the window and workspace that a window-scoped action acts on.
use crate::protocol::{action_name, ActionKind, ControlError, ErrorCode, TargetSelector, WindowTarget};
use crate::text::{concat2, str_eq};
use vstd::prelude::*;

verus! {

/// The app's windows, each named by the opaque id string it is addressed by.
#[derive(Clone, PartialEq, Eq, Debug)]
pub struct WindowSnapshot {
    pub active_window: Option<String>,
    pub window_ids: Vec<String>,
    /// The windows that hold a workspace view.
    pub workspace_window_ids: Vec<String>,
}

/// Whether window `w` holds a workspace.
pub open spec fn has_workspace(windows: WindowSnapshot, w: Seq<char>) -> bool {
    exists|i: int| 0 <= i < windows.workspace_window_ids@.len() && (#[trigger] windows.workspace_window_ids@[i])@ == w
}

/// The window an action that works through the window's workspace resolves
/// to: the chosen window, which must hold a workspace.
pub open spec fn workspace_window_choice(action: ActionKind, window: Option<WindowTarget>, windows: WindowSnapshot) -> Result<Seq<char>, (ErrorCode, Seq<char>)> {
    match window_choice(action, window, windows) {
        Err(x) => Err(x),
        Ok(w) => if has_workspace(windows, w) {
            Ok(w)
        } else {
            Err((ErrorCode::MissingTarget, action_name(action) + " requires a workspace in the target window"@))
        },
    }
}

/// The window a window-scoped action resolves to, or why it does not.
pub open spec fn window_choice(action: ActionKind, window: Option<WindowTarget>, windows: WindowSnapshot) -> Result<Seq<char>, (ErrorCode, Seq<char>)> {
    match window {
        None | Some(WindowTarget::Active) => match windows.active_window {
            Some(w) => Ok(w@),
            None => Err((ErrorCode::MissingTarget, action_name(action) + " requires an active Warp window"@)),
        },
        Some(WindowTarget::Id { id }) => if exists|i: int| 0 <= i < windows.window_ids@.len() && (#[trigger] windows.window_ids@[i])@ == id@ {
            Ok(id@)
        } else {
            Err((ErrorCode::StaleTarget, action_name(action) + " cannot resolve the requested window id"@))
        },
        Some(_) => Err((ErrorCode::InvalidSelector, action_name(action) + " only supports active and opaque window id selectors"@)),
    }
}

/// `r` carries what `expected` says: the value's view, or the code and message.
pub open spec fn result_matches_view(r: Result<String, ControlError>, expected: Result<Seq<char>, (ErrorCode, Seq<char>)>) -> bool {
    match r {
        Ok(w) => expected matches Ok(v) && w@ == v,
        Err(e) => expected matches Err(x) && e.is(x.0, x.1),
    }
}

/// The window that `target` names: the active window when it names none.
pub fn select_window(action: ActionKind, target: &TargetSelector, windows: &WindowSnapshot) -> (r: Result<String, ControlError>)
    ensures
        result_matches_view(r, window_choice(action, target.window, *windows)),
{
    match &target.window {
        None | Some(WindowTarget::Active) => match &windows.active_window {
            Some(w) => Ok(w.clone()),
            None => Err(ControlError::new(
                ErrorCode::MissingTarget,
                concat2(action.as_str(), " requires an active Warp window"),
            )),
        },
        Some(WindowTarget::Id { id }) => {
            let mut i: usize = 0;
            while i < windows.window_ids.len()
                invariant
                    target.window == Some(WindowTarget::Id { id: *id }),
                    i <= windows.window_ids@.len(),
                    forall|j: int| 0 <= j < i ==> (#[trigger] windows.window_ids@[j])@ != id@,
                decreases windows.window_ids@.len() - i,
            {
                if str_eq(windows.window_ids[i].as_str(), id.as_str()) {
                    assert((windows.window_ids@[i as int])@ == id@);
                    return Ok(windows.window_ids[i].clone());
                }
                i = i + 1;
            }
            Err(ControlError::new(
                ErrorCode::StaleTarget,
                concat2(action.as_str(), " cannot resolve the requested window id"),
            ))
        },
        Some(_) => Err(ControlError::new(
            ErrorCode::InvalidSelector,
            concat2(action.as_str(), " only supports active and opaque window id selectors"),
        )),
    }
}

/// The first workspace of the target window; `workspaces` is what the window
/// holds, `None` when it holds no view list at all.
pub fn workspace_for_window<W>(action: ActionKind, workspaces: Option<Vec<W>>) -> (r: Result<W, ControlError>)
    ensures
        match workspaces {
            Some(ws) if ws@.len() > 0 => r matches Ok(w) && w == ws@[0],
            _ => r matches Err(e) && e.is(ErrorCode::MissingTarget, action_name(action) + " requires a workspace in the target window"@),
        },
{
    match workspaces {
        Some(mut ws) => {
            if ws.len() > 0 {
                Ok(ws.remove(0))
            } else {
                Err(ControlError::new(
                    ErrorCode::MissingTarget,
                    concat2(action.as_str(), " requires a workspace in the target window"),
                ))
            }
        },
        None => Err(ControlError::new(
            ErrorCode::MissingTarget,
            concat2(action.as_str(), " requires a workspace in the target window"),
        )),
    }
}

/// Fails unless window `window_id` holds a workspace.
pub fn require_workspace(action: ActionKind, window_id: &str, windows: &WindowSnapshot) -> (r: Result<(), ControlError>)
    ensures
        r is Ok <==> has_workspace(*windows, window_id@),
        r matches Err(e) ==> e.is(ErrorCode::MissingTarget, action_name(action) + " requires a workspace in the target window"@),
{
    let mut i: usize = 0;
    while i < windows.workspace_window_ids.len()
        invariant
            i <= windows.workspace_window_ids@.len(),
            forall|j: int| 0 <= j < i ==> (#[trigger] windows.workspace_window_ids@[j])@ != window_id@,
        decreases windows.workspace_window_ids@.len() - i,
    {
        if str_eq(windows.workspace_window_ids[i].as_str(), window_id) {
            assert((windows.workspace_window_ids@[i as int])@ == window_id@);
            return Ok(());
        }
        i = i + 1;
    }
    Err(ControlError::new(
        ErrorCode::MissingTarget,
        concat2(action.as_str(), " requires a workspace in the target window"),
    ))
}

/// The window that `target` names, once it is known to hold a workspace.
pub fn select_workspace_window(action: ActionKind, target: &TargetSelector, windows: &WindowSnapshot) -> (r: Result<String, ControlError>)
    ensures
        result_matches_view(r, workspace_window_choice(action, target.window, *windows)),
{
    let window_id = select_window(action, target, windows)?;
    require_workspace(action, window_id.as_str(), windows)?;
    Ok(window_id)
}

} // verus!
