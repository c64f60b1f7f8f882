//! The local-control protocol vocabulary: actions, their catalog metadata,
//! structured error codes, and target selectors.
use crate::text::{owned, str_eq};
use vstd::prelude::*;

verus! {

/// Every action that the local-control protocol knows about.
#[derive(Clone, Copy, PartialEq, Eq, Structural, Debug, Hash)]
pub enum ActionKind {
    InstanceList,
    InstanceInspect,
    AppPing,
    AppVersion,
    AppActive,
    AppFocus,
    WindowList,
    WindowCreate,
    WindowFocus,
    TabList,
    TabCreate,
    BlockList,
    BlockInspect,
    BlockOutput,
    InputGet,
    InputInsert,
    InputRun,
    HistoryList,
    FileList,
    FileOpen,
    ProjectActive,
    ProjectList,
    ProjectOpen,
    SettingGet,
    SettingList,
    SettingSet,
    KeybindingGet,
    DriveList,
    DriveInspect,
    DriveOpen,
    DriveNotebookOpen,
    DriveEnvVarCollectionOpen,
    DriveObjectShareOpen,
}

/// The stable wire name of an action.
pub open spec fn action_name(kind: ActionKind) -> Seq<char> {
    match kind {
        ActionKind::InstanceList => "instance.list"@,
        ActionKind::InstanceInspect => "instance.inspect"@,
        ActionKind::AppPing => "app.ping"@,
        ActionKind::AppVersion => "app.version"@,
        ActionKind::AppActive => "app.active"@,
        ActionKind::AppFocus => "app.focus"@,
        ActionKind::WindowList => "window.list"@,
        ActionKind::WindowCreate => "window.create"@,
        ActionKind::WindowFocus => "window.focus"@,
        ActionKind::TabList => "tab.list"@,
        ActionKind::TabCreate => "tab.create"@,
        ActionKind::BlockList => "block.list"@,
        ActionKind::BlockInspect => "block.inspect"@,
        ActionKind::BlockOutput => "block.output"@,
        ActionKind::InputGet => "input.get"@,
        ActionKind::InputInsert => "input.insert"@,
        ActionKind::InputRun => "input.run"@,
        ActionKind::HistoryList => "history.list"@,
        ActionKind::FileList => "file.list"@,
        ActionKind::FileOpen => "file.open"@,
        ActionKind::ProjectActive => "project.active"@,
        ActionKind::ProjectList => "project.list"@,
        ActionKind::ProjectOpen => "project.open"@,
        ActionKind::SettingGet => "setting.get"@,
        ActionKind::SettingList => "setting.list"@,
        ActionKind::SettingSet => "setting.set"@,
        ActionKind::KeybindingGet => "keybinding.get"@,
        ActionKind::DriveList => "drive.list"@,
        ActionKind::DriveInspect => "drive.inspect"@,
        ActionKind::DriveOpen => "drive.open"@,
        ActionKind::DriveNotebookOpen => "drive.notebook.open"@,
        ActionKind::DriveEnvVarCollectionOpen => "drive.env-var-collection.open"@,
        ActionKind::DriveObjectShareOpen => "drive.object.share.open"@,
    }
}

/// The public catalog, in its stable order: every action a request may
/// name. `input.run` is known to the protocol but kept out of it.
pub open spec fn all_actions() -> Seq<ActionKind> {
    seq![
        ActionKind::InstanceList,
        ActionKind::InstanceInspect,
        ActionKind::AppPing,
        ActionKind::AppVersion,
        ActionKind::AppActive,
        ActionKind::AppFocus,
        ActionKind::WindowList,
        ActionKind::WindowCreate,
        ActionKind::WindowFocus,
        ActionKind::TabList,
        ActionKind::TabCreate,
        ActionKind::BlockList,
        ActionKind::BlockInspect,
        ActionKind::BlockOutput,
        ActionKind::InputGet,
        ActionKind::InputInsert,
        ActionKind::HistoryList,
        ActionKind::FileList,
        ActionKind::FileOpen,
        ActionKind::ProjectActive,
        ActionKind::ProjectList,
        ActionKind::ProjectOpen,
        ActionKind::SettingGet,
        ActionKind::SettingList,
        ActionKind::SettingSet,
        ActionKind::KeybindingGet,
        ActionKind::DriveList,
        ActionKind::DriveInspect,
        ActionKind::DriveOpen,
        ActionKind::DriveNotebookOpen,
        ActionKind::DriveEnvVarCollectionOpen,
        ActionKind::DriveObjectShareOpen,
    ]
}

/// Whether an action may be named in a request: `input.run` is catalogued
/// but never accepted from the wire.
pub open spec fn is_request_allowlisted(kind: ActionKind) -> bool {
    kind != ActionKind::InputRun
}

/// The actions of the first implemented slice.
pub open spec fn is_implemented(kind: ActionKind) -> bool {
    match kind {
        ActionKind::InstanceList | ActionKind::AppPing | ActionKind::AppVersion
        | ActionKind::TabCreate => true,
        _ => false,
    }
}

pub open spec fn permission_of(kind: ActionKind) -> PermissionCategory {
    match kind {
        ActionKind::AppFocus | ActionKind::WindowCreate | ActionKind::WindowFocus
        | ActionKind::TabCreate | ActionKind::FileOpen | ActionKind::ProjectOpen
        | ActionKind::DriveOpen | ActionKind::DriveNotebookOpen
        | ActionKind::DriveEnvVarCollectionOpen
        | ActionKind::DriveObjectShareOpen => PermissionCategory::MutateAppState,
        ActionKind::BlockInspect | ActionKind::BlockOutput | ActionKind::InputGet
        | ActionKind::HistoryList | ActionKind::DriveInspect => PermissionCategory::ReadUnderlyingData,
        ActionKind::InputInsert | ActionKind::InputRun => PermissionCategory::MutateUnderlyingData,
        ActionKind::SettingSet => PermissionCategory::MutateMetadataConfiguration,
        _ => PermissionCategory::ReadMetadata,
    }
}

pub open spec fn scope_of(kind: ActionKind) -> TargetScope {
    match kind {
        ActionKind::InstanceList | ActionKind::InstanceInspect | ActionKind::AppPing
        | ActionKind::AppVersion | ActionKind::AppActive | ActionKind::AppFocus
        | ActionKind::WindowList | ActionKind::WindowCreate | ActionKind::ProjectList
        | ActionKind::SettingGet | ActionKind::SettingList | ActionKind::SettingSet
        | ActionKind::KeybindingGet => TargetScope::Instance,
        ActionKind::BlockList | ActionKind::BlockInspect | ActionKind::BlockOutput
        | ActionKind::InputGet | ActionKind::InputInsert | ActionKind::InputRun
        | ActionKind::HistoryList => TargetScope::Pane,
        ActionKind::DriveList | ActionKind::DriveInspect => TargetScope::Drive,
        _ => TargetScope::Window,
    }
}

pub open spec fn risk_of(kind: ActionKind) -> RiskTier {
    match permission_of(kind) {
        PermissionCategory::ReadMetadata => RiskTier::ReadOnlyMetadata,
        PermissionCategory::ReadUnderlyingData => RiskTier::ReadOnlyUnderlyingData,
        PermissionCategory::MutateAppState => RiskTier::MutatingNonDestructive,
        PermissionCategory::MutateMetadataConfiguration => RiskTier::MutatingNonDestructive,
        PermissionCategory::MutateUnderlyingData => RiskTier::HighRisk,
    }
}

pub open spec fn state_category_of(kind: ActionKind) -> StateDataCategory {
    match permission_of(kind) {
        PermissionCategory::ReadMetadata => StateDataCategory::MetadataRead,
        PermissionCategory::ReadUnderlyingData => StateDataCategory::UnderlyingDataRead,
        PermissionCategory::MutateAppState => StateDataCategory::AppStateMutation,
        PermissionCategory::MutateMetadataConfiguration => StateDataCategory::MetadataConfigurationMutation,
        PermissionCategory::MutateUnderlyingData => StateDataCategory::UnderlyingDataMutation,
    }
}

/// Implemented actions run outside Warp only; stubs run nowhere.
pub open spec fn contexts_of(kind: ActionKind) -> Seq<InvocationContext> {
    if is_implemented(kind) {
        seq![InvocationContext::OutsideWarp]
    } else {
        Seq::empty()
    }
}

pub open spec fn status_of(kind: ActionKind) -> ActionImplementationStatus {
    if is_implemented(kind) {
        ActionImplementationStatus::Implemented
    } else {
        ActionImplementationStatus::Stub
    }
}

/// Stubs default to requiring a logged-in Warp user.
pub open spec fn requires_user_of(kind: ActionKind) -> bool {
    !is_implemented(kind)
}

impl ActionKind {
    /// The stable wire name.
    pub fn as_str(&self) -> (s: &'static str)
        ensures
            s@ == action_name(*self),
    {
        match self {
            ActionKind::InstanceList => "instance.list",
            ActionKind::InstanceInspect => "instance.inspect",
            ActionKind::AppPing => "app.ping",
            ActionKind::AppVersion => "app.version",
            ActionKind::AppActive => "app.active",
            ActionKind::AppFocus => "app.focus",
            ActionKind::WindowList => "window.list",
            ActionKind::WindowCreate => "window.create",
            ActionKind::WindowFocus => "window.focus",
            ActionKind::TabList => "tab.list",
            ActionKind::TabCreate => "tab.create",
            ActionKind::BlockList => "block.list",
            ActionKind::BlockInspect => "block.inspect",
            ActionKind::BlockOutput => "block.output",
            ActionKind::InputGet => "input.get",
            ActionKind::InputInsert => "input.insert",
            ActionKind::InputRun => "input.run",
            ActionKind::HistoryList => "history.list",
            ActionKind::FileList => "file.list",
            ActionKind::FileOpen => "file.open",
            ActionKind::ProjectActive => "project.active",
            ActionKind::ProjectList => "project.list",
            ActionKind::ProjectOpen => "project.open",
            ActionKind::SettingGet => "setting.get",
            ActionKind::SettingList => "setting.list",
            ActionKind::SettingSet => "setting.set",
            ActionKind::KeybindingGet => "keybinding.get",
            ActionKind::DriveList => "drive.list",
            ActionKind::DriveInspect => "drive.inspect",
            ActionKind::DriveOpen => "drive.open",
            ActionKind::DriveNotebookOpen => "drive.notebook.open",
            ActionKind::DriveEnvVarCollectionOpen => "drive.env-var-collection.open",
            ActionKind::DriveObjectShareOpen => "drive.object.share.open",
        }
    }

    /// The whole public catalog, in its stable order.
    pub fn all() -> (v: Vec<ActionKind>)
        ensures
            v@ == all_actions(),
    {
        vec![
            ActionKind::InstanceList,
            ActionKind::InstanceInspect,
            ActionKind::AppPing,
            ActionKind::AppVersion,
            ActionKind::AppActive,
            ActionKind::AppFocus,
            ActionKind::WindowList,
            ActionKind::WindowCreate,
            ActionKind::WindowFocus,
            ActionKind::TabList,
            ActionKind::TabCreate,
            ActionKind::BlockList,
            ActionKind::BlockInspect,
            ActionKind::BlockOutput,
            ActionKind::InputGet,
            ActionKind::InputInsert,
            ActionKind::HistoryList,
            ActionKind::FileList,
            ActionKind::FileOpen,
            ActionKind::ProjectActive,
            ActionKind::ProjectList,
            ActionKind::ProjectOpen,
            ActionKind::SettingGet,
            ActionKind::SettingList,
            ActionKind::SettingSet,
            ActionKind::KeybindingGet,
            ActionKind::DriveList,
            ActionKind::DriveInspect,
            ActionKind::DriveOpen,
            ActionKind::DriveNotebookOpen,
            ActionKind::DriveEnvVarCollectionOpen,
            ActionKind::DriveObjectShareOpen,
        ]
    }

    pub fn is_implemented(&self) -> (b: bool)
        ensures
            b == is_implemented(*self),
    {
        match self {
            ActionKind::InstanceList | ActionKind::AppPing | ActionKind::AppVersion
            | ActionKind::TabCreate => true,
            _ => false,
        }
    }

    pub fn permission_category(&self) -> (p: PermissionCategory)
        ensures
            p == permission_of(*self),
    {
        match self {
            ActionKind::AppFocus | ActionKind::WindowCreate | ActionKind::WindowFocus
            | ActionKind::TabCreate | ActionKind::FileOpen | ActionKind::ProjectOpen
            | ActionKind::DriveOpen | ActionKind::DriveNotebookOpen
            | ActionKind::DriveEnvVarCollectionOpen
            | ActionKind::DriveObjectShareOpen => PermissionCategory::MutateAppState,
            ActionKind::BlockInspect | ActionKind::BlockOutput | ActionKind::InputGet
            | ActionKind::HistoryList
            | ActionKind::DriveInspect => PermissionCategory::ReadUnderlyingData,
            ActionKind::InputInsert
            | ActionKind::InputRun => PermissionCategory::MutateUnderlyingData,
            ActionKind::SettingSet => PermissionCategory::MutateMetadataConfiguration,
            _ => PermissionCategory::ReadMetadata,
        }
    }

    pub fn target_scope(&self) -> (s: TargetScope)
        ensures
            s == scope_of(*self),
    {
        match self {
            ActionKind::InstanceList | ActionKind::InstanceInspect | ActionKind::AppPing
            | ActionKind::AppVersion | ActionKind::AppActive | ActionKind::AppFocus
            | ActionKind::WindowList | ActionKind::WindowCreate | ActionKind::ProjectList
            | ActionKind::SettingGet | ActionKind::SettingList | ActionKind::SettingSet
            | ActionKind::KeybindingGet => TargetScope::Instance,
            ActionKind::BlockList | ActionKind::BlockInspect | ActionKind::BlockOutput
            | ActionKind::InputGet | ActionKind::InputInsert | ActionKind::InputRun
            | ActionKind::HistoryList => TargetScope::Pane,
            ActionKind::DriveList | ActionKind::DriveInspect => TargetScope::Drive,
            _ => TargetScope::Window,
        }
    }

    /// The catalog entry of this action.
    pub fn metadata(self) -> (m: ActionMetadata)
        ensures
            m.describes(self),
    {
        let implemented = self.is_implemented();
        let permission = self.permission_category();
        let risk = match permission {
            PermissionCategory::ReadMetadata => RiskTier::ReadOnlyMetadata,
            PermissionCategory::ReadUnderlyingData => RiskTier::ReadOnlyUnderlyingData,
            PermissionCategory::MutateAppState => RiskTier::MutatingNonDestructive,
            PermissionCategory::MutateMetadataConfiguration => RiskTier::MutatingNonDestructive,
            PermissionCategory::MutateUnderlyingData => RiskTier::HighRisk,
        };
        let state = match permission {
            PermissionCategory::ReadMetadata => StateDataCategory::MetadataRead,
            PermissionCategory::ReadUnderlyingData => StateDataCategory::UnderlyingDataRead,
            PermissionCategory::MutateAppState => StateDataCategory::AppStateMutation,
            PermissionCategory::MutateMetadataConfiguration => StateDataCategory::MetadataConfigurationMutation,
            PermissionCategory::MutateUnderlyingData => StateDataCategory::UnderlyingDataMutation,
        };
        let mut contexts: Vec<InvocationContext> = Vec::new();
        if implemented {
            contexts.push(InvocationContext::OutsideWarp);
        }
        proof {
            if implemented {
                assert(contexts@ =~= contexts_of(self));
            } else {
                assert(contexts@ =~= contexts_of(self));
            }
        }
        ActionMetadata {
            kind: self,
            name: owned(self.as_str()),
            implementation_status: if implemented {
                ActionImplementationStatus::Implemented
            } else {
                ActionImplementationStatus::Stub
            },
            risk_tier: risk,
            state_data_category: state,
            permission_category: permission,
            target_scope: self.target_scope(),
            requires_authenticated_user: !implemented,
            authenticated_user: AuthenticatedUserRequirement { required: !implemented },
            requires_authenticated_scripting: !implemented,
            allowed_invocation_contexts: contexts,
        }
    }

    /// Reads an action from its wire name, as a request decoder does: only
    /// allowlisted actions are accepted.
    pub fn from_name(name: &str) -> (r: Option<ActionKind>)
        ensures
            r matches Some(k) ==> action_name(k) == name@ && is_request_allowlisted(k),
            r is None ==> forall|k: ActionKind|
                is_request_allowlisted(k) ==> action_name(k) != name@,
    {
        let all = ActionKind::all();
        let mut i: usize = 0;
        while i < all.len()
            invariant
                all@ == all_actions(),
                i <= all@.len(),
                forall|j: int|
                    0 <= j < i ==> is_request_allowlisted(#[trigger] all@[j]) ==> action_name(
                        all@[j],
                    ) != name@,
            decreases all@.len() - i,
        {
            let k = all[i];
            if str_eq(k.as_str(), name) {
                proof {
                    lemma_catalog_is_allowlisted(i as int);
                }
                return Some(k);
            }
            i = i + 1;
        }
        proof {
            assert forall|k: ActionKind| is_request_allowlisted(k) implies action_name(k)
                != name@ by {
                lemma_all_actions_complete(k);
                let j = choose|j: int| 0 <= j < all_actions().len() && all_actions()[j] == k;
                assert(all@[j] == k);
            }
        }
        None
    }
}

/// Every action a request may name occurs in the catalog.
pub proof fn lemma_all_actions_complete(k: ActionKind)
    requires
        is_request_allowlisted(k),
    ensures
        exists|j: int| 0 <= j < all_actions().len() && all_actions()[j] == k,
{
    let s = all_actions();
    match k {
        ActionKind::InstanceList => assert(s[0] == k),
        ActionKind::InstanceInspect => assert(s[1] == k),
        ActionKind::AppPing => assert(s[2] == k),
        ActionKind::AppVersion => assert(s[3] == k),
        ActionKind::AppActive => assert(s[4] == k),
        ActionKind::AppFocus => assert(s[5] == k),
        ActionKind::WindowList => assert(s[6] == k),
        ActionKind::WindowCreate => assert(s[7] == k),
        ActionKind::WindowFocus => assert(s[8] == k),
        ActionKind::TabList => assert(s[9] == k),
        ActionKind::TabCreate => assert(s[10] == k),
        ActionKind::BlockList => assert(s[11] == k),
        ActionKind::BlockInspect => assert(s[12] == k),
        ActionKind::BlockOutput => assert(s[13] == k),
        ActionKind::InputGet => assert(s[14] == k),
        ActionKind::InputInsert => assert(s[15] == k),
        ActionKind::HistoryList => assert(s[16] == k),
        ActionKind::FileList => assert(s[17] == k),
        ActionKind::FileOpen => assert(s[18] == k),
        ActionKind::ProjectActive => assert(s[19] == k),
        ActionKind::ProjectList => assert(s[20] == k),
        ActionKind::ProjectOpen => assert(s[21] == k),
        ActionKind::SettingGet => assert(s[22] == k),
        ActionKind::SettingList => assert(s[23] == k),
        ActionKind::SettingSet => assert(s[24] == k),
        ActionKind::KeybindingGet => assert(s[25] == k),
        ActionKind::DriveList => assert(s[26] == k),
        ActionKind::DriveInspect => assert(s[27] == k),
        ActionKind::DriveOpen => assert(s[28] == k),
        ActionKind::DriveNotebookOpen => assert(s[29] == k),
        ActionKind::DriveEnvVarCollectionOpen => assert(s[30] == k),
        ActionKind::DriveObjectShareOpen => assert(s[31] == k),
        ActionKind::InputRun => {},
    }
}

/// Only actions a request may name occur in the catalog.
pub proof fn lemma_catalog_is_allowlisted(j: int)
    requires
        0 <= j < all_actions().len(),
    ensures
        is_request_allowlisted(all_actions()[j]),
{
}


#[derive(Clone, Copy, PartialEq, Eq, Structural, Debug)]
pub enum ActionImplementationStatus {
    Implemented,
    Stub,
}

#[derive(Clone, Copy, PartialEq, Eq, Structural, Debug)]
pub enum RiskTier {
    ReadOnlyMetadata,
    ReadOnlyUnderlyingData,
    MutatingNonDestructive,
    HighRisk,
}

#[derive(Clone, Copy, PartialEq, Eq, Structural, Debug)]
pub enum StateDataCategory {
    MetadataRead,
    UnderlyingDataRead,
    AppStateMutation,
    MetadataConfigurationMutation,
    UnderlyingDataMutation,
}

#[derive(Clone, Copy, PartialEq, Eq, Structural, Debug)]
pub enum PermissionCategory {
    ReadMetadata,
    ReadUnderlyingData,
    MutateAppState,
    MutateMetadataConfiguration,
    MutateUnderlyingData,
}

#[derive(Clone, Copy, PartialEq, Eq, Structural, Debug)]
pub enum TargetScope {
    Instance,
    Window,
    Pane,
    Drive,
}

/// Where a request comes from.
#[derive(Clone, Copy, PartialEq, Eq, Structural, Debug)]
pub enum InvocationContext {
    InsideWarp,
    OutsideWarp,
}

#[derive(Clone, Copy, PartialEq, Eq, Structural, Debug)]
pub struct AuthenticatedUserRequirement {
    pub required: bool,
}

/// The catalog entry of one action.
#[derive(Clone, PartialEq, Eq, Debug)]
pub struct ActionMetadata {
    pub kind: ActionKind,
    pub name: String,
    pub implementation_status: ActionImplementationStatus,
    pub risk_tier: RiskTier,
    pub state_data_category: StateDataCategory,
    pub permission_category: PermissionCategory,
    pub target_scope: TargetScope,
    pub requires_authenticated_user: bool,
    pub authenticated_user: AuthenticatedUserRequirement,
    pub requires_authenticated_scripting: bool,
    pub allowed_invocation_contexts: Vec<InvocationContext>,
}

impl ActionMetadata {
    /// This entry is the catalog entry of `kind`.
    pub open spec fn describes(&self, kind: ActionKind) -> bool {
        &&& self.kind == kind
        &&& self.name@ == action_name(kind)
        &&& self.implementation_status == status_of(kind)
        &&& self.risk_tier == risk_of(kind)
        &&& self.state_data_category == state_category_of(kind)
        &&& self.permission_category == permission_of(kind)
        &&& self.target_scope == scope_of(kind)
        &&& self.requires_authenticated_user == requires_user_of(kind)
        &&& self.authenticated_user.required == requires_user_of(kind)
        &&& self.requires_authenticated_scripting == requires_user_of(kind)
        &&& self.allowed_invocation_contexts@ == contexts_of(kind)
    }
}

} // verus!

verus! {

/// A few positions of a name that already tell the catalog's names apart.
spec fn name_fingerprint(s: Seq<char>) -> (nat, char, char, char) {
    (s.len(), s[0], s[s.len() - 1], s[s.len() - 3])
}

spec fn fingerprint_table(kind: ActionKind) -> (nat, char, char, char) {
    match kind {
        ActionKind::InstanceList => (13, 'i', 't', 'i'),
        ActionKind::InstanceInspect => (16, 'i', 't', 'e'),
        ActionKind::AppPing => (8, 'a', 'g', 'i'),
        ActionKind::AppVersion => (11, 'a', 'n', 'i'),
        ActionKind::AppActive => (10, 'a', 'e', 'i'),
        ActionKind::AppFocus => (9, 'a', 's', 'c'),
        ActionKind::WindowList => (11, 'w', 't', 'i'),
        ActionKind::WindowCreate => (13, 'w', 'e', 'a'),
        ActionKind::WindowFocus => (12, 'w', 's', 'c'),
        ActionKind::TabList => (8, 't', 't', 'i'),
        ActionKind::TabCreate => (10, 't', 'e', 'a'),
        ActionKind::BlockList => (10, 'b', 't', 'i'),
        ActionKind::BlockInspect => (13, 'b', 't', 'e'),
        ActionKind::BlockOutput => (12, 'b', 't', 'p'),
        ActionKind::InputGet => (9, 'i', 't', 'g'),
        ActionKind::InputInsert => (12, 'i', 't', 'e'),
        ActionKind::InputRun => (9, 'i', 'n', 'r'),
        ActionKind::HistoryList => (12, 'h', 't', 'i'),
        ActionKind::FileList => (9, 'f', 't', 'i'),
        ActionKind::FileOpen => (9, 'f', 'n', 'p'),
        ActionKind::ProjectActive => (14, 'p', 'e', 'i'),
        ActionKind::ProjectList => (12, 'p', 't', 'i'),
        ActionKind::ProjectOpen => (12, 'p', 'n', 'p'),
        ActionKind::SettingGet => (11, 's', 't', 'g'),
        ActionKind::SettingList => (12, 's', 't', 'i'),
        ActionKind::SettingSet => (11, 's', 't', 's'),
        ActionKind::KeybindingGet => (14, 'k', 't', 'g'),
        ActionKind::DriveList => (10, 'd', 't', 'i'),
        ActionKind::DriveInspect => (13, 'd', 't', 'e'),
        ActionKind::DriveOpen => (10, 'd', 'n', 'p'),
        ActionKind::DriveNotebookOpen => (19, 'd', 'n', 'p'),
        ActionKind::DriveEnvVarCollectionOpen => (29, 'd', 'n', 'p'),
        ActionKind::DriveObjectShareOpen => (23, 'd', 'n', 'p'),
    }
}

proof fn lemma_fingerprint(kind: ActionKind)
    ensures
        name_fingerprint(action_name(kind)) == fingerprint_table(kind),
{
    match kind {
        ActionKind::InstanceList => reveal_strlit("instance.list"),
        ActionKind::InstanceInspect => reveal_strlit("instance.inspect"),
        ActionKind::AppPing => reveal_strlit("app.ping"),
        ActionKind::AppVersion => reveal_strlit("app.version"),
        ActionKind::AppActive => reveal_strlit("app.active"),
        ActionKind::AppFocus => reveal_strlit("app.focus"),
        ActionKind::WindowList => reveal_strlit("window.list"),
        ActionKind::WindowCreate => reveal_strlit("window.create"),
        ActionKind::WindowFocus => reveal_strlit("window.focus"),
        ActionKind::TabList => reveal_strlit("tab.list"),
        ActionKind::TabCreate => reveal_strlit("tab.create"),
        ActionKind::BlockList => reveal_strlit("block.list"),
        ActionKind::BlockInspect => reveal_strlit("block.inspect"),
        ActionKind::BlockOutput => reveal_strlit("block.output"),
        ActionKind::InputGet => reveal_strlit("input.get"),
        ActionKind::InputInsert => reveal_strlit("input.insert"),
        ActionKind::InputRun => reveal_strlit("input.run"),
        ActionKind::HistoryList => reveal_strlit("history.list"),
        ActionKind::FileList => reveal_strlit("file.list"),
        ActionKind::FileOpen => reveal_strlit("file.open"),
        ActionKind::ProjectActive => reveal_strlit("project.active"),
        ActionKind::ProjectList => reveal_strlit("project.list"),
        ActionKind::ProjectOpen => reveal_strlit("project.open"),
        ActionKind::SettingGet => reveal_strlit("setting.get"),
        ActionKind::SettingList => reveal_strlit("setting.list"),
        ActionKind::SettingSet => reveal_strlit("setting.set"),
        ActionKind::KeybindingGet => reveal_strlit("keybinding.get"),
        ActionKind::DriveList => reveal_strlit("drive.list"),
        ActionKind::DriveInspect => reveal_strlit("drive.inspect"),
        ActionKind::DriveOpen => reveal_strlit("drive.open"),
        ActionKind::DriveNotebookOpen => reveal_strlit("drive.notebook.open"),
        ActionKind::DriveEnvVarCollectionOpen => reveal_strlit("drive.env-var-collection.open"),
        ActionKind::DriveObjectShareOpen => reveal_strlit("drive.object.share.open"),
    }
}

/// Distinct actions have distinct wire names.
pub proof fn lemma_action_names_unique(a: ActionKind, b: ActionKind)
    requires
        a != b,
    ensures
        action_name(a) != action_name(b),
{
    lemma_fingerprint(a);
    lemma_fingerprint(b);
}

} // verus!

verus! {

/// Machine-readable error codes of the protocol.
#[derive(Clone, Copy, PartialEq, Eq, Structural, Debug, Hash)]
pub enum ErrorCode {
    LocalControlDisabled,
    UnauthorizedLocalClient,
    InsufficientPermissions,
    AuthenticatedUserRequired,
    AuthenticatedUserUnavailable,
    AuthenticatedUserMismatch,
    AuthenticatedScriptingRequired,
    ExecutionContextNotAllowed,
    ProtocolVersionUnsupported,
    InvalidRequest,
    InvalidSelector,
    InvalidParams,
    NoInstance,
    AmbiguousInstance,
    AmbiguousTarget,
    StaleTarget,
    TargetStateConflict,
    MissingTarget,
    TransportUnavailable,
    BridgeUnavailable,
    UnsupportedAction,
    NotAllowlisted,
    Internal,
}

/// The stable wire name of an error code.
pub open spec fn error_code_name(code: ErrorCode) -> Seq<char> {
    match code {
        ErrorCode::LocalControlDisabled => "local_control_disabled"@,
        ErrorCode::UnauthorizedLocalClient => "unauthorized_local_client"@,
        ErrorCode::InsufficientPermissions => "insufficient_permissions"@,
        ErrorCode::AuthenticatedUserRequired => "authenticated_user_required"@,
        ErrorCode::AuthenticatedUserUnavailable => "authenticated_user_unavailable"@,
        ErrorCode::AuthenticatedUserMismatch => "authenticated_user_mismatch"@,
        ErrorCode::AuthenticatedScriptingRequired => "authenticated_scripting_required"@,
        ErrorCode::ExecutionContextNotAllowed => "execution_context_not_allowed"@,
        ErrorCode::ProtocolVersionUnsupported => "protocol_version_unsupported"@,
        ErrorCode::InvalidRequest => "invalid_request"@,
        ErrorCode::InvalidSelector => "invalid_selector"@,
        ErrorCode::InvalidParams => "invalid_params"@,
        ErrorCode::NoInstance => "no_instance"@,
        ErrorCode::AmbiguousInstance => "ambiguous_instance"@,
        ErrorCode::AmbiguousTarget => "ambiguous_target"@,
        ErrorCode::StaleTarget => "stale_target"@,
        ErrorCode::TargetStateConflict => "target_state_conflict"@,
        ErrorCode::MissingTarget => "missing_target"@,
        ErrorCode::TransportUnavailable => "transport_unavailable"@,
        ErrorCode::BridgeUnavailable => "bridge_unavailable"@,
        ErrorCode::UnsupportedAction => "unsupported_action"@,
        ErrorCode::NotAllowlisted => "not_allowlisted"@,
        ErrorCode::Internal => "internal"@,
    }
}

impl ErrorCode {
    /// The stable wire name.
    pub fn as_str(&self) -> (s: &'static str)
        ensures
            s@ == error_code_name(*self),
    {
        match self {
            ErrorCode::LocalControlDisabled => "local_control_disabled",
            ErrorCode::UnauthorizedLocalClient => "unauthorized_local_client",
            ErrorCode::InsufficientPermissions => "insufficient_permissions",
            ErrorCode::AuthenticatedUserRequired => "authenticated_user_required",
            ErrorCode::AuthenticatedUserUnavailable => "authenticated_user_unavailable",
            ErrorCode::AuthenticatedUserMismatch => "authenticated_user_mismatch",
            ErrorCode::AuthenticatedScriptingRequired => "authenticated_scripting_required",
            ErrorCode::ExecutionContextNotAllowed => "execution_context_not_allowed",
            ErrorCode::ProtocolVersionUnsupported => "protocol_version_unsupported",
            ErrorCode::InvalidRequest => "invalid_request",
            ErrorCode::InvalidSelector => "invalid_selector",
            ErrorCode::InvalidParams => "invalid_params",
            ErrorCode::NoInstance => "no_instance",
            ErrorCode::AmbiguousInstance => "ambiguous_instance",
            ErrorCode::AmbiguousTarget => "ambiguous_target",
            ErrorCode::StaleTarget => "stale_target",
            ErrorCode::TargetStateConflict => "target_state_conflict",
            ErrorCode::MissingTarget => "missing_target",
            ErrorCode::TransportUnavailable => "transport_unavailable",
            ErrorCode::BridgeUnavailable => "bridge_unavailable",
            ErrorCode::UnsupportedAction => "unsupported_action",
            ErrorCode::NotAllowlisted => "not_allowlisted",
            ErrorCode::Internal => "internal",
        }
    }
}

spec fn error_fingerprint_table(code: ErrorCode) -> (nat, char, char, char) {
    match code {
        ErrorCode::LocalControlDisabled => (22, 'l', 'd', 'l'),
        ErrorCode::UnauthorizedLocalClient => (25, 'u', 't', 'e'),
        ErrorCode::InsufficientPermissions => (24, 'i', 's', 'o'),
        ErrorCode::AuthenticatedUserRequired => (27, 'a', 'd', 'r'),
        ErrorCode::AuthenticatedUserUnavailable => (30, 'a', 'e', 'b'),
        ErrorCode::AuthenticatedUserMismatch => (27, 'a', 'h', 't'),
        ErrorCode::AuthenticatedScriptingRequired => (32, 'a', 'd', 'r'),
        ErrorCode::ExecutionContextNotAllowed => (29, 'e', 'd', 'w'),
        ErrorCode::ProtocolVersionUnsupported => (28, 'p', 'd', 't'),
        ErrorCode::InvalidRequest => (15, 'i', 't', 'e'),
        ErrorCode::InvalidSelector => (16, 'i', 'r', 't'),
        ErrorCode::InvalidParams => (14, 'i', 's', 'a'),
        ErrorCode::NoInstance => (11, 'n', 'e', 'n'),
        ErrorCode::AmbiguousInstance => (18, 'a', 'e', 'n'),
        ErrorCode::AmbiguousTarget => (16, 'a', 't', 'g'),
        ErrorCode::StaleTarget => (12, 's', 't', 'g'),
        ErrorCode::TargetStateConflict => (21, 't', 't', 'i'),
        ErrorCode::MissingTarget => (14, 'm', 't', 'g'),
        ErrorCode::TransportUnavailable => (21, 't', 'e', 'b'),
        ErrorCode::BridgeUnavailable => (18, 'b', 'e', 'b'),
        ErrorCode::UnsupportedAction => (18, 'u', 'n', 'i'),
        ErrorCode::NotAllowlisted => (15, 'n', 'd', 't'),
        ErrorCode::Internal => (8, 'i', 'l', 'n'),
    }
}

proof fn lemma_error_fingerprint(code: ErrorCode)
    ensures
        name_fingerprint(error_code_name(code)) == error_fingerprint_table(code),
{
    match code {
        ErrorCode::LocalControlDisabled => reveal_strlit("local_control_disabled"),
        ErrorCode::UnauthorizedLocalClient => reveal_strlit("unauthorized_local_client"),
        ErrorCode::InsufficientPermissions => reveal_strlit("insufficient_permissions"),
        ErrorCode::AuthenticatedUserRequired => reveal_strlit("authenticated_user_required"),
        ErrorCode::AuthenticatedUserUnavailable => reveal_strlit("authenticated_user_unavailable"),
        ErrorCode::AuthenticatedUserMismatch => reveal_strlit("authenticated_user_mismatch"),
        ErrorCode::AuthenticatedScriptingRequired => reveal_strlit("authenticated_scripting_required"),
        ErrorCode::ExecutionContextNotAllowed => reveal_strlit("execution_context_not_allowed"),
        ErrorCode::ProtocolVersionUnsupported => reveal_strlit("protocol_version_unsupported"),
        ErrorCode::InvalidRequest => reveal_strlit("invalid_request"),
        ErrorCode::InvalidSelector => reveal_strlit("invalid_selector"),
        ErrorCode::InvalidParams => reveal_strlit("invalid_params"),
        ErrorCode::NoInstance => reveal_strlit("no_instance"),
        ErrorCode::AmbiguousInstance => reveal_strlit("ambiguous_instance"),
        ErrorCode::AmbiguousTarget => reveal_strlit("ambiguous_target"),
        ErrorCode::StaleTarget => reveal_strlit("stale_target"),
        ErrorCode::TargetStateConflict => reveal_strlit("target_state_conflict"),
        ErrorCode::MissingTarget => reveal_strlit("missing_target"),
        ErrorCode::TransportUnavailable => reveal_strlit("transport_unavailable"),
        ErrorCode::BridgeUnavailable => reveal_strlit("bridge_unavailable"),
        ErrorCode::UnsupportedAction => reveal_strlit("unsupported_action"),
        ErrorCode::NotAllowlisted => reveal_strlit("not_allowlisted"),
        ErrorCode::Internal => reveal_strlit("internal"),
    }
}

/// Distinct error codes have distinct wire names.
pub proof fn lemma_error_code_names_unique(a: ErrorCode, b: ErrorCode)
    requires
        a != b,
    ensures
        error_code_name(a) != error_code_name(b),
{
    lemma_error_fingerprint(a);
    lemma_error_fingerprint(b);
}

/// A structured protocol error: a code, a human-readable message and
/// optional details.
#[derive(Clone, PartialEq, Eq, Debug)]
pub struct ControlError {
    pub code: ErrorCode,
    pub message: String,
    pub details: Option<String>,
}

impl ControlError {
    pub fn new(code: ErrorCode, message: String) -> (e: ControlError)
        ensures
            e.code == code,
            e.message@ == message@,
            e.details is None,
    {
        ControlError { code, message, details: None }
    }

    pub fn with_details(code: ErrorCode, message: String, details: String) -> (e: ControlError)
        ensures
            e.code == code,
            e.message@ == message@,
            e.details matches Some(d) && d@ == details@,
    {
        ControlError { code, message, details: Some(details) }
    }

    /// The error has this code and message and no details.
    pub open spec fn is(&self, code: ErrorCode, message: Seq<char>) -> bool {
        &&& self.code == code
        &&& self.message@ == message
        &&& self.details is None
    }
}

/// A request's action.
#[derive(Clone, Copy, PartialEq, Eq, Structural, Debug)]
pub struct Action {
    pub kind: ActionKind,
}

/// How a request names a window.
#[derive(Clone, PartialEq, Eq, Debug)]
pub enum WindowTarget {
    Active,
    Id { id: String },
    Index { index: u32 },
    Title { title: String },
}

/// The selectors a request may carry; each is an opaque selector value.
#[derive(Clone, PartialEq, Eq, Debug)]
pub struct TargetSelector {
    pub window: Option<WindowTarget>,
    pub tab: Option<String>,
    pub pane: Option<String>,
    pub session: Option<String>,
    pub block: Option<String>,
    pub file: Option<String>,
    pub drive: Option<String>,
}

impl TargetSelector {
    /// A selector that names nothing.
    pub fn empty() -> (t: TargetSelector)
        ensures
            t.window is None,
            t.tab is None,
            t.pane is None,
            t.session is None,
            t.block is None,
            t.file is None,
            t.drive is None,
    {
        TargetSelector {
            window: None,
            tab: None,
            pane: None,
            session: None,
            block: None,
            file: None,
            drive: None,
        }
    }
}

} // verus!

verus! {

/// The implemented actions, in catalog order.
pub open spec fn implemented_actions() -> Seq<ActionKind> {
    all_actions().filter(implemented_pred())
}

pub open spec fn implemented_pred() -> spec_fn(ActionKind) -> bool {
    |k: ActionKind| is_implemented(k)
}

/// The implemented slice is exactly instance list, app ping, app version and
/// tab create, in that order.
pub proof fn lemma_implemented_actions_are_first_slice()
    ensures
        implemented_actions() == seq![
            ActionKind::InstanceList,
            ActionKind::AppPing,
            ActionKind::AppVersion,
            ActionKind::TabCreate,
        ],
{
    reveal_with_fuel(Seq::filter, 34);
    assert(implemented_actions() =~= seq![
        ActionKind::InstanceList,
        ActionKind::AppPing,
        ActionKind::AppVersion,
        ActionKind::TabCreate,
    ]);
}

} // verus!

verus! {

impl ActionKind {
    /// The catalog entries of the implemented actions, in catalog order.
    pub fn implemented_metadata() -> (r: Vec<ActionMetadata>)
        ensures
            r@.len() == implemented_actions().len(),
            forall|i: int| 0 <= i < r@.len() ==> (#[trigger] r@[i]).describes(implemented_actions()[i]),
    {
        let all = ActionKind::all();
        let ghost pred = implemented_pred();
        let mut r: Vec<ActionMetadata> = Vec::new();
        let mut i: usize = 0;
        while i < all.len()
            invariant
                all@ == all_actions(),
                pred == implemented_pred(),
                i <= all@.len(),
                r@.len() == all@.take(i as int).filter(pred).len(),
                forall|j: int|
                    0 <= j < r@.len() ==> (#[trigger] r@[j]).describes(
                        all@.take(i as int).filter(pred)[j],
                    ),
            decreases all@.len() - i,
        {
            let k = all[i];
            proof {
                assert(all@.take(i + 1) =~= all@.take(i as int).push(k));
                all@.take(i as int).lemma_filter_push(k, pred);
                assert(pred(k) == is_implemented(k));
            }
            let ghost before = r@;
            if k.is_implemented() {
                r.push(k.metadata());
            }
            proof {
                let f = all@.take(i + 1).filter(pred);
                assert(forall|j: int| 0 <= j < before.len() ==> f[j] == all@.take(i as int).filter(pred)[j]);
                assert(forall|j: int| 0 <= j < before.len() ==> r@[j] == before[j]);
            }
            i = i + 1;
        }
        assert(all@.take(all@.len() as int) =~= all@);
        r
    }
}

} // verus!

verus! {

/// Implemented actions are logged-out safe and run outside Warp only;
/// every stub requires a logged-in Warp user and runs in no context.
pub proof fn lemma_catalog_security_defaults(m: ActionMetadata, kind: ActionKind)
    requires
        m.describes(kind),
    ensures
        m.implementation_status == ActionImplementationStatus::Implemented ==> {
            &&& !m.requires_authenticated_user
            &&& !m.authenticated_user.required
            &&& m.allowed_invocation_contexts@ == seq![InvocationContext::OutsideWarp]
        },
        m.implementation_status == ActionImplementationStatus::Stub ==> {
            &&& m.requires_authenticated_user
            &&& m.authenticated_user.required
            &&& m.allowed_invocation_contexts@.len() == 0
        },
{
}

/// Reading back the wire name of an allowlisted action gives that action.
pub proof fn lemma_from_name_round_trip(kind: ActionKind, r: Option<ActionKind>)
    requires
        is_request_allowlisted(kind),
        r matches Some(k) ==> action_name(k) == action_name(kind) && is_request_allowlisted(k),
        r is None ==> forall|k: ActionKind| is_request_allowlisted(k) ==> action_name(k) != action_name(kind),
    ensures
        r == Some(kind),
{
    if let Some(k) = r {
        if k != kind {
            lemma_action_names_unique(k, kind);
        }
    }
}

} // verus!

verus! {

/// The actions that read terminal, input, history or Drive content are
/// exactly the underlying-data reads, with the matching risk tier and data
/// category; listing blocks, files and projects only reads metadata.
pub proof fn lemma_content_reads_are_underlying_data_reads(k: ActionKind)
    ensures
        permission_of(k) == PermissionCategory::ReadUnderlyingData <==> (k == ActionKind::BlockInspect
            || k == ActionKind::BlockOutput || k == ActionKind::InputGet || k == ActionKind::HistoryList
            || k == ActionKind::DriveInspect),
        permission_of(k) == PermissionCategory::ReadUnderlyingData ==> risk_of(k) == RiskTier::ReadOnlyUnderlyingData
            && state_category_of(k) == StateDataCategory::UnderlyingDataRead,
        k == ActionKind::BlockList || k == ActionKind::FileList || k == ActionKind::ProjectActive
            || k == ActionKind::ProjectList ==> permission_of(k) == PermissionCategory::ReadMetadata,
{
}

} // verus!
