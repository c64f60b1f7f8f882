//! Permission checks that map protocol action metadata onto local settings.
use crate::protocol::{action_name, contexts_of, implemented_actions, permission_of, requires_user_of, Action, ActionKind, ControlError, ErrorCode, InvocationContext, PermissionCategory};
use crate::text::{concat2, owned};
use vstd::prelude::*;
use vstd::string::*;

verus! {

/// The permission switches of the Scripting settings page.
#[derive(Clone, Copy, PartialEq, Eq, Structural, Debug)]
pub enum LocalControlPermissionCategory {
    MetadataReads,
    UnderlyingDataReads,
    AppStateMutations,
    MetadataConfigurationMutations,
    UnderlyingDataMutations,
}

/// The local-control part of the user's settings.
#[derive(Clone, Copy, PartialEq, Eq, Structural, Debug)]
pub struct LocalControlSettings {
    pub outside_warp_control: bool,
    pub metadata_reads: bool,
    pub underlying_data_reads: bool,
    pub app_state_mutations: bool,
    pub metadata_configuration_mutations: bool,
    pub underlying_data_mutations: bool,
    pub outside_warp_authenticated_user_actions: bool,
}

impl LocalControlSettings {
    pub open spec fn permission_enabled(&self, p: LocalControlPermissionCategory) -> bool {
        match p {
            LocalControlPermissionCategory::MetadataReads => self.metadata_reads,
            LocalControlPermissionCategory::UnderlyingDataReads => self.underlying_data_reads,
            LocalControlPermissionCategory::AppStateMutations => self.app_state_mutations,
            LocalControlPermissionCategory::MetadataConfigurationMutations => self.metadata_configuration_mutations,
            LocalControlPermissionCategory::UnderlyingDataMutations => self.underlying_data_mutations,
        }
    }

    pub fn outside_warp_control_enabled(&self) -> (b: bool)
        ensures
            b == self.outside_warp_control,
    {
        self.outside_warp_control
    }

    pub fn outside_warp_permission_enabled(&self, p: LocalControlPermissionCategory) -> (b: bool)
        ensures
            b == self.permission_enabled(p),
    {
        match p {
            LocalControlPermissionCategory::MetadataReads => self.metadata_reads,
            LocalControlPermissionCategory::UnderlyingDataReads => self.underlying_data_reads,
            LocalControlPermissionCategory::AppStateMutations => self.app_state_mutations,
            LocalControlPermissionCategory::MetadataConfigurationMutations => self.metadata_configuration_mutations,
            LocalControlPermissionCategory::UnderlyingDataMutations => self.underlying_data_mutations,
        }
    }

    /// Outside-Warp control is on and the given permission is granted.
    pub fn allows_outside_warp(&self, p: LocalControlPermissionCategory) -> (b: bool)
        ensures
            b == (self.outside_warp_control && self.permission_enabled(p)),
    {
        self.outside_warp_control && self.outside_warp_permission_enabled(p)
    }

    pub fn outside_warp_authenticated_user_actions_enabled(&self) -> (b: bool)
        ensures
            b == self.outside_warp_authenticated_user_actions,
    {
        self.outside_warp_authenticated_user_actions
    }
}

/// Compile-time and remote feature switches that gate local control.
#[derive(Clone, Copy, PartialEq, Eq, Structural, Debug)]
pub struct FeatureFlags {
    pub warp_control_cli: bool,
}

/// The Warp user a credential grant is bound to, if it must be bound.
#[derive(Clone, PartialEq, Eq, Debug)]
pub struct AuthenticatedUserBinding {
    pub required: bool,
    pub subject: Option<String>,
}

/// A credential that a local client presents for one action.
#[derive(Clone, PartialEq, Eq, Debug)]
pub struct CredentialGrant {
    pub action: ActionKind,
    pub authenticated_user: AuthenticatedUserBinding,
}

pub open spec fn grant_scripting_denial(grant: CredentialGrant, action: ActionKind) -> Option<(ErrorCode, Seq<char>)> {
    if grant.action == action {
        None
    } else {
        Some((ErrorCode::UnauthorizedLocalClient, action_name(action) + " is not covered by the presented credential grant"@))
    }
}

/// `r` is `Ok` exactly when `expected` is `None`, and otherwise carries the
/// expected code and message.
pub open spec fn outcome_matches(r: Result<(), ControlError>, expected: Option<(ErrorCode, Seq<char>)>) -> bool {
    match r {
        Ok(()) => expected is None,
        Err(e) => expected matches Some(x) && e.is(x.0, x.1),
    }
}

impl CredentialGrant {
    /// Grants in this library are issued per action: a scripting grant
    /// covers exactly the action it names, and presenting it for any other
    /// action is refused as coming from an unauthorized local client.
    pub fn verify_scripting_for_action(&self, action: ActionKind) -> (r: Result<(), ControlError>)
        ensures
            outcome_matches(r, grant_scripting_denial(*self, action)),
    {
        if self.action == action {
            Ok(())
        } else {
            Err(ControlError::new(
                ErrorCode::UnauthorizedLocalClient,
                concat2(action.as_str(), " is not covered by the presented credential grant"),
            ))
        }
    }
}

pub open spec fn local_permission_of(p: PermissionCategory) -> LocalControlPermissionCategory {
    match p {
        PermissionCategory::ReadMetadata => LocalControlPermissionCategory::MetadataReads,
        PermissionCategory::ReadUnderlyingData => LocalControlPermissionCategory::UnderlyingDataReads,
        PermissionCategory::MutateAppState => LocalControlPermissionCategory::AppStateMutations,
        PermissionCategory::MutateMetadataConfiguration => LocalControlPermissionCategory::MetadataConfigurationMutations,
        PermissionCategory::MutateUnderlyingData => LocalControlPermissionCategory::UnderlyingDataMutations,
    }
}

pub fn warp_control_cli_enabled(flags: &FeatureFlags) -> (b: bool)
    ensures
        b == flags.warp_control_cli,
{
    flags.warp_control_cli
}

pub fn ensure_feature_enabled(flags: &FeatureFlags) -> (r: Result<(), ControlError>)
    ensures
        outcome_matches(
            r,
            if flags.warp_control_cli {
                None
            } else {
                Some((ErrorCode::LocalControlDisabled, "Warp control CLI is disabled by feature flag"@))
            },
        ),
{
    if warp_control_cli_enabled(flags) {
        return Ok(());
    }
    Err(ControlError::new(
        ErrorCode::LocalControlDisabled,
        owned("Warp control CLI is disabled by feature flag"),
    ))
}

/// Whether the settings let an outside-Warp client run `action`.
pub fn outside_warp_action_enabled_for_settings(settings: &LocalControlSettings, action: ActionKind) -> (b: bool)
    ensures
        b == (settings.outside_warp_control && settings.permission_enabled(local_permission_of(permission_of(action)))),
{
    outside_warp_permission_enabled_for_settings(settings, action.metadata().permission_category)
}

pub fn outside_warp_permission_enabled_for_settings(settings: &LocalControlSettings, permission: PermissionCategory) -> (b: bool)
    ensures
        b == (settings.outside_warp_control && settings.permission_enabled(local_permission_of(permission))),
{
    settings.allows_outside_warp(local_permission(permission))
}

/// The actions this build can run.
pub fn capabilities() -> (r: Vec<ActionKind>)
    ensures
        r@ == implemented_actions(),
{
    let metadata = ActionKind::implemented_metadata();
    let mut r: Vec<ActionKind> = Vec::new();
    let mut i: usize = 0;
    while i < metadata.len()
        invariant
            metadata@.len() == implemented_actions().len(),
            forall|j: int| 0 <= j < metadata@.len() ==> (#[trigger] metadata@[j]).describes(implemented_actions()[j]),
            i <= metadata@.len(),
            r@ == implemented_actions().take(i as int),
        decreases metadata@.len() - i,
    {
        r.push(metadata[i].kind);
        proof {
            assert(metadata@[i as int].describes(implemented_actions()[i as int]));
            assert(implemented_actions().take(i + 1) =~= implemented_actions().take(i as int).push(implemented_actions()[i as int]));
        }
        i = i + 1;
    }
    assert(implemented_actions().take(i as int) =~= implemented_actions());
    r
}

pub fn local_permission(permission: PermissionCategory) -> (p: LocalControlPermissionCategory)
    ensures
        p == local_permission_of(permission),
{
    match permission {
        PermissionCategory::ReadMetadata => LocalControlPermissionCategory::MetadataReads,
        PermissionCategory::ReadUnderlyingData => LocalControlPermissionCategory::UnderlyingDataReads,
        PermissionCategory::MutateAppState => LocalControlPermissionCategory::AppStateMutations,
        PermissionCategory::MutateMetadataConfiguration => LocalControlPermissionCategory::MetadataConfigurationMutations,
        PermissionCategory::MutateUnderlyingData => LocalControlPermissionCategory::UnderlyingDataMutations,
    }
}

pub open spec fn context_label(context: InvocationContext) -> Seq<char> {
    match context {
        InvocationContext::InsideWarp => "inside-Warp"@,
        InvocationContext::OutsideWarp => "outside-Warp"@,
    }
}

/// Why the settings refuse `action` in `context`, checked in this order:
/// inside-Warp grants, the action's allowed contexts, the master switch, and
/// the action's permission category.
pub open spec fn settings_denial(settings: LocalControlSettings, context: InvocationContext, action: ActionKind) -> Option<(ErrorCode, Seq<char>)> {
    if context == InvocationContext::InsideWarp {
        Some((ErrorCode::ExecutionContextNotAllowed, "inside-Warp local-control grants are not implemented"@))
    } else if !contexts_of(action).contains(context) {
        Some((ErrorCode::ExecutionContextNotAllowed,
            action_name(action) + " is not available in the "@ + context_label(context) + " invocation context"@))
    } else if !settings.outside_warp_control {
        Some((ErrorCode::LocalControlDisabled, "local control is disabled for this invocation context"@))
    } else if !settings.permission_enabled(local_permission_of(permission_of(action))) {
        Some((ErrorCode::InsufficientPermissions,
            action_name(action) + " requires a local-control permission that is disabled"@))
    } else {
        None
    }
}

fn contexts_contain(contexts: &Vec<InvocationContext>, context: InvocationContext) -> (b: bool)
    ensures
        b == contexts@.contains(context),
{
    let mut i: usize = 0;
    while i < contexts.len()
        invariant
            i <= contexts@.len(),
            forall|j: int| 0 <= j < i ==> contexts@[j] != context,
        decreases contexts@.len() - i,
    {
        if contexts[i] == context {
            assert(contexts@[i as int] == context);
            return true;
        }
        i = i + 1;
    }
    false
}

pub fn ensure_settings_allow_action(settings: &LocalControlSettings, context: InvocationContext, action: ActionKind) -> (r: Result<(), ControlError>)
    ensures
        outcome_matches(r, settings_denial(*settings, context, action)),
{
    if context == InvocationContext::InsideWarp {
        return Err(ControlError::new(
            ErrorCode::ExecutionContextNotAllowed,
            owned("inside-Warp local-control grants are not implemented"),
        ));
    }
    let metadata = action.metadata();
    if !contexts_contain(&metadata.allowed_invocation_contexts, context) {
        let label = match context {
            InvocationContext::InsideWarp => "inside-Warp",
            InvocationContext::OutsideWarp => "outside-Warp",
        };
        let mut message = concat2(action.as_str(), " is not available in the ");
        message.append(label);
        message.append(" invocation context");
        return Err(ControlError::new(ErrorCode::ExecutionContextNotAllowed, message));
    }
    if !settings.outside_warp_control_enabled() {
        return Err(ControlError::new(
            ErrorCode::LocalControlDisabled,
            owned("local control is disabled for this invocation context"),
        ));
    }
    let permission = local_permission(metadata.permission_category);
    if !settings.outside_warp_permission_enabled(permission) {
        return Err(ControlError::new(
            ErrorCode::InsufficientPermissions,
            concat2(action.as_str(), " requires a local-control permission that is disabled"),
        ));
    }
    Ok(())
}

/// Whether the running app's local-control settings let `action` run in
/// `context`.
pub fn ensure_action_allowed(context: InvocationContext, action: ActionKind, settings: &LocalControlSettings) -> (r: Result<(), ControlError>)
    ensures
        outcome_matches(r, settings_denial(*settings, context, action)),
{
    ensure_settings_allow_action(settings, context, action)
}

/// The logged-in user's id when `action` needs one; `user_id` is the id of
/// the user currently signed in to Warp, if any.
pub fn authenticated_user_subject_for_action(action: ActionKind, user_id: Option<String>) -> (r: Result<Option<String>, ControlError>)
    ensures
        !requires_user_of(action) ==> r matches Ok(None),
        requires_user_of(action) ==> match user_id {
            Some(u) => r matches Ok(Some(s)) && s@ == u@,
            None => r matches Err(e) && e.is(ErrorCode::AuthenticatedUserUnavailable, action_name(action) + " requires a logged-in Warp user"@),
        },
{
    if !action.metadata().requires_authenticated_user {
        return Ok(None);
    }
    match user_id {
        Some(uid) => Ok(Some(uid)),
        None => Err(ControlError::new(
            ErrorCode::AuthenticatedUserUnavailable,
            concat2(action.as_str(), " requires a logged-in Warp user"),
        )),
    }
}

pub open spec fn scripting_grant_denial(settings: LocalControlSettings, action: ActionKind, grant: CredentialGrant) -> Option<(ErrorCode, Seq<char>)> {
    if grant_scripting_denial(grant, action) is Some {
        grant_scripting_denial(grant, action)
    } else if requires_user_of(action) && !settings.outside_warp_authenticated_user_actions {
        Some((ErrorCode::AuthenticatedScriptingRequired,
            action_name(action) + " requires authenticated scripting grants to be enabled in Settings > Scripting"@))
    } else {
        None
    }
}

/// The grant covers `action`, and actions that need authenticated scripting
/// have it enabled in the settings.
pub fn ensure_scripting_grant_for_settings(settings: &LocalControlSettings, action: ActionKind, grant: &CredentialGrant) -> (r: Result<(), ControlError>)
    ensures
        outcome_matches(r, scripting_grant_denial(*settings, action, *grant)),
{
    let result = grant.verify_scripting_for_action(action);
    if result.is_err() {
        return result;
    }
    if action.metadata().requires_authenticated_scripting
        && !settings.outside_warp_authenticated_user_actions_enabled() {
        return Err(ControlError::new(
            ErrorCode::AuthenticatedScriptingRequired,
            concat2(action.as_str(), " requires authenticated scripting grants to be enabled in Settings > Scripting"),
        ));
    }
    Ok(())
}

/// The scripting-grant check against the running app's settings.
pub fn ensure_authenticated_scripting_grant(grant: &CredentialGrant, action: ActionKind, settings: &LocalControlSettings) -> (r: Result<(), ControlError>)
    ensures
        outcome_matches(r, scripting_grant_denial(*settings, action, *grant)),
{
    ensure_scripting_grant_for_settings(settings, action, grant)
}

/// Local approval policy for `input.run`. Builds ship with approval off;
/// the only way to turn it on is the test switch
/// `allow_input_run_policy_for_test`.
#[derive(Clone, Copy, PartialEq, Eq, Structural, Debug)]
pub struct InputRunPolicy {
    explicitly_approved: bool,
}

impl InputRunPolicy {
    /// Whether commands may run under this policy.
    pub closed spec fn approved(self) -> bool {
        self.explicitly_approved
    }

    /// The shipped policy: nothing is approved.
    pub fn shipped() -> (p: InputRunPolicy)
        ensures
            !p.approved(),
    {
        InputRunPolicy { explicitly_approved: false }
    }

    pub fn is_approved(&self) -> (b: bool)
        ensures
            b == self.approved(),
    {
        self.explicitly_approved
    }
}

pub open spec fn input_run_allowed(grant: CredentialGrant, action: Action, policy: InputRunPolicy) -> bool {
    grant.action == ActionKind::InputRun && action.kind == ActionKind::InputRun && policy.approved()
}

pub fn input_run_policy_allows(grant: &CredentialGrant, action: &Action, policy: &InputRunPolicy) -> (b: bool)
    ensures
        b == input_run_allowed(*grant, *action, *policy),
{
    grant.action == ActionKind::InputRun && action.kind == ActionKind::InputRun && policy.is_approved()
}

pub fn ensure_input_run_policy_allows(grant: &CredentialGrant, action: &Action, policy: &InputRunPolicy) -> (r: Result<(), ControlError>)
    ensures
        outcome_matches(
            r,
            if input_run_allowed(*grant, *action, *policy) {
                None
            } else {
                Some((ErrorCode::InsufficientPermissions, "input.run requires explicit local approval policy before command execution"@))
            },
        ),
{
    if input_run_policy_allows(grant, action, policy) {
        return Ok(());
    }
    Err(ControlError::new(
        ErrorCode::InsufficientPermissions,
        owned("input.run requires explicit local approval policy before command execution"),
    ))
}

/// Remembers the approval that was in force before a test turned it on.
pub struct TestInputRunPolicyGuard {
    previous: bool,
}

/// Turns on explicit approval and returns what restores the previous policy.
/// This is the test switch: the app itself runs with `InputRunPolicy::shipped()`.
pub fn allow_input_run_policy_for_test(policy: &mut InputRunPolicy) -> (g: TestInputRunPolicyGuard)
    ensures
        final(policy).approved(),
        g.previous() == old(policy).approved(),
{
    let previous = policy.explicitly_approved;
    policy.explicitly_approved = true;
    TestInputRunPolicyGuard { previous }
}

impl TestInputRunPolicyGuard {
    /// The approval that was in force before the guard was taken.
    pub closed spec fn previous(self) -> bool {
        self.previous
    }

    /// Puts back the approval that was in force before the guard was taken.
    pub fn restore(self, policy: &mut InputRunPolicy)
        ensures
            final(policy).approved() == self.previous(),
    {
        policy.explicitly_approved = self.previous;
    }
}

pub open spec fn user_match_denial(grant: CredentialGrant, user_id: Option<Seq<char>>) -> Option<(ErrorCode, Seq<char>)> {
    if !grant.authenticated_user.required {
        None
    } else {
        match user_id {
            None => Some((ErrorCode::AuthenticatedUserUnavailable, action_name(grant.action) + " requires a logged-in Warp user"@)),
            Some(u) => if grant.authenticated_user.subject matches Some(s) && s@ == u {
                None
            } else {
                Some((ErrorCode::AuthenticatedUserMismatch, action_name(grant.action) + " credential is bound to a different Warp user"@))
            },
        }
    }
}

pub open spec fn opt_view(o: Option<String>) -> Option<Seq<char>> {
    match o {
        Some(s) => Some(s@),
        None => None,
    }
}

/// A grant that must be bound to a Warp user is bound to the one signed in;
/// `user_id` is the id of the user currently signed in to Warp, if any.
pub fn ensure_authenticated_user_matches(grant: &CredentialGrant, user_id: Option<String>) -> (r: Result<(), ControlError>)
    ensures
        outcome_matches(r, user_match_denial(*grant, opt_view(user_id))),
{
    if !grant.authenticated_user.required {
        return Ok(());
    }
    let subject = match user_id {
        Some(uid) => uid,
        None => {
            return Err(ControlError::new(
                ErrorCode::AuthenticatedUserUnavailable,
                concat2(grant.action.as_str(), " requires a logged-in Warp user"),
            ));
        },
    };
    let matches = match &grant.authenticated_user.subject {
        Some(bound) => *bound == subject,
        None => false,
    };
    if !matches {
        return Err(ControlError::new(
            ErrorCode::AuthenticatedUserMismatch,
            concat2(grant.action.as_str(), " credential is bound to a different Warp user"),
        ));
    }
    Ok(())
}

} // verus!

verus! {

/// The settings allow an action only for an outside-Warp caller, only for an
/// implemented action, only with outside-Warp control switched on, and only
/// with the action's own permission granted; and whenever all of that holds,
/// they allow it.
pub proof fn lemma_settings_allow_exactly(settings: LocalControlSettings, context: InvocationContext, action: ActionKind)
    ensures
        settings_denial(settings, context, action) is None <==> {
            &&& context == InvocationContext::OutsideWarp
            &&& crate::protocol::is_implemented(action)
            &&& settings.outside_warp_control
            &&& settings.permission_enabled(local_permission_of(permission_of(action)))
        },
{
    if crate::protocol::is_implemented(action) {
        assert(contexts_of(action)[0] == InvocationContext::OutsideWarp);
        if context == InvocationContext::OutsideWarp {
            assert(contexts_of(action).contains(context));
        }
    } else {
        assert(contexts_of(action) =~= Seq::<InvocationContext>::empty());
    }
}

/// Each protocol permission category maps to its own settings switch.
pub proof fn lemma_local_permission_injective(a: PermissionCategory, b: PermissionCategory)
    ensures
        local_permission_of(a) == local_permission_of(b) ==> a == b,
{
}

/// Without approval, which is how the policy ships, `input.run` is always
/// refused.
pub proof fn lemma_shipped_policy_refuses_input_run(grant: CredentialGrant, action: Action, policy: InputRunPolicy)
    requires
        !policy.approved(),
    ensures
        !input_run_allowed(grant, action, policy),
{
}

} // verus!

verus! {

/// Whether the settings let an action through its own permission: block
/// inspect and output, input get and history list need the
/// underlying-data-reads switch, whatever the metadata-reads switch says;
/// block, file and project listings need only the metadata-reads switch.
pub proof fn lemma_content_reads_follow_underlying_data_switch(settings: LocalControlSettings, k: ActionKind)
    ensures
        k == ActionKind::BlockInspect || k == ActionKind::BlockOutput || k == ActionKind::InputGet
            || k == ActionKind::HistoryList ==> settings.permission_enabled(local_permission_of(permission_of(k)))
            == settings.underlying_data_reads,
        k == ActionKind::BlockList || k == ActionKind::FileList || k == ActionKind::ProjectActive
            || k == ActionKind::ProjectList ==> settings.permission_enabled(local_permission_of(permission_of(k)))
            == settings.metadata_reads,
{
}

} // verus!
