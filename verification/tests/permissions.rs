use local_control::permissions::{
    allow_input_run_policy_for_test, authenticated_user_subject_for_action, capabilities,
    ensure_authenticated_user_matches, ensure_feature_enabled, ensure_input_run_policy_allows,
    ensure_scripting_grant_for_settings, ensure_settings_allow_action, input_run_policy_allows, local_permission,
    outside_warp_action_enabled_for_settings, outside_warp_permission_enabled_for_settings,
    warp_control_cli_enabled, AuthenticatedUserBinding, CredentialGrant, FeatureFlags, InputRunPolicy,
    LocalControlPermissionCategory, LocalControlSettings,
};
use local_control::protocol::{Action, ActionKind, ErrorCode, InvocationContext, PermissionCategory};

fn settings(control: bool, app_state: bool) -> LocalControlSettings {
    LocalControlSettings {
        outside_warp_control: control,
        metadata_reads: true,
        underlying_data_reads: false,
        app_state_mutations: app_state,
        metadata_configuration_mutations: false,
        underlying_data_mutations: false,
        outside_warp_authenticated_user_actions: false,
    }
}

fn grant(action: ActionKind, required: bool, subject: Option<&str>) -> CredentialGrant {
    CredentialGrant {
        action,
        authenticated_user: AuthenticatedUserBinding { required, subject: subject.map(|s| s.to_string()) },
    }
}

#[test]
fn feature_flag_gates_local_control() {
    assert!(warp_control_cli_enabled(&FeatureFlags { warp_control_cli: true }));
    assert!(ensure_feature_enabled(&FeatureFlags { warp_control_cli: true }).is_ok());
    let err = ensure_feature_enabled(&FeatureFlags { warp_control_cli: false }).unwrap_err();
    assert_eq!(err.code, ErrorCode::LocalControlDisabled);
    assert_eq!(err.message, "Warp control CLI is disabled by feature flag");
}

#[test]
fn inside_warp_requests_are_refused() {
    let err = ensure_settings_allow_action(&settings(true, true), InvocationContext::InsideWarp, ActionKind::TabCreate).unwrap_err();
    assert_eq!(err.code, ErrorCode::ExecutionContextNotAllowed);
    assert_eq!(err.message, "inside-Warp local-control grants are not implemented");
}

#[test]
fn stub_actions_are_not_available_outside_warp() {
    let err = ensure_settings_allow_action(&settings(true, true), InvocationContext::OutsideWarp, ActionKind::DriveList).unwrap_err();
    assert_eq!(err.code, ErrorCode::ExecutionContextNotAllowed);
    assert_eq!(err.message, "drive.list is not available in the outside-Warp invocation context");
}

#[test]
fn disabled_outside_warp_control_is_reported() {
    let err = ensure_settings_allow_action(&settings(false, true), InvocationContext::OutsideWarp, ActionKind::AppPing).unwrap_err();
    assert_eq!(err.code, ErrorCode::LocalControlDisabled);
    assert_eq!(err.message, "local control is disabled for this invocation context");
}

#[test]
fn missing_permission_is_reported() {
    let err = ensure_settings_allow_action(&settings(true, false), InvocationContext::OutsideWarp, ActionKind::TabCreate).unwrap_err();
    assert_eq!(err.code, ErrorCode::InsufficientPermissions);
    assert_eq!(err.message, "tab.create requires a local-control permission that is disabled");
    assert!(ensure_settings_allow_action(&settings(true, true), InvocationContext::OutsideWarp, ActionKind::TabCreate).is_ok());
    assert!(ensure_settings_allow_action(&settings(true, false), InvocationContext::OutsideWarp, ActionKind::AppPing).is_ok());
}

#[test]
fn permission_categories_map_to_settings_switches() {
    assert_eq!(local_permission(PermissionCategory::ReadMetadata), LocalControlPermissionCategory::MetadataReads);
    assert_eq!(local_permission(PermissionCategory::MutateUnderlyingData), LocalControlPermissionCategory::UnderlyingDataMutations);
    assert!(outside_warp_permission_enabled_for_settings(&settings(true, false), PermissionCategory::ReadMetadata));
    assert!(!outside_warp_permission_enabled_for_settings(&settings(false, true), PermissionCategory::ReadMetadata));
    assert!(outside_warp_action_enabled_for_settings(&settings(true, true), ActionKind::TabCreate));
    assert!(!outside_warp_action_enabled_for_settings(&settings(true, false), ActionKind::TabCreate));
}

#[test]
fn capabilities_are_the_implemented_actions() {
    assert_eq!(
        capabilities(),
        vec![ActionKind::InstanceList, ActionKind::AppPing, ActionKind::AppVersion, ActionKind::TabCreate]
    );
}

#[test]
fn authenticated_user_subject_only_when_required() {
    assert_eq!(authenticated_user_subject_for_action(ActionKind::AppPing, None).unwrap(), None);
    assert_eq!(
        authenticated_user_subject_for_action(ActionKind::DriveList, Some("user-1".to_string())).unwrap(),
        Some("user-1".to_string())
    );
    let err = authenticated_user_subject_for_action(ActionKind::DriveList, None).unwrap_err();
    assert_eq!(err.code, ErrorCode::AuthenticatedUserUnavailable);
    assert_eq!(err.message, "drive.list requires a logged-in Warp user");
}

#[test]
fn scripting_grants_cover_one_action_and_need_the_setting() {
    let s = settings(true, true);
    assert!(ensure_scripting_grant_for_settings(&s, ActionKind::TabCreate, &grant(ActionKind::TabCreate, false, None)).is_ok());
    let err = ensure_scripting_grant_for_settings(&s, ActionKind::TabCreate, &grant(ActionKind::AppPing, false, None)).unwrap_err();
    assert_eq!(err.code, ErrorCode::UnauthorizedLocalClient);
    let err = ensure_scripting_grant_for_settings(&s, ActionKind::DriveList, &grant(ActionKind::DriveList, true, None)).unwrap_err();
    assert_eq!(err.code, ErrorCode::AuthenticatedScriptingRequired);
    assert_eq!(err.message, "drive.list requires authenticated scripting grants to be enabled in Settings > Scripting");
    let enabled = LocalControlSettings { outside_warp_authenticated_user_actions: true, ..s };
    assert!(ensure_scripting_grant_for_settings(&enabled, ActionKind::DriveList, &grant(ActionKind::DriveList, true, None)).is_ok());
}

#[test]
fn input_run_needs_explicit_approval() {
    let g = grant(ActionKind::InputRun, false, None);
    let action = Action { kind: ActionKind::InputRun };
    let mut policy = InputRunPolicy::shipped();
    assert!(!input_run_policy_allows(&g, &action, &policy));
    let err = ensure_input_run_policy_allows(&g, &action, &policy).unwrap_err();
    assert_eq!(err.code, ErrorCode::InsufficientPermissions);
    assert_eq!(err.message, "input.run requires explicit local approval policy before command execution");
    let guard = allow_input_run_policy_for_test(&mut policy);
    assert!(ensure_input_run_policy_allows(&g, &action, &policy).is_ok());
    assert!(!input_run_policy_allows(&grant(ActionKind::InputInsert, false, None), &action, &policy));
    guard.restore(&mut policy);
    assert!(!policy.is_approved());
}

#[test]
fn grants_bound_to_a_user_need_that_user() {
    assert!(ensure_authenticated_user_matches(&grant(ActionKind::TabCreate, false, None), None).is_ok());
    let err = ensure_authenticated_user_matches(&grant(ActionKind::DriveList, true, Some("u1")), None).unwrap_err();
    assert_eq!(err.code, ErrorCode::AuthenticatedUserUnavailable);
    let err = ensure_authenticated_user_matches(&grant(ActionKind::DriveList, true, Some("u1")), Some("u2".to_string())).unwrap_err();
    assert_eq!(err.code, ErrorCode::AuthenticatedUserMismatch);
    assert_eq!(err.message, "drive.list credential is bound to a different Warp user");
    assert!(ensure_authenticated_user_matches(&grant(ActionKind::DriveList, true, Some("u1")), Some("u1".to_string())).is_ok());
    assert!(ensure_authenticated_user_matches(&grant(ActionKind::DriveList, true, None), Some("u1".to_string())).is_err());
}
