use local_control::protocol::{
    ActionImplementationStatus, ActionKind, ErrorCode, InvocationContext, PermissionCategory, RiskTier,
    StateDataCategory, TargetScope,
};

#[test]
fn ambiguous_target_error_code_is_stable() {
    assert_eq!(ErrorCode::AmbiguousTarget.as_str(), "ambiguous_target");
}

#[test]
fn input_run_is_not_in_the_allowlisted_catalog() {
    let action = ActionKind::from_name("input.run");
    assert!(action.is_none());
}

#[test]
fn file_content_commands_are_not_in_the_allowlisted_catalog() {
    for action in [
        "file.read",
        "file.write",
        "file.append",
        "file.delete",
        "drive.object.share-public",
        "drive.object.share-external",
        "agent.prompt.submit",
    ] {
        assert!(ActionKind::from_name(action).is_none());
    }
}

#[test]
fn malformed_action_name_is_not_deserialized() {
    let action = ActionKind::from_name("tab.create.extra");
    assert!(action.is_none());
}

#[test]
fn allowlisted_action_names_are_read_back() {
    assert_eq!(ActionKind::from_name("window.focus"), Some(ActionKind::WindowFocus));
    assert_eq!(ActionKind::from_name("tab.create"), Some(ActionKind::TabCreate));
    for action in ActionKind::all() {
        assert_eq!(ActionKind::from_name(action.as_str()), Some(action));
    }
    assert!(!ActionKind::all().contains(&ActionKind::InputRun));
}

#[test]
fn action_catalog_has_unique_stable_names() {
    let all = ActionKind::all();
    let names = all
        .iter()
        .map(|action| action.as_str().to_owned())
        .collect::<std::collections::BTreeSet<_>>();
    assert_eq!(names.len(), all.len());

    for action in &all {
        assert_eq!(action.metadata().name, action.as_str());
        assert_eq!(action.metadata().kind, *action);
    }
}

#[test]
fn implemented_metadata_is_exactly_first_slice_actions() {
    let implemented = ActionKind::implemented_metadata()
        .into_iter()
        .map(|metadata| metadata.kind)
        .collect::<Vec<_>>();
    assert_eq!(
        implemented,
        vec![
            ActionKind::InstanceList,
            ActionKind::AppPing,
            ActionKind::AppVersion,
            ActionKind::TabCreate,
        ]
    );
}

#[test]
fn tab_create_metadata_is_first_slice_logged_out_safe_mutation() {
    let metadata = ActionKind::TabCreate.metadata();
    assert_eq!(
        metadata.implementation_status,
        ActionImplementationStatus::Implemented
    );
    assert_eq!(metadata.risk_tier, RiskTier::MutatingNonDestructive);
    assert_eq!(
        metadata.state_data_category,
        StateDataCategory::AppStateMutation
    );
    assert!(!metadata.requires_authenticated_user);
    assert!(!metadata.authenticated_user.required);
    assert_eq!(
        metadata.permission_category,
        PermissionCategory::MutateAppState
    );
    assert_eq!(
        metadata.allowed_invocation_contexts,
        vec![InvocationContext::OutsideWarp]
    );
}

#[test]
fn core_smoke_metadata_has_explicit_read_metadata_category() {
    for action in [
        ActionKind::InstanceList,
        ActionKind::AppPing,
        ActionKind::AppVersion,
    ] {
        let metadata = action.metadata();
        assert_eq!(
            metadata.implementation_status,
            ActionImplementationStatus::Implemented
        );
        assert_eq!(metadata.risk_tier, RiskTier::ReadOnlyMetadata);
        assert_eq!(
            metadata.state_data_category,
            StateDataCategory::MetadataRead
        );
        assert_eq!(
            metadata.permission_category,
            PermissionCategory::ReadMetadata
        );
        assert!(!metadata.authenticated_user.required);
        assert_eq!(metadata.target_scope, TargetScope::Instance);
    }
}

#[test]
fn default_permissions_preserve_security_categories() {
    assert_eq!(
        ActionKind::TabCreate.metadata().permission_category,
        PermissionCategory::MutateAppState
    );
    assert_eq!(
        ActionKind::InputInsert.metadata().permission_category,
        PermissionCategory::MutateUnderlyingData
    );
    assert_eq!(
        ActionKind::SettingSet.metadata().permission_category,
        PermissionCategory::MutateMetadataConfiguration
    );
    assert_eq!(
        ActionKind::TabList.metadata().permission_category,
        PermissionCategory::ReadMetadata
    );
}

#[test]
fn implemented_actions_have_complete_logged_out_metadata() {
    for metadata in ActionKind::implemented_metadata() {
        assert_eq!(
            metadata.implementation_status,
            ActionImplementationStatus::Implemented
        );
        assert!(!metadata.requires_authenticated_user);
        assert!(!metadata.authenticated_user.required);
        assert_eq!(
            metadata.allowed_invocation_contexts,
            vec![InvocationContext::OutsideWarp]
        );
    }
}

#[test]
fn stub_actions_default_to_authenticated_user_gate_and_no_contexts() {
    for action in ActionKind::all().into_iter().filter(|action| {
        action.metadata().implementation_status == ActionImplementationStatus::Stub
    }) {
        let metadata = action.metadata();
        assert!(metadata.requires_authenticated_user);
        assert!(metadata.authenticated_user.required);
        assert!(metadata.allowed_invocation_contexts.is_empty());
    }
}

#[test]
fn structured_error_codes_have_unique_stable_strings() {
    let codes = [
        ErrorCode::LocalControlDisabled,
        ErrorCode::UnauthorizedLocalClient,
        ErrorCode::InsufficientPermissions,
        ErrorCode::AuthenticatedUserRequired,
        ErrorCode::AuthenticatedUserUnavailable,
        ErrorCode::ExecutionContextNotAllowed,
        ErrorCode::ProtocolVersionUnsupported,
        ErrorCode::InvalidRequest,
        ErrorCode::InvalidSelector,
        ErrorCode::InvalidParams,
        ErrorCode::NoInstance,
        ErrorCode::AmbiguousInstance,
        ErrorCode::AmbiguousTarget,
        ErrorCode::StaleTarget,
        ErrorCode::TargetStateConflict,
        ErrorCode::MissingTarget,
        ErrorCode::TransportUnavailable,
        ErrorCode::BridgeUnavailable,
        ErrorCode::UnsupportedAction,
        ErrorCode::NotAllowlisted,
        ErrorCode::Internal,
    ];
    let serialized = codes
        .into_iter()
        .map(|code| code.as_str().to_owned())
        .collect::<std::collections::BTreeSet<_>>();
    assert_eq!(serialized.len(), codes.len());
    assert!(serialized.contains("authenticated_user_unavailable"));
    assert!(serialized.contains("not_allowlisted"));
}

#[test]
fn non_first_slice_actions_are_catalog_stubs() {
    let metadata = ActionKind::WindowCreate.metadata();
    assert_eq!(
        metadata.implementation_status,
        ActionImplementationStatus::Stub
    );
    assert!(
        !metadata
            .allowed_invocation_contexts
            .contains(&InvocationContext::OutsideWarp)
    );
}

#[test]
fn error_code_wire_names_are_snake_case() {
    assert_eq!(ErrorCode::NoInstance.as_str(), "no_instance");
    assert_eq!(ErrorCode::UnauthorizedLocalClient.as_str(), "unauthorized_local_client");
    assert_eq!(ErrorCode::AuthenticatedScriptingRequired.as_str(), "authenticated_scripting_required");
}

#[test]
fn drive_actions_read_and_mutate_the_expected_categories() {
    assert_eq!(ActionKind::DriveList.metadata().permission_category, PermissionCategory::ReadMetadata);
    assert_eq!(ActionKind::DriveInspect.metadata().permission_category, PermissionCategory::ReadUnderlyingData);
    assert_eq!(ActionKind::DriveOpen.metadata().permission_category, PermissionCategory::MutateAppState);
    assert_eq!(ActionKind::DriveList.metadata().target_scope, TargetScope::Drive);
    assert_eq!(ActionKind::InputRun.metadata().risk_tier, RiskTier::HighRisk);
}
