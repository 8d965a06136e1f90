use cloudformatious::change_set::{
    classify_settlement, is_already_exists, is_create_blocked, is_execute_blocked, is_no_changes,
    Action, ChangeSetNegotiation, ChangeSetType, CreateStep, Evaluation, ExecutionStatus,
    ModifyScope, ModifyScopeSet, PollStep, Replacement, RequiresRecreation, ResourceChangeDetail,
    ResourceTargetDefinition,
};
use cloudformatious::{BlockedStackStatus, Capability, ChangeSetStatus, StackStatus};

#[test]
fn test_parse_display() {
    assert_eq!(Capability::Iam.to_str(), "CAPABILITY_IAM");
    assert_eq!(Capability::parse_str("CAPABILITY_IAM"), Ok(Capability::Iam));
    assert_eq!(Capability::NamedIam.to_str(), "CAPABILITY_NAMED_IAM");
    assert_eq!(
        Capability::parse_str("CAPABILITY_NAMED_IAM"),
        Ok(Capability::NamedIam),
    );
    assert_eq!(Capability::AutoExpand.to_str(), "CAPABILITY_AUTO_EXPAND");
    assert_eq!(
        Capability::parse_str("CAPABILITY_AUTO_EXPAND"),
        Ok(Capability::AutoExpand),
    );
}

#[test]
fn execution_status_round_trip() {
    let all = [
        ExecutionStatus::Unavailable,
        ExecutionStatus::Available,
        ExecutionStatus::ExecuteInProgress,
        ExecutionStatus::ExecuteComplete,
        ExecutionStatus::ExecuteFailed,
        ExecutionStatus::Obsolete,
    ];
    for status in all {
        assert_eq!(ExecutionStatus::parse_str(status.to_str()), Ok(status));
    }
    assert!(ExecutionStatus::parse_str("oh no").is_err());
}

#[test]
fn already_exists_predicate() {
    assert!(is_already_exists(
        "Stack [cloudformatious-testing] already exists and cannot be created again"
    ));
    assert!(!is_already_exists("Stack does not exist"));
}

#[test]
fn no_changes_predicate() {
    assert!(is_no_changes(Some(
        "The submitted information didn't contain changes. Submit different information to create a change set."
    )));
    assert!(is_no_changes(Some("No updates are to be performed.")));
    assert!(!is_no_changes(Some("Something else went wrong.")));
    assert!(!is_no_changes(None));
}

#[test]
fn create_blocked_predicate() {
    let message = "Stack:arn:aws:cloudformation:eu-west-2:123456789012:stack/blocked/abc is in ROLLBACK_FAILED state and can not be updated.";
    assert_eq!(
        is_create_blocked(message),
        Some(BlockedStackStatus::RollbackFailed)
    );
    // Not anchored at the start of the message: no match.
    assert_eq!(is_create_blocked(" Stack:x is in ROLLBACK_FAILED state and can not be updated."), None);
    // A status outside the blocked set does not count as blocked.
    assert_eq!(
        is_create_blocked("Stack:x is in CREATE_COMPLETE state and can not be updated."),
        None
    );
    assert_eq!(is_create_blocked("Rate exceeded"), None);
}

#[test]
fn execute_blocked_predicate() {
    let message =
        "This stack is currently in a non-terminal [UPDATE_ROLLBACK_FAILED] state. To update the stack, fix the stack first.";
    assert_eq!(
        is_execute_blocked(message),
        Some(BlockedStackStatus::UpdateRollbackFailed)
    );
    assert_eq!(is_execute_blocked("Access denied"), None);
}

#[test]
fn blocked_status_conversions() {
    assert_eq!(
        BlockedStackStatus::try_from(StackStatus::DeleteFailed),
        Some(BlockedStackStatus::DeleteFailed)
    );
    assert_eq!(BlockedStackStatus::try_from(StackStatus::CreateComplete), None);
    assert_eq!(
        BlockedStackStatus::UpdateFailed.as_stack_status(),
        StackStatus::UpdateFailed
    );
}

#[test]
fn settlement_classification() {
    assert_eq!(
        classify_settlement(ChangeSetStatus::CreatePending, None),
        PollStep::Continue
    );
    assert_eq!(
        classify_settlement(ChangeSetStatus::CreateInProgress, None),
        PollStep::Continue
    );
    assert_eq!(
        classify_settlement(ChangeSetStatus::CreateComplete, None),
        PollStep::Available
    );
    assert_eq!(
        classify_settlement(
            ChangeSetStatus::Failed,
            Some("No updates are to be performed.")
        ),
        PollStep::NoChanges
    );
    assert_eq!(
        classify_settlement(ChangeSetStatus::Failed, Some("Access denied")),
        PollStep::Failed
    );
    assert_eq!(classify_settlement(ChangeSetStatus::Failed, None), PollStep::Failed);
    // A status outside the creation set signals a stale status model.
    assert_eq!(
        classify_settlement(ChangeSetStatus::DeleteInProgress, None),
        PollStep::Unexpected
    );
}

#[test]
fn negotiation_retries_exactly_once() {
    let mut negotiation = ChangeSetNegotiation::new();
    assert_eq!(negotiation.change_set_type, ChangeSetType::Create);

    // The first already-exists failure retries as an update.
    let step = negotiation.on_create_error("Stack [hello] already exists ");
    assert_eq!(step, CreateStep::Retry(ChangeSetType::Update));
    assert_eq!(negotiation.change_set_type, ChangeSetType::Update);

    // A second already-exists failure concludes instead of retrying.
    let step = negotiation.on_create_error("Stack [hello] already exists ");
    assert_eq!(step, CreateStep::Fail);
    assert_eq!(negotiation.change_set_type, ChangeSetType::Update);
}

#[test]
fn negotiation_blocked_and_failed() {
    let mut negotiation = ChangeSetNegotiation::new();
    let step = negotiation.on_create_error(
        "Stack:arn:aws:cloudformation:eu-west-2:1:stack/s/x is in DELETE_FAILED state and can not be updated.",
    );
    assert_eq!(step, CreateStep::Blocked(BlockedStackStatus::DeleteFailed));

    let mut negotiation = ChangeSetNegotiation::new();
    assert_eq!(negotiation.on_create_error("Rate exceeded"), CreateStep::Fail);
    assert_eq!(negotiation.on_create_accepted(), CreateStep::Poll);
}

#[test]
fn modify_scope_set_operations() {
    let empty = ModifyScopeSet::empty();
    assert!(!empty.contains(ModifyScope::Tags));
    let tags_only = ModifyScopeSet::only(ModifyScope::Tags);
    assert!(tags_only.contains(ModifyScope::Tags));
    assert!(!tags_only.contains(ModifyScope::Properties));
    let both = tags_only.insert(ModifyScope::Metadata);
    assert!(both.contains(ModifyScope::Tags));
    assert!(both.contains(ModifyScope::Metadata));
    assert_eq!(ModifyScope::parse_str("Tags"), Ok(ModifyScope::Tags));
    assert!(ModifyScope::parse_str("tags").is_err());
}

#[test]
fn action_from_parts_validation() {
    // Bare actions must carry no modification detail.
    assert_eq!(Action::from_parts("Add", None, None, None), Ok(Action::Add));
    assert_eq!(Action::from_parts("Remove", None, None, None), Ok(Action::Remove));
    assert_eq!(Action::from_parts("Import", None, None, None), Ok(Action::Import));
    assert_eq!(Action::from_parts("Dynamic", None, None, None), Ok(Action::Dynamic));
    assert!(Action::from_parts("Add", None, Some(Replacement::False), None).is_err());

    // A modification carries all three parts.
    let detail = ResourceChangeDetail {
        change_source: None,
        evaluation: Evaluation::Static,
        target: ResourceTargetDefinition::Tags,
    };
    let action = Action::from_parts(
        "Modify",
        Some(vec![detail.clone()]),
        Some(Replacement::False),
        Some(ModifyScopeSet::only(ModifyScope::Tags)),
    )
    .unwrap();
    match &action {
        Action::Modify(modify) => {
            assert_eq!(modify.details, vec![detail]);
            assert_eq!(modify.replacement, Replacement::False);
            assert!(modify.scope.contains(ModifyScope::Tags));
        }
        other => panic!("expected a modification, got {:?}", other),
    }
    assert!(Action::from_parts("Modify", None, None, None).is_err());
    assert!(Action::from_parts("Explode", None, None, None).is_err());
}

#[test]
fn target_from_parts_validation() {
    assert_eq!(
        ResourceTargetDefinition::from_parts(
            "Properties",
            Some("CidrBlock".to_string()),
            Some(RequiresRecreation::Always),
            "AWS::EC2::Subnet",
        ),
        Ok(ResourceTargetDefinition::Properties {
            name: "CidrBlock".to_string(),
            requires_recreation: RequiresRecreation::Always,
        })
    );
    assert!(ResourceTargetDefinition::from_parts("Properties", None, None, "AWS::EC2::Subnet")
        .is_err());
    assert_eq!(
        ResourceTargetDefinition::from_parts(
            "Tags",
            None,
            Some(RequiresRecreation::Never),
            "AWS::EC2::Subnet",
        ),
        Ok(ResourceTargetDefinition::Tags)
    );
    assert!(ResourceTargetDefinition::from_parts("Tags", None, None, "AWS::EC2::Subnet").is_ok());
    assert!(ResourceTargetDefinition::from_parts("Nonsense", None, None, "AWS::EC2::Subnet")
        .is_err());
}

#[test]
fn secrets_manager_secret_tags_only() {
    // CloudFormation may report tag changes on AWS::SecretsManager::Secret
    // resources as conditionally requiring recreation; that one resource
    // type is accepted, and no other.
    assert_eq!(
        ResourceTargetDefinition::from_parts(
            "Tags",
            None,
            Some(RequiresRecreation::Conditionally),
            "AWS::SecretsManager::Secret",
        ),
        Ok(ResourceTargetDefinition::Tags)
    );
    assert!(ResourceTargetDefinition::from_parts(
        "Tags",
        None,
        Some(RequiresRecreation::Conditionally),
        "AWS::EC2::Subnet",
    )
    .is_err());
}

#[test]
fn replacement_and_evaluation_parsing() {
    assert_eq!(Replacement::parse_str("True"), Ok(Replacement::True));
    assert_eq!(Replacement::parse_str("Conditional"), Ok(Replacement::Conditional));
    assert!(Replacement::parse_str("TRUE").is_err());
    assert_eq!(Evaluation::parse_str("Static"), Ok(Evaluation::Static));
    assert_eq!(Evaluation::parse_str("Dynamic"), Ok(Evaluation::Dynamic));
    assert_eq!(
        RequiresRecreation::parse_str("Conditionally"),
        Ok(RequiresRecreation::Conditionally)
    );
    assert_eq!(ChangeSetType::Create.to_str(), "CREATE");
    assert_eq!(ChangeSetType::Update.to_str(), "UPDATE");
}
