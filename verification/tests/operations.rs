use cloudformatious::change_set::{
    ChangeSet, ChangeSetType, ExecutionStatus,
};
use cloudformatious::{
    change_set_name, ApplyAction, ApplyStack, ApplyStackError, ApplyStackOutput, BlockedStackStatus,
    ChangeSetStatus, DeleteAction, DeleteStack, DeleteStackError, OperationKind, ResourceStatus,
    StackEvent, StackEventDetails, StackStatus, is_not_exists, operation_kind,
};

fn change_set(status: ChangeSetStatus, status_reason: Option<&str>) -> ChangeSet {
    ChangeSet {
        capabilities: vec![],
        change_set_id: "cs-1".to_string(),
        change_set_name: "apply-stack-1".to_string(),
        changes: vec![],
        creation_time: 1_000,
        description: None,
        execution_status: ExecutionStatus::Available,
        notification_arns: vec![],
        parameters: vec![],
        stack_id: "stack-1".to_string(),
        stack_name: "my-stack".to_string(),
        status,
        status_reason: status_reason.map(|s| s.to_string()),
        tags: vec![],
    }
}

fn described_output(stack_status: StackStatus) -> ApplyStackOutput {
    ApplyStackOutput {
        change_set_id: "cs-1".to_string(),
        creation_time: 1_000,
        description: None,
        last_updated_time: None,
        outputs: vec![],
        stack_id: "stack-1".to_string(),
        stack_name: "my-stack".to_string(),
        stack_status,
        tags: vec![],
    }
}

fn op_details(stack_id: &str, logical: &str, reason: Option<&str>, timestamp: i64) -> StackEventDetails {
    StackEventDetails {
        stack_alias: None,
        logical_resource_id: logical.to_string(),
        physical_resource_id: None,
        resource_type: "AWS::EC2::VPC".to_string(),
        stack_id: stack_id.to_string(),
        stack_name: "my-stack".to_string(),
        resource_status_reason: reason.map(|s| s.to_string()),
        timestamp,
    }
}

fn op_stack_event(status: StackStatus, reason: Option<&str>, timestamp: i64) -> StackEvent {
    StackEvent::Stack {
        resource_status: status,
        details: op_details("stack-1", "my-stack", reason, timestamp),
    }
}

fn op_resource_event(status: ResourceStatus, logical: &str, timestamp: i64) -> StackEvent {
    StackEvent::Resource {
        resource_status: status,
        details: op_details("stack-1", logical, None, timestamp),
    }
}

/// Run an apply through the no-op path: creation succeeds, the change
/// set settles with a no-change reason, and the described stack is the
/// outcome.
fn apply_no_changes(describe: ApplyStackOutput) -> Result<ApplyStackOutput, ApplyStackError> {
    let mut apply = ApplyStack::new();
    let action = apply.on_create_change_set_result(Ok("cs-1".to_string()));
    assert_eq!(action, ApplyAction::PollChangeSet);
    let action = apply
        .on_change_set_described(change_set(
            ChangeSetStatus::Failed,
            Some("The submitted information didn't contain changes."),
        ))
        .unwrap();
    // The no-op path goes straight to the final describe: nothing is
    // ever executed and no events are produced.
    assert_eq!(action, ApplyAction::DescribeStack);
    let action = apply.on_stack_described(describe);
    assert_eq!(action, ApplyAction::Finished);
    assert!(apply.is_finished());
    apply.into_outcome().unwrap()
}

#[test]
fn apply_idempotent() {
    // Applying an identical input to an already-applied stack yields the
    // no-changes path both times, with equal outputs.
    let first = apply_no_changes(described_output(StackStatus::CreateComplete)).unwrap();
    let second = apply_no_changes(described_output(StackStatus::CreateComplete)).unwrap();
    assert_eq!(second.stack_status, StackStatus::CreateComplete);
    assert_eq!(first, second);
}

#[test]
fn apply_no_op_to_existing_stack() {
    // An empty/no-op template applied to a stack that already exists in
    // CREATE_COMPLETE takes the no-changes path: the final status is
    // unchanged and there are zero resource-error events.
    let outcome = apply_no_changes(described_output(StackStatus::CreateComplete));
    match outcome {
        Ok(output) => {
            assert_eq!(output.stack_status, StackStatus::CreateComplete);
            assert_eq!(output.stack_id, "stack-1");
        }
        Err(error) => panic!("the no-op apply must succeed, got {:?}", error),
    }
}

#[test]
fn apply_create_stack_ok() {
    let mut apply = ApplyStack::new();
    assert_eq!(
        apply.on_create_change_set_result(Ok("cs-1".to_string())),
        ApplyAction::PollChangeSet
    );
    assert_eq!(
        apply
            .on_change_set_described(change_set(ChangeSetStatus::CreateInProgress, None))
            .unwrap(),
        ApplyAction::PollChangeSet
    );
    assert_eq!(
        apply
            .on_change_set_described(change_set(ChangeSetStatus::CreateComplete, None))
            .unwrap(),
        ApplyAction::ExecuteChangeSet
    );
    assert_eq!(apply.on_execute_result(Ok(()), 0), ApplyAction::PollEvents);

    let page = vec![
        op_stack_event(StackStatus::CreateComplete, None, 30),
        op_resource_event(ResourceStatus::CreateComplete, "Vpc", 20),
        op_stack_event(StackStatus::CreateInProgress, None, 10),
    ];
    let events = apply.on_event_pages(vec![page]).unwrap();
    let statuses: Vec<_> = events.iter().map(|e| e.resource_status_str().to_string()).collect();
    assert_eq!(
        statuses,
        vec![
            "CREATE_IN_PROGRESS".to_string(),
            "CREATE_COMPLETE".to_string(),
            "CREATE_COMPLETE".to_string(),
        ]
    );
    assert_eq!(apply.next_after_events(), ApplyAction::DescribeStack);
    assert_eq!(
        apply.on_stack_described(described_output(StackStatus::CreateComplete)),
        ApplyAction::Finished
    );
    let output = apply.into_outcome().unwrap().unwrap();
    assert_eq!(output.stack_status, StackStatus::CreateComplete);
}

#[test]
fn apply_change_set_race_retries_once() {
    let mut apply = ApplyStack::new();
    let action =
        apply.on_create_change_set_result(Err("Stack [my-stack] already exists with id x"));
    assert_eq!(action, ApplyAction::CreateChangeSet(ChangeSetType::Update));
    assert_eq!(apply.negotiation.change_set_type, ChangeSetType::Update);
    assert_eq!(operation_kind(ChangeSetType::Update), OperationKind::Update);

    // A second already-exists failure concludes instead of looping.
    let action =
        apply.on_create_change_set_result(Err("Stack [my-stack] already exists with id x"));
    assert_eq!(action, ApplyAction::Finished);
    match apply.into_outcome().unwrap() {
        Err(ApplyStackError::CloudFormationApi(message)) => {
            assert!(message.contains("already exists"));
        }
        other => panic!("expected an API error, got {:?}", other),
    }
}

#[test]
fn apply_blocked_stack() {
    let mut apply = ApplyStack::new();
    let action = apply.on_create_change_set_result(Err(
        "Stack:arn:aws:cloudformation:eu-west-2:1:stack/s/x is in ROLLBACK_FAILED state and can not be updated.",
    ));
    assert_eq!(action, ApplyAction::Finished);
    assert_eq!(
        apply.into_outcome().unwrap(),
        Err(ApplyStackError::Blocked { status: BlockedStackStatus::RollbackFailed })
    );
}

#[test]
fn apply_execute_blocked_stack() {
    let mut apply = ApplyStack::new();
    apply.on_create_change_set_result(Ok("cs-1".to_string()));
    apply
        .on_change_set_described(change_set(ChangeSetStatus::CreateComplete, None))
        .unwrap();
    let action = apply.on_execute_result(
        Err("This stack is currently in a non-terminal [UPDATE_ROLLBACK_FAILED] state."),
        0,
    );
    assert_eq!(action, ApplyAction::Finished);
    assert_eq!(
        apply.into_outcome().unwrap(),
        Err(ApplyStackError::Blocked { status: BlockedStackStatus::UpdateRollbackFailed })
    );
}

#[test]
fn apply_create_change_set_failed() {
    let mut apply = ApplyStack::new();
    apply.on_create_change_set_result(Ok("cs-1".to_string()));
    let action = apply
        .on_change_set_described(change_set(
            ChangeSetStatus::Failed,
            Some("Template format error"),
        ))
        .unwrap();
    assert_eq!(action, ApplyAction::Finished);
    match apply.into_outcome().unwrap() {
        Err(ApplyStackError::CreateChangeSetFailed { id, status, status_reason }) => {
            assert_eq!(id, "cs-1");
            assert_eq!(status, ChangeSetStatus::Failed);
            assert_eq!(status_reason, "Template format error");
        }
        other => panic!("expected a change-set failure, got {:?}", other),
    }
}

#[test]
fn apply_unexpected_change_set_status() {
    let mut apply = ApplyStack::new();
    apply.on_create_change_set_result(Ok("cs-1".to_string()));
    let aborted = apply.on_change_set_described(change_set(ChangeSetStatus::DeleteComplete, None));
    match aborted {
        Err(unexpected) => assert_eq!(unexpected.status, ChangeSetStatus::DeleteComplete),
        Ok(_) => panic!("an unexpected change-set status must abort the operation"),
    }
}

#[test]
fn apply_failure_with_evidence() {
    let mut apply = ApplyStack::new();
    apply.on_create_change_set_result(Ok("cs-1".to_string()));
    apply
        .on_change_set_described(change_set(ChangeSetStatus::CreateComplete, None))
        .unwrap();
    apply.on_execute_result(Ok(()), 0);
    let page = vec![
        op_stack_event(StackStatus::RollbackComplete, Some("r2"), 40),
        op_stack_event(
            StackStatus::RollbackInProgress,
            Some("The following resource(s) failed to create: [Vpc]. Rollback requested by user."),
            30,
        ),
        op_resource_event(ResourceStatus::CreateFailed, "Vpc", 20),
        op_stack_event(StackStatus::CreateInProgress, None, 10),
    ];
    apply.on_event_pages(vec![page]).unwrap();
    assert_eq!(apply.next_after_events(), ApplyAction::Finished);
    match apply.into_outcome().unwrap() {
        Err(ApplyStackError::Failure(failure)) => {
            assert_eq!(failure.stack_status, StackStatus::RollbackComplete);
            assert!(failure
                .stack_status_reason
                .contains("resource(s) failed to create: [Vpc]"));
            assert_eq!(failure.resource_events.len(), 1);
            assert_eq!(failure.resource_events[0].1.logical_resource_id, "Vpc");
        }
        other => panic!("expected a failure, got {:?}", other),
    }
}

#[test]
fn apply_warning_keeps_output() {
    let mut apply = ApplyStack::new();
    apply.on_create_change_set_result(Ok("cs-1".to_string()));
    apply
        .on_change_set_described(change_set(ChangeSetStatus::CreateComplete, None))
        .unwrap();
    apply.on_execute_result(Ok(()), 0);
    let page = vec![
        op_stack_event(StackStatus::CreateComplete, None, 30),
        op_resource_event(ResourceStatus::DeleteFailed, "Leftover", 20),
        op_stack_event(StackStatus::CreateInProgress, None, 10),
    ];
    apply.on_event_pages(vec![page]).unwrap();
    assert_eq!(apply.next_after_events(), ApplyAction::DescribeStack);
    apply.on_stack_described(described_output(StackStatus::CreateComplete));
    match apply.into_outcome().unwrap() {
        Err(ApplyStackError::Warning { output, warning }) => {
            assert_eq!(output.stack_status, StackStatus::CreateComplete);
            assert_eq!(warning.resource_events.len(), 1);
            assert_eq!(warning.resource_events[0].1.logical_resource_id, "Leftover");
        }
        other => panic!("expected a warning, got {:?}", other),
    }
}

#[test]
fn delete_stack_noop_when_absent() {
    assert!(is_not_exists("Stack with id foo does not exist"));
    assert!(!is_not_exists("Rate exceeded"));

    let mut delete = DeleteStack::new();
    let action = delete.on_stack_described(None);
    assert_eq!(action, DeleteAction::Finished);
    assert_eq!(delete.into_outcome().unwrap(), Ok(()));
}

#[test]
fn delete_stack_noop_when_already_deleted() {
    let mut delete = DeleteStack::new();
    let action =
        delete.on_stack_described(Some(("stack-1".to_string(), StackStatus::DeleteComplete)));
    assert_eq!(action, DeleteAction::Finished);
    assert_eq!(delete.into_outcome().unwrap(), Ok(()));
}

#[test]
fn delete_stack_ok() {
    let mut delete = DeleteStack::new();
    let action =
        delete.on_stack_described(Some(("stack-1".to_string(), StackStatus::CreateComplete)));
    assert_eq!(action, DeleteAction::DeleteStack);
    assert_eq!(delete.on_delete_result(Ok(()), 0), DeleteAction::PollEvents);
    let page = vec![
        op_stack_event(StackStatus::DeleteComplete, None, 30),
        op_resource_event(ResourceStatus::DeleteComplete, "Vpc", 20),
        op_stack_event(StackStatus::DeleteInProgress, None, 10),
    ];
    let events = delete.on_event_pages(vec![page]).unwrap();
    assert_eq!(events.len(), 3);
    assert_eq!(delete.next_after_events(), DeleteAction::Finished);
    assert_eq!(delete.into_outcome().unwrap(), Ok(()));
}

#[test]
fn delete_stack_failure() {
    let mut delete = DeleteStack::new();
    delete.on_stack_described(Some(("stack-1".to_string(), StackStatus::CreateComplete)));
    delete.on_delete_result(Ok(()), 0);
    let page = vec![
        op_stack_event(StackStatus::DeleteFailed, Some("cannot delete"), 20),
        op_stack_event(StackStatus::DeleteInProgress, None, 10),
    ];
    delete.on_event_pages(vec![page]).unwrap();
    assert_eq!(delete.next_after_events(), DeleteAction::Finished);
    match delete.into_outcome().unwrap() {
        Err(DeleteStackError::Failure(failure)) => {
            assert_eq!(failure.stack_id, "stack-1");
            assert_eq!(failure.stack_status, StackStatus::DeleteFailed);
            assert_eq!(failure.stack_status_reason, "cannot delete");
        }
        other => panic!("expected a failure, got {:?}", other),
    }
}

#[test]
fn delete_stack_api_error() {
    let mut delete = DeleteStack::new();
    delete.on_stack_described(Some(("stack-1".to_string(), StackStatus::CreateComplete)));
    let action = delete.on_delete_result(Err("Access denied"), 0);
    assert_eq!(action, DeleteAction::Finished);
    assert_eq!(
        delete.into_outcome().unwrap(),
        Err(DeleteStackError::CloudFormationApi("Access denied".to_string()))
    );
}

#[test]
fn change_set_name_format() {
    assert_eq!(change_set_name(0), "apply-stack-0");
    assert_eq!(change_set_name(42), "apply-stack-42");
    assert_eq!(change_set_name(1_234_567_890_123), "apply-stack-1234567890123");
}

#[test]
fn apply_error_messages() {
    let api = ApplyStackError::CloudFormationApi("Rate exceeded".to_string());
    assert_eq!(api.message(), "CloudFormation API error: Rate exceeded");

    let blocked = ApplyStackError::Blocked { status: BlockedStackStatus::RollbackFailed };
    assert_eq!(
        blocked.message(),
        "stack operation failed because the stack is in a blocked state: ROLLBACK_FAILED"
    );

    let failed = ApplyStackError::CreateChangeSetFailed {
        id: "cs-1".to_string(),
        status: ChangeSetStatus::Failed,
        status_reason: "Template format error".to_string(),
    };
    assert_eq!(
        failed.message(),
        "Change set cs-1 failed to create; terminal status: FAILED (Template format error)"
    );
}

#[test]
fn delete_error_messages() {
    let api = DeleteStackError::CloudFormationApi("Access denied".to_string());
    assert_eq!(api.message(), "CloudFormation API error: Access denied");
}

#[test]
fn delete_stack_warning() {
    let mut delete = DeleteStack::new();
    delete.on_stack_described(Some(("stack-1".to_string(), StackStatus::CreateComplete)));
    delete.on_delete_result(Ok(()), 0);
    let page = vec![
        op_stack_event(StackStatus::DeleteComplete, None, 30),
        op_resource_event(ResourceStatus::DeleteFailed, "Stubborn", 20),
        op_stack_event(StackStatus::DeleteInProgress, None, 10),
    ];
    delete.on_event_pages(vec![page]).unwrap();
    assert_eq!(delete.next_after_events(), DeleteAction::Finished);
    match delete.into_outcome().unwrap() {
        Err(DeleteStackError::Warning(warning)) => {
            assert_eq!(warning.stack_id, "stack-1");
            assert_eq!(warning.resource_events.len(), 1);
        }
        other => panic!("expected a warning, got {:?}", other),
    }
}

#[test]
fn apply_machine_keeps_change_set() {
    let mut apply = ApplyStack::new();
    apply.on_create_change_set_result(Ok("cs-1".to_string()));
    apply
        .on_change_set_described(change_set(ChangeSetStatus::CreateComplete, None))
        .unwrap();
    let kept = apply.change_set.as_ref().expect("the settled change set is kept");
    assert_eq!(kept.change_set_id, "cs-1");
    assert_eq!(kept.stack_id, "stack-1");
}
