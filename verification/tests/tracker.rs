use cloudformatious::{
    check_create_progress, check_operation_status, check_update_progress, OperationKind,
    ResourceStatus, StackEvent, StackEventDetails, StackOperation, StackOperationError,
    StackOperationStatus, StackStatus,
};

fn details(
    stack_id: &str,
    logical: &str,
    physical: Option<&str>,
    resource_type: &str,
    reason: Option<&str>,
    timestamp: i64,
) -> StackEventDetails {
    StackEventDetails {
        stack_alias: None,
        logical_resource_id: logical.to_string(),
        physical_resource_id: physical.map(|s| s.to_string()),
        resource_type: resource_type.to_string(),
        stack_id: stack_id.to_string(),
        stack_name: stack_id.to_string(),
        resource_status_reason: reason.map(|s| s.to_string()),
        timestamp,
    }
}

fn resource_event(
    stack_id: &str,
    logical: &str,
    status: ResourceStatus,
    timestamp: i64,
) -> StackEvent {
    StackEvent::Resource {
        resource_status: status,
        details: details(stack_id, logical, None, "AWS::EC2::VPC", None, timestamp),
    }
}

fn nested_stack_event(
    stack_id: &str,
    logical: &str,
    physical: &str,
    timestamp: i64,
) -> StackEvent {
    StackEvent::Resource {
        resource_status: ResourceStatus::CreateInProgress,
        details: details(
            stack_id,
            logical,
            Some(physical),
            "AWS::CloudFormation::Stack",
            None,
            timestamp,
        ),
    }
}

fn stack_event(
    stack_id: &str,
    status: StackStatus,
    reason: Option<&str>,
    timestamp: i64,
) -> StackEvent {
    StackEvent::Stack {
        resource_status: status,
        details: details(stack_id, stack_id, None, "AWS::CloudFormation::Stack", reason, timestamp),
    }
}

#[test]
fn progress_classifiers() {
    assert_eq!(
        check_create_progress(StackStatus::CreateInProgress),
        StackOperationStatus::InProgress
    );
    assert_eq!(
        check_create_progress(StackStatus::CreateComplete),
        StackOperationStatus::Complete
    );
    assert_eq!(
        check_create_progress(StackStatus::RollbackComplete),
        StackOperationStatus::Failed
    );
    assert_eq!(
        check_create_progress(StackStatus::DeleteComplete),
        StackOperationStatus::Unexpected
    );
    assert_eq!(
        check_update_progress(StackStatus::UpdateRollbackCompleteCleanupInProgress),
        StackOperationStatus::InProgress
    );
    assert_eq!(
        check_update_progress(StackStatus::UpdateComplete),
        StackOperationStatus::Complete
    );
    assert_eq!(
        check_update_progress(StackStatus::UpdateRollbackFailed),
        StackOperationStatus::Failed
    );
    assert_eq!(
        check_update_progress(StackStatus::CreateComplete),
        StackOperationStatus::Unexpected
    );
    assert_eq!(
        check_operation_status(StackStatus::DeleteInProgress),
        StackOperationStatus::InProgress
    );
    assert_eq!(
        check_operation_status(StackStatus::DeleteComplete),
        StackOperationStatus::Complete
    );
    assert_eq!(
        check_operation_status(StackStatus::DeleteFailed),
        StackOperationStatus::Failed
    );
    assert_eq!(
        check_operation_status(StackStatus::CreateComplete),
        StackOperationStatus::Unexpected
    );
}

#[test]
fn event_ordering_across_cycles() {
    // Pages are newest-first and may overlap across cycles; the tracker
    // must deliver a chronological, duplicate-free sequence.
    let mut operation = StackOperation::new("root".to_string(), 0, OperationKind::Create);

    let page1 = vec![
        resource_event("root", "B", ResourceStatus::CreateInProgress, 30),
        resource_event("root", "A", ResourceStatus::CreateInProgress, 10),
    ];
    let out1 = operation.process_cycle(vec![page1]).unwrap();
    let ids1: Vec<_> = out1.iter().map(|e| e.logical_resource_id().to_string()).collect();
    assert_eq!(ids1, vec!["A".to_string(), "B".to_string()]);

    // The second cycle's page overlaps the first at its boundary: the
    // already-delivered events (timestamps 10 and 30) must not reappear.
    let page2 = vec![
        stack_event("root", StackStatus::CreateComplete, None, 50),
        resource_event("root", "B", ResourceStatus::CreateComplete, 40),
        resource_event("root", "B", ResourceStatus::CreateInProgress, 30),
        resource_event("root", "A", ResourceStatus::CreateInProgress, 10),
    ];
    let out2 = operation.process_cycle(vec![page2]).unwrap();
    let times: Vec<_> = out2.iter().map(|e| e.timestamp()).collect();
    assert_eq!(times, vec![40, 50]);
    assert!(operation.is_done());
    assert!(operation.verify().is_ok());
}

#[test]
fn events_merged_chronologically_across_stacks() {
    let mut operation = StackOperation::new("root".to_string(), 0, OperationKind::Update);
    // Register a nested stack first so two pages are in play.
    let out = operation
        .process_cycle(vec![vec![nested_stack_event("root", "Child", "child-id", 5)]])
        .unwrap();
    assert_eq!(out.len(), 1);
    assert_eq!(
        operation.stack_ids(),
        vec!["root".to_string(), "child-id".to_string()]
    );

    // One cycle with a page per stack, interleaved in time.
    let root_page = vec![
        resource_event("root", "R2", ResourceStatus::UpdateComplete, 40),
        resource_event("root", "R1", ResourceStatus::UpdateInProgress, 10),
    ];
    let child_page = vec![
        resource_event("child-id", "C2", ResourceStatus::UpdateComplete, 30),
        resource_event("child-id", "C1", ResourceStatus::UpdateInProgress, 20),
    ];
    let out = operation.process_cycle(vec![root_page, child_page]).unwrap();
    let times: Vec<_> = out.iter().map(|e| e.timestamp()).collect();
    assert_eq!(times, vec![10, 20, 30, 40]);
}

#[test]
fn nested_stack_events_filtered_but_resources_kept() {
    let mut operation = StackOperation::new("root".to_string(), 0, OperationKind::Create);
    let pages = vec![vec![
        // A stack-type event of a non-root stack is redundant with the
        // parent's resource event and is dropped.
        stack_event("child-id", StackStatus::CreateInProgress, None, 20),
        // A resource event from any depth is kept.
        resource_event("child-id", "Deep", ResourceStatus::CreateInProgress, 10),
    ]];
    let out = operation.process_cycle(pages).unwrap();
    assert_eq!(out.len(), 1);
    assert_eq!(out[0].logical_resource_id(), "Deep");
}

#[test]
fn nested_alias_correctness() {
    // Stack A contains nested stack B ("Child") which contains nested
    // stack C ("Grandchild"); C's events must be attributed to
    // "Child/Grandchild" even when the registrations arrive in the same
    // poll cycle.
    let mut operation = StackOperation::new("A".to_string(), 0, OperationKind::Create);
    let page = vec![
        // Newest first: the leaf event is newest.
        resource_event("C", "Leaf", ResourceStatus::CreateInProgress, 30),
        nested_stack_event("B", "Grandchild", "C", 20),
        nested_stack_event("A", "Child", "B", 10),
    ];
    let out = operation.process_cycle(vec![page]).unwrap();
    assert_eq!(out.len(), 3);
    assert_eq!(out[0].details().stack_alias, None);
    assert_eq!(out[1].details().stack_alias, Some("Child".to_string()));
    assert_eq!(out[2].details().stack_alias, Some("Child/Grandchild".to_string()));
}

#[test]
fn failure_reason_selection() {
    // Two negative stack-status events in sequence: the *first* reason
    // must be the one reported, not the final status's.
    let mut operation = StackOperation::new("root".to_string(), 0, OperationKind::Create);
    let page = vec![
        stack_event("root", StackStatus::RollbackComplete, Some("r2"), 20),
        stack_event("root", StackStatus::RollbackInProgress, Some("r1"), 10),
    ];
    operation.process_cycle(vec![page]).unwrap();
    assert!(operation.is_done());
    match operation.verify() {
        Err(StackOperationError::Failure(failure)) => {
            assert_eq!(failure.stack_id, "root");
            assert_eq!(failure.stack_status, StackStatus::RollbackComplete);
            assert_eq!(failure.stack_status_reason, "r1");
            assert_eq!(failure.resource_events, vec![]);
        }
        other => panic!("expected a failure, got {:?}", other),
    }
}

#[test]
fn warning_vs_failure_classification() {
    // A terminal positive stack status with one negative resource event
    // produces a warning, not a failure.
    let mut operation = StackOperation::new("root".to_string(), 0, OperationKind::Update);
    let page = vec![
        stack_event("root", StackStatus::UpdateComplete, None, 30),
        resource_event("root", "Leftover", ResourceStatus::DeleteFailed, 20),
    ];
    operation.process_cycle(vec![page]).unwrap();
    match operation.verify() {
        Err(StackOperationError::Warning(warning)) => {
            assert_eq!(warning.stack_id, "root");
            assert_eq!(warning.resource_events.len(), 1);
            assert_eq!(warning.resource_events[0].0, ResourceStatus::DeleteFailed);
            assert_eq!(warning.resource_events[0].1.logical_resource_id, "Leftover");
        }
        other => panic!("expected a warning, got {:?}", other),
    }

    // A terminal negative stack status with zero resource errors still
    // produces a failure, using the stack-level reason.
    let mut operation = StackOperation::new("root".to_string(), 0, OperationKind::Create);
    let page = vec![stack_event(
        "root",
        StackStatus::RollbackComplete,
        Some("stack-level reason"),
        10,
    )];
    operation.process_cycle(vec![page]).unwrap();
    match operation.verify() {
        Err(StackOperationError::Failure(failure)) => {
            assert_eq!(failure.stack_status_reason, "stack-level reason");
            assert!(failure.resource_events.is_empty());
        }
        other => panic!("expected a failure, got {:?}", other),
    }
}

#[test]
fn clean_operation_verifies_ok() {
    let mut operation = StackOperation::new("root".to_string(), 0, OperationKind::Create);
    let page = vec![
        stack_event("root", StackStatus::CreateComplete, None, 30),
        resource_event("root", "Vpc", ResourceStatus::CreateComplete, 20),
        stack_event("root", StackStatus::CreateInProgress, None, 10),
    ];
    let out = operation.process_cycle(vec![page]).unwrap();
    assert_eq!(out.len(), 3);
    assert!(operation.is_done());
    assert!(operation.verify().is_ok());
}

#[test]
fn unexpected_status_aborts() {
    // A status outside the classifier's known sets must abort the
    // operation rather than loop forever or silently succeed.
    let mut operation = StackOperation::new("root".to_string(), 0, OperationKind::Delete);
    let page = vec![stack_event("root", StackStatus::UpdateComplete, None, 10)];
    let aborted = operation.process_cycle(vec![page]);
    match aborted {
        Err(unexpected) => assert_eq!(unexpected.stack_status, StackStatus::UpdateComplete),
        Ok(_) => panic!("an unexpected status must abort the operation"),
    }
}

#[test]
fn failure_collects_resource_events_in_order() {
    let mut operation = StackOperation::new("root".to_string(), 0, OperationKind::Create);
    let page = vec![
        stack_event("root", StackStatus::RollbackComplete, Some("boom"), 40),
        resource_event("root", "Second", ResourceStatus::CreateFailed, 30),
        resource_event("root", "First", ResourceStatus::CreateFailed, 20),
    ];
    operation.process_cycle(vec![page]).unwrap();
    match operation.verify() {
        Err(StackOperationError::Failure(failure)) => {
            let names: Vec<_> = failure
                .resource_events
                .iter()
                .map(|(_, details)| details.logical_resource_id.clone())
                .collect();
            assert_eq!(names, vec!["First".to_string(), "Second".to_string()]);
        }
        other => panic!("expected a failure, got {:?}", other),
    }
}

#[test]
fn failure_message_rendering() {
    let mut operation = StackOperation::new("root".to_string(), 0, OperationKind::Create);
    let page = vec![
        stack_event("root", StackStatus::RollbackComplete, Some("r1"), 30),
        resource_event("root", "Vpc", ResourceStatus::CreateFailed, 20),
    ];
    operation.process_cycle(vec![page]).unwrap();
    match operation.verify() {
        Err(StackOperationError::Failure(failure)) => {
            assert_eq!(
                failure.message(),
                "Stack operation failed for root; terminal status: ROLLBACK_COMPLETE (r1)\
                 \nThe following resources had errors:\
                 \n- Vpc (AWS::EC2::VPC): CREATE_FAILED (no reason reported)"
            );
        }
        other => panic!("expected a failure, got {:?}", other),
    }
}

#[test]
fn warning_message_rendering() {
    let mut operation = StackOperation::new("root".to_string(), 0, OperationKind::Update);
    let page = vec![
        stack_event("root", StackStatus::UpdateComplete, None, 30),
        resource_event("root", "Leftover", ResourceStatus::DeleteFailed, 20),
    ];
    operation.process_cycle(vec![page]).unwrap();
    match operation.verify() {
        Err(StackOperationError::Warning(warning)) => {
            assert_eq!(
                warning.message(),
                "Stack root applied successfully but some resources had errors:\
                 \n- Leftover (AWS::EC2::VPC): DELETE_FAILED (no reason reported)"
            );
        }
        other => panic!("expected a warning, got {:?}", other),
    }
}

#[test]
fn failure_reason_detail_through_wrapper() {
    let mut operation = StackOperation::new("root".to_string(), 0, OperationKind::Create);
    let page = vec![stack_event(
        "root",
        StackStatus::RollbackComplete,
        Some("The following resource(s) failed to create: [Vpc]. Rollback requested by user."),
        10,
    )];
    operation.process_cycle(vec![page]).unwrap();
    match operation.verify() {
        Err(StackOperationError::Failure(failure)) => {
            let reason = failure.stack_status_reason();
            let detail = reason.detail().expect("the reason matches a known shape");
            match detail {
                cloudformatious::status_reason::StatusReasonDetail::ResourceErrors(errors) => {
                    assert_eq!(errors.logical_resource_ids(), vec!["Vpc".to_string()]);
                }
                other => panic!("expected resource errors, got {:?}", other),
            }
        }
        other => panic!("expected a failure, got {:?}", other),
    }
}

#[test]
fn cursor_boundary_is_exclusive() {
    // An event at exactly the cursor time has been seen already and is
    // not delivered again.
    let mut operation = StackOperation::new("root".to_string(), 100, OperationKind::Create);
    let page = vec![
        resource_event("root", "New", ResourceStatus::CreateInProgress, 101),
        resource_event("root", "Boundary", ResourceStatus::CreateInProgress, 100),
    ];
    let out = operation.process_cycle(vec![page]).unwrap();
    assert_eq!(out.len(), 1);
    assert_eq!(out[0].logical_resource_id(), "New");
}

#[test]
fn empty_cycle_changes_nothing() {
    let mut operation = StackOperation::new("root".to_string(), 7, OperationKind::Create);
    let out = operation.process_cycle(vec![]).unwrap();
    assert!(out.is_empty());
    assert!(!operation.is_done());
    let out = operation.process_cycle(vec![vec![]]).unwrap();
    assert!(out.is_empty());
    assert!(operation.verify().is_ok());
}

#[test]
fn alias_reregistration_replaces() {
    // Re-observing a nested-stack resource event updates the alias
    // binding for the child stack id rather than duplicating it.
    let mut operation = StackOperation::new("root".to_string(), 0, OperationKind::Update);
    let page = vec![
        nested_stack_event("root", "Renamed", "child-id", 20),
        nested_stack_event("root", "Original", "child-id", 10),
    ];
    operation.process_cycle(vec![page]).unwrap();
    assert_eq!(
        operation.stack_ids(),
        vec!["root".to_string(), "child-id".to_string()]
    );
    let page = vec![resource_event("child-id", "Inner", ResourceStatus::UpdateComplete, 30)];
    let out = operation.process_cycle(vec![page, vec![]]).unwrap();
    assert_eq!(out[0].details().stack_alias, Some("Renamed".to_string()));
}
