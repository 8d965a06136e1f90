use cloudformatious::{ChangeSetStatus, ResourceStatus, StackStatus, Status, StatusSentiment};

#[test]
fn stack_status() {
    // there's no point testing every variant, but we should check one to be sure.
    assert_eq!(
        StackStatus::UpdateRollbackCompleteCleanupInProgress.to_str(),
        "UPDATE_ROLLBACK_COMPLETE_CLEANUP_IN_PROGRESS"
    );
    assert_eq!(
        "UPDATE_ROLLBACK_COMPLETE_CLEANUP_IN_PROGRESS".parse(),
        Ok(StackStatus::UpdateRollbackCompleteCleanupInProgress)
    );
    assert!("oh no".parse::<StackStatus>().is_err());
}

#[test]
fn resource_status() {
    // there's no point testing every variant, but we should check one to be sure.
    assert_eq!(
        ResourceStatus::ImportRollbackInProgress.to_str(),
        "IMPORT_ROLLBACK_IN_PROGRESS"
    );
    assert_eq!(
        "IMPORT_ROLLBACK_IN_PROGRESS".parse(),
        Ok(ResourceStatus::ImportRollbackInProgress)
    );
    assert!("oh no".parse::<ResourceStatus>().is_err());
}

#[test]
fn change_set_status_round_trip() {
    let all = [
        ChangeSetStatus::CreatePending,
        ChangeSetStatus::CreateInProgress,
        ChangeSetStatus::CreateComplete,
        ChangeSetStatus::DeletePending,
        ChangeSetStatus::DeleteInProgress,
        ChangeSetStatus::DeleteComplete,
        ChangeSetStatus::DeleteFailed,
        ChangeSetStatus::Failed,
    ];
    for status in all {
        assert_eq!(ChangeSetStatus::parse_str(status.to_str()), Ok(status));
    }
    assert!(ChangeSetStatus::parse_str("").is_err());
}

#[test]
fn stack_status_round_trip() {
    let all = [
        StackStatus::CreateInProgress,
        StackStatus::CreateFailed,
        StackStatus::CreateComplete,
        StackStatus::RollbackInProgress,
        StackStatus::RollbackFailed,
        StackStatus::RollbackComplete,
        StackStatus::DeleteInProgress,
        StackStatus::DeleteFailed,
        StackStatus::DeleteComplete,
        StackStatus::UpdateInProgress,
        StackStatus::UpdateCompleteCleanupInProgress,
        StackStatus::UpdateComplete,
        StackStatus::UpdateFailed,
        StackStatus::UpdateRollbackInProgress,
        StackStatus::UpdateRollbackFailed,
        StackStatus::UpdateRollbackCompleteCleanupInProgress,
        StackStatus::UpdateRollbackComplete,
        StackStatus::ReviewInProgress,
        StackStatus::ImportInProgress,
        StackStatus::ImportComplete,
        StackStatus::ImportRollbackInProgress,
        StackStatus::ImportRollbackFailed,
        StackStatus::ImportRollbackComplete,
    ];
    for status in all {
        assert_eq!(StackStatus::parse_str(status.to_str()), Ok(status));
    }
}

#[test]
fn sentiment_predicates() {
    assert!(StatusSentiment::Positive.is_positive());
    assert!(!StatusSentiment::Positive.is_neutral());
    assert!(!StatusSentiment::Positive.is_negative());
    assert!(StatusSentiment::Neutral.is_neutral());
    assert!(StatusSentiment::Negative.is_negative());
}

#[test]
fn stack_status_classification() {
    assert!(StackStatus::CreateComplete.is_settled());
    assert!(StackStatus::CreateComplete.sentiment().is_positive());
    assert!(!StackStatus::CreateInProgress.is_settled());
    assert!(StackStatus::CreateInProgress.sentiment().is_neutral());
    assert!(!StackStatus::RollbackInProgress.is_settled());
    assert!(StackStatus::RollbackInProgress.sentiment().is_negative());
    assert!(StackStatus::UpdateFailed.is_settled());
    assert!(StackStatus::UpdateFailed.sentiment().is_negative());
}

#[test]
fn resource_status_classification() {
    assert!(ResourceStatus::DeleteSkipped.is_settled());
    assert!(ResourceStatus::DeleteSkipped.sentiment().is_neutral());
    assert!(ResourceStatus::CreateFailed.is_settled());
    assert!(ResourceStatus::CreateFailed.sentiment().is_negative());
    assert!(!ResourceStatus::UpdateInProgress.is_settled());
}

#[test]
fn settled_statuses_are_conclusive() {
    // No settled stack or change-set status is neutral.
    let stack_statuses = [
        StackStatus::CreateFailed,
        StackStatus::CreateComplete,
        StackStatus::RollbackFailed,
        StackStatus::RollbackComplete,
        StackStatus::DeleteFailed,
        StackStatus::DeleteComplete,
        StackStatus::UpdateComplete,
        StackStatus::UpdateFailed,
        StackStatus::UpdateRollbackFailed,
        StackStatus::UpdateRollbackComplete,
        StackStatus::ImportComplete,
        StackStatus::ImportRollbackFailed,
        StackStatus::ImportRollbackComplete,
    ];
    for status in stack_statuses {
        assert!(status.is_settled());
        assert!(!status.sentiment().is_neutral());
    }
}
