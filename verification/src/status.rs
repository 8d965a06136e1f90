//! The status taxonomy for the three resource kinds (change set, stack,
//! resource), with settlement and sentiment classification.
//!
//! A *settled* status is one that will not transition again during the
//! current stack operation.  The *sentiment* of a status classifies it as
//! positive (successful-terminal), neutral (in-progress) or negative
//! (failed/rollback).  Parsing from the wire format is total over the
//! closed status vocabulary and rejects anything outside it.

use vstd::prelude::*;

use crate::text::str_eq;

verus! {

/// Prevents the status classification traits from being implemented
/// outside this crate.
pub trait Sealed {}

/// An indication of whether a status is positive, negative, or neutral for
/// the affected resource.
#[derive(Clone, Copy, Debug, PartialEq, Eq, Structural)]
pub enum StatusSentiment {
    Positive,
    Neutral,
    Negative,
}

impl StatusSentiment {
    /// Is the sentiment positive?
    pub fn is_positive(self) -> (r: bool)
        ensures
            r == (self == StatusSentiment::Positive),
    {
        self == StatusSentiment::Positive
    }

    /// Is the sentiment neutral?
    pub fn is_neutral(self) -> (r: bool)
        ensures
            r == (self == StatusSentiment::Neutral),
    {
        self == StatusSentiment::Neutral
    }

    /// Is the sentiment negative?
    pub fn is_negative(self) -> (r: bool)
        ensures
            r == (self == StatusSentiment::Negative),
    {
        self == StatusSentiment::Negative
    }
}

/// Common operations for statuses.
pub trait Status: Sealed + Sized {
    /// Whether the status is settled, as a mathematical predicate.
    spec fn spec_settled(&self) -> bool;

    /// The sentiment of the status, as a mathematical function.
    spec fn spec_sentiment(&self) -> StatusSentiment;

    /// Indicates whether or not a status is settled.
    ///
    /// A settled status is one that won't change again during the current
    /// stack operation.
    fn is_settled(&self) -> (r: bool)
        ensures
            r == self.spec_settled(),
    ;

    /// Indicates the sentiment of the status.
    ///
    /// Successful terminal statuses are positive; failed terminal statuses
    /// and rollback statuses are negative; all other statuses are neutral.
    fn sentiment(&self) -> (r: StatusSentiment)
        ensures
            r == self.spec_sentiment(),
    ;
}

/// The error returned when parsing a status string that is outside the
/// closed set of known statuses.
///
/// An unrecognized remote status must not be silently coerced: callers are
/// expected to treat this as a fatal condition.
#[derive(Clone, Debug, PartialEq, Eq)]
pub struct InvalidStatus {
    /// The unrecognized status string.
    pub value: String,
}

/// Possible change set statuses.
#[derive(Clone, Copy, Debug, PartialEq, Eq, Structural)]
pub enum ChangeSetStatus {
    CreatePending,
    CreateInProgress,
    CreateComplete,
    DeletePending,
    DeleteInProgress,
    DeleteComplete,
    DeleteFailed,
    Failed,
}

impl ChangeSetStatus {
    /// The status with the given wire representation, if any.
    pub open spec fn of_str(s: Seq<char>) -> Option<ChangeSetStatus> {
        if s == "CREATE_PENDING"@ {
            Some(ChangeSetStatus::CreatePending)
        } else if s == "CREATE_IN_PROGRESS"@ {
            Some(ChangeSetStatus::CreateInProgress)
        } else if s == "CREATE_COMPLETE"@ {
            Some(ChangeSetStatus::CreateComplete)
        } else if s == "DELETE_PENDING"@ {
            Some(ChangeSetStatus::DeletePending)
        } else if s == "DELETE_IN_PROGRESS"@ {
            Some(ChangeSetStatus::DeleteInProgress)
        } else if s == "DELETE_COMPLETE"@ {
            Some(ChangeSetStatus::DeleteComplete)
        } else if s == "DELETE_FAILED"@ {
            Some(ChangeSetStatus::DeleteFailed)
        } else if s == "FAILED"@ {
            Some(ChangeSetStatus::Failed)
        } else {
            None
        }
    }

    /// The wire representation of the status.
    pub open spec fn spec_str(self) -> Seq<char> {
        match self {
            ChangeSetStatus::CreatePending => "CREATE_PENDING"@,
            ChangeSetStatus::CreateInProgress => "CREATE_IN_PROGRESS"@,
            ChangeSetStatus::CreateComplete => "CREATE_COMPLETE"@,
            ChangeSetStatus::DeletePending => "DELETE_PENDING"@,
            ChangeSetStatus::DeleteInProgress => "DELETE_IN_PROGRESS"@,
            ChangeSetStatus::DeleteComplete => "DELETE_COMPLETE"@,
            ChangeSetStatus::DeleteFailed => "DELETE_FAILED"@,
            ChangeSetStatus::Failed => "FAILED"@,
        }
    }

    /// The wire representation of the status.
    pub fn to_str(self) -> (r: &'static str)
        ensures
            r@ == self.spec_str(),
    {
        match self {
            ChangeSetStatus::CreatePending => "CREATE_PENDING",
            ChangeSetStatus::CreateInProgress => "CREATE_IN_PROGRESS",
            ChangeSetStatus::CreateComplete => "CREATE_COMPLETE",
            ChangeSetStatus::DeletePending => "DELETE_PENDING",
            ChangeSetStatus::DeleteInProgress => "DELETE_IN_PROGRESS",
            ChangeSetStatus::DeleteComplete => "DELETE_COMPLETE",
            ChangeSetStatus::DeleteFailed => "DELETE_FAILED",
            ChangeSetStatus::Failed => "FAILED",
        }
    }

    /// Parse a status from its wire representation.
    ///
    /// Fails with [`InvalidStatus`] on any value outside the closed set.
    pub fn parse_str(s: &str) -> (r: Result<ChangeSetStatus, InvalidStatus>)
        ensures
            match ChangeSetStatus::of_str(s@) {
                Some(status) => r == Ok::<ChangeSetStatus, InvalidStatus>(status),
                None => r matches Err(e) && e.value@ == s@,
            },
    {
        if str_eq(s, "CREATE_PENDING") {
            Ok(ChangeSetStatus::CreatePending)
        } else if str_eq(s, "CREATE_IN_PROGRESS") {
            Ok(ChangeSetStatus::CreateInProgress)
        } else if str_eq(s, "CREATE_COMPLETE") {
            Ok(ChangeSetStatus::CreateComplete)
        } else if str_eq(s, "DELETE_PENDING") {
            Ok(ChangeSetStatus::DeletePending)
        } else if str_eq(s, "DELETE_IN_PROGRESS") {
            Ok(ChangeSetStatus::DeleteInProgress)
        } else if str_eq(s, "DELETE_COMPLETE") {
            Ok(ChangeSetStatus::DeleteComplete)
        } else if str_eq(s, "DELETE_FAILED") {
            Ok(ChangeSetStatus::DeleteFailed)
        } else if str_eq(s, "FAILED") {
            Ok(ChangeSetStatus::Failed)
        } else {
            Err(InvalidStatus { value: s.to_owned() })
        }
    }
}

impl Sealed for ChangeSetStatus {}

impl Status for ChangeSetStatus {
    open spec fn spec_settled(&self) -> bool {
        match *self {
            ChangeSetStatus::CreatePending
            | ChangeSetStatus::CreateInProgress
            | ChangeSetStatus::DeletePending
            | ChangeSetStatus::DeleteInProgress => false,
            ChangeSetStatus::CreateComplete
            | ChangeSetStatus::DeleteComplete
            | ChangeSetStatus::DeleteFailed
            | ChangeSetStatus::Failed => true,
        }
    }

    open spec fn spec_sentiment(&self) -> StatusSentiment {
        match *self {
            ChangeSetStatus::CreateComplete
            | ChangeSetStatus::DeleteComplete => StatusSentiment::Positive,
            ChangeSetStatus::CreatePending
            | ChangeSetStatus::CreateInProgress
            | ChangeSetStatus::DeletePending
            | ChangeSetStatus::DeleteInProgress => StatusSentiment::Neutral,
            ChangeSetStatus::DeleteFailed | ChangeSetStatus::Failed => StatusSentiment::Negative,
        }
    }

    fn is_settled(&self) -> (r: bool) {
        match *self {
            ChangeSetStatus::CreatePending
            | ChangeSetStatus::CreateInProgress
            | ChangeSetStatus::DeletePending
            | ChangeSetStatus::DeleteInProgress => false,
            ChangeSetStatus::CreateComplete
            | ChangeSetStatus::DeleteComplete
            | ChangeSetStatus::DeleteFailed
            | ChangeSetStatus::Failed => true,
        }
    }

    fn sentiment(&self) -> (r: StatusSentiment) {
        match *self {
            ChangeSetStatus::CreateComplete
            | ChangeSetStatus::DeleteComplete => StatusSentiment::Positive,
            ChangeSetStatus::CreatePending
            | ChangeSetStatus::CreateInProgress
            | ChangeSetStatus::DeletePending
            | ChangeSetStatus::DeleteInProgress => StatusSentiment::Neutral,
            ChangeSetStatus::DeleteFailed | ChangeSetStatus::Failed => StatusSentiment::Negative,
        }
    }
}

/// Possible stack statuses.
#[derive(Clone, Copy, Debug, PartialEq, Eq, Structural)]
pub enum StackStatus {
    CreateInProgress,
    CreateFailed,
    CreateComplete,
    RollbackInProgress,
    RollbackFailed,
    RollbackComplete,
    DeleteInProgress,
    DeleteFailed,
    DeleteComplete,
    UpdateInProgress,
    UpdateCompleteCleanupInProgress,
    UpdateComplete,
    UpdateFailed,
    UpdateRollbackInProgress,
    UpdateRollbackFailed,
    UpdateRollbackCompleteCleanupInProgress,
    UpdateRollbackComplete,
    ReviewInProgress,
    ImportInProgress,
    ImportComplete,
    ImportRollbackInProgress,
    ImportRollbackFailed,
    ImportRollbackComplete,
}

impl StackStatus {
    /// The status with the given wire representation, if any.
    pub open spec fn of_str(s: Seq<char>) -> Option<StackStatus> {
        if s == "CREATE_IN_PROGRESS"@ {
            Some(StackStatus::CreateInProgress)
        } else if s == "CREATE_FAILED"@ {
            Some(StackStatus::CreateFailed)
        } else if s == "CREATE_COMPLETE"@ {
            Some(StackStatus::CreateComplete)
        } else if s == "ROLLBACK_IN_PROGRESS"@ {
            Some(StackStatus::RollbackInProgress)
        } else if s == "ROLLBACK_FAILED"@ {
            Some(StackStatus::RollbackFailed)
        } else if s == "ROLLBACK_COMPLETE"@ {
            Some(StackStatus::RollbackComplete)
        } else if s == "DELETE_IN_PROGRESS"@ {
            Some(StackStatus::DeleteInProgress)
        } else if s == "DELETE_FAILED"@ {
            Some(StackStatus::DeleteFailed)
        } else if s == "DELETE_COMPLETE"@ {
            Some(StackStatus::DeleteComplete)
        } else if s == "UPDATE_IN_PROGRESS"@ {
            Some(StackStatus::UpdateInProgress)
        } else if s == "UPDATE_COMPLETE_CLEANUP_IN_PROGRESS"@ {
            Some(StackStatus::UpdateCompleteCleanupInProgress)
        } else if s == "UPDATE_COMPLETE"@ {
            Some(StackStatus::UpdateComplete)
        } else if s == "UPDATE_FAILED"@ {
            Some(StackStatus::UpdateFailed)
        } else if s == "UPDATE_ROLLBACK_IN_PROGRESS"@ {
            Some(StackStatus::UpdateRollbackInProgress)
        } else if s == "UPDATE_ROLLBACK_FAILED"@ {
            Some(StackStatus::UpdateRollbackFailed)
        } else if s == "UPDATE_ROLLBACK_COMPLETE_CLEANUP_IN_PROGRESS"@ {
            Some(StackStatus::UpdateRollbackCompleteCleanupInProgress)
        } else if s == "UPDATE_ROLLBACK_COMPLETE"@ {
            Some(StackStatus::UpdateRollbackComplete)
        } else if s == "REVIEW_IN_PROGRESS"@ {
            Some(StackStatus::ReviewInProgress)
        } else if s == "IMPORT_IN_PROGRESS"@ {
            Some(StackStatus::ImportInProgress)
        } else if s == "IMPORT_COMPLETE"@ {
            Some(StackStatus::ImportComplete)
        } else if s == "IMPORT_ROLLBACK_IN_PROGRESS"@ {
            Some(StackStatus::ImportRollbackInProgress)
        } else if s == "IMPORT_ROLLBACK_FAILED"@ {
            Some(StackStatus::ImportRollbackFailed)
        } else if s == "IMPORT_ROLLBACK_COMPLETE"@ {
            Some(StackStatus::ImportRollbackComplete)
        } else {
            None
        }
    }

    /// The wire representation of the status.
    pub open spec fn spec_str(self) -> Seq<char> {
        match self {
            StackStatus::CreateInProgress => "CREATE_IN_PROGRESS"@,
            StackStatus::CreateFailed => "CREATE_FAILED"@,
            StackStatus::CreateComplete => "CREATE_COMPLETE"@,
            StackStatus::RollbackInProgress => "ROLLBACK_IN_PROGRESS"@,
            StackStatus::RollbackFailed => "ROLLBACK_FAILED"@,
            StackStatus::RollbackComplete => "ROLLBACK_COMPLETE"@,
            StackStatus::DeleteInProgress => "DELETE_IN_PROGRESS"@,
            StackStatus::DeleteFailed => "DELETE_FAILED"@,
            StackStatus::DeleteComplete => "DELETE_COMPLETE"@,
            StackStatus::UpdateInProgress => "UPDATE_IN_PROGRESS"@,
            StackStatus::UpdateCompleteCleanupInProgress => "UPDATE_COMPLETE_CLEANUP_IN_PROGRESS"@,
            StackStatus::UpdateComplete => "UPDATE_COMPLETE"@,
            StackStatus::UpdateFailed => "UPDATE_FAILED"@,
            StackStatus::UpdateRollbackInProgress => "UPDATE_ROLLBACK_IN_PROGRESS"@,
            StackStatus::UpdateRollbackFailed => "UPDATE_ROLLBACK_FAILED"@,
            StackStatus::UpdateRollbackCompleteCleanupInProgress => "UPDATE_ROLLBACK_COMPLETE_CLEANUP_IN_PROGRESS"@,
            StackStatus::UpdateRollbackComplete => "UPDATE_ROLLBACK_COMPLETE"@,
            StackStatus::ReviewInProgress => "REVIEW_IN_PROGRESS"@,
            StackStatus::ImportInProgress => "IMPORT_IN_PROGRESS"@,
            StackStatus::ImportComplete => "IMPORT_COMPLETE"@,
            StackStatus::ImportRollbackInProgress => "IMPORT_ROLLBACK_IN_PROGRESS"@,
            StackStatus::ImportRollbackFailed => "IMPORT_ROLLBACK_FAILED"@,
            StackStatus::ImportRollbackComplete => "IMPORT_ROLLBACK_COMPLETE"@,
        }
    }

    /// The wire representation of the status.
    pub fn to_str(self) -> (r: &'static str)
        ensures
            r@ == self.spec_str(),
    {
        match self {
            StackStatus::CreateInProgress => "CREATE_IN_PROGRESS",
            StackStatus::CreateFailed => "CREATE_FAILED",
            StackStatus::CreateComplete => "CREATE_COMPLETE",
            StackStatus::RollbackInProgress => "ROLLBACK_IN_PROGRESS",
            StackStatus::RollbackFailed => "ROLLBACK_FAILED",
            StackStatus::RollbackComplete => "ROLLBACK_COMPLETE",
            StackStatus::DeleteInProgress => "DELETE_IN_PROGRESS",
            StackStatus::DeleteFailed => "DELETE_FAILED",
            StackStatus::DeleteComplete => "DELETE_COMPLETE",
            StackStatus::UpdateInProgress => "UPDATE_IN_PROGRESS",
            StackStatus::UpdateCompleteCleanupInProgress => "UPDATE_COMPLETE_CLEANUP_IN_PROGRESS",
            StackStatus::UpdateComplete => "UPDATE_COMPLETE",
            StackStatus::UpdateFailed => "UPDATE_FAILED",
            StackStatus::UpdateRollbackInProgress => "UPDATE_ROLLBACK_IN_PROGRESS",
            StackStatus::UpdateRollbackFailed => "UPDATE_ROLLBACK_FAILED",
            StackStatus::UpdateRollbackCompleteCleanupInProgress => {
                "UPDATE_ROLLBACK_COMPLETE_CLEANUP_IN_PROGRESS"
            },
            StackStatus::UpdateRollbackComplete => "UPDATE_ROLLBACK_COMPLETE",
            StackStatus::ReviewInProgress => "REVIEW_IN_PROGRESS",
            StackStatus::ImportInProgress => "IMPORT_IN_PROGRESS",
            StackStatus::ImportComplete => "IMPORT_COMPLETE",
            StackStatus::ImportRollbackInProgress => "IMPORT_ROLLBACK_IN_PROGRESS",
            StackStatus::ImportRollbackFailed => "IMPORT_ROLLBACK_FAILED",
            StackStatus::ImportRollbackComplete => "IMPORT_ROLLBACK_COMPLETE",
        }
    }

    /// Parse a status from its wire representation.
    ///
    /// Fails with [`InvalidStatus`] on any value outside the closed set.
    pub fn parse_str(s: &str) -> (r: Result<StackStatus, InvalidStatus>)
        ensures
            match StackStatus::of_str(s@) {
                Some(status) => r == Ok::<StackStatus, InvalidStatus>(status),
                None => r matches Err(e) && e.value@ == s@,
            },
    {
        if str_eq(s, "CREATE_IN_PROGRESS") {
            Ok(StackStatus::CreateInProgress)
        } else if str_eq(s, "CREATE_FAILED") {
            Ok(StackStatus::CreateFailed)
        } else if str_eq(s, "CREATE_COMPLETE") {
            Ok(StackStatus::CreateComplete)
        } else if str_eq(s, "ROLLBACK_IN_PROGRESS") {
            Ok(StackStatus::RollbackInProgress)
        } else if str_eq(s, "ROLLBACK_FAILED") {
            Ok(StackStatus::RollbackFailed)
        } else if str_eq(s, "ROLLBACK_COMPLETE") {
            Ok(StackStatus::RollbackComplete)
        } else if str_eq(s, "DELETE_IN_PROGRESS") {
            Ok(StackStatus::DeleteInProgress)
        } else if str_eq(s, "DELETE_FAILED") {
            Ok(StackStatus::DeleteFailed)
        } else if str_eq(s, "DELETE_COMPLETE") {
            Ok(StackStatus::DeleteComplete)
        } else if str_eq(s, "UPDATE_IN_PROGRESS") {
            Ok(StackStatus::UpdateInProgress)
        } else if str_eq(s, "UPDATE_COMPLETE_CLEANUP_IN_PROGRESS") {
            Ok(StackStatus::UpdateCompleteCleanupInProgress)
        } else if str_eq(s, "UPDATE_COMPLETE") {
            Ok(StackStatus::UpdateComplete)
        } else if str_eq(s, "UPDATE_FAILED") {
            Ok(StackStatus::UpdateFailed)
        } else if str_eq(s, "UPDATE_ROLLBACK_IN_PROGRESS") {
            Ok(StackStatus::UpdateRollbackInProgress)
        } else if str_eq(s, "UPDATE_ROLLBACK_FAILED") {
            Ok(StackStatus::UpdateRollbackFailed)
        } else if str_eq(s, "UPDATE_ROLLBACK_COMPLETE_CLEANUP_IN_PROGRESS") {
            Ok(StackStatus::UpdateRollbackCompleteCleanupInProgress)
        } else if str_eq(s, "UPDATE_ROLLBACK_COMPLETE") {
            Ok(StackStatus::UpdateRollbackComplete)
        } else if str_eq(s, "REVIEW_IN_PROGRESS") {
            Ok(StackStatus::ReviewInProgress)
        } else if str_eq(s, "IMPORT_IN_PROGRESS") {
            Ok(StackStatus::ImportInProgress)
        } else if str_eq(s, "IMPORT_COMPLETE") {
            Ok(StackStatus::ImportComplete)
        } else if str_eq(s, "IMPORT_ROLLBACK_IN_PROGRESS") {
            Ok(StackStatus::ImportRollbackInProgress)
        } else if str_eq(s, "IMPORT_ROLLBACK_FAILED") {
            Ok(StackStatus::ImportRollbackFailed)
        } else if str_eq(s, "IMPORT_ROLLBACK_COMPLETE") {
            Ok(StackStatus::ImportRollbackComplete)
        } else {
            Err(InvalidStatus { value: s.to_owned() })
        }
    }
}

impl Sealed for StackStatus {}

impl Status for StackStatus {
    open spec fn spec_settled(&self) -> bool {
        match *self {
            StackStatus::CreateInProgress
            | StackStatus::RollbackInProgress
            | StackStatus::DeleteInProgress
            | StackStatus::UpdateInProgress
            | StackStatus::UpdateCompleteCleanupInProgress
            | StackStatus::UpdateRollbackInProgress
            | StackStatus::UpdateRollbackCompleteCleanupInProgress
            | StackStatus::ReviewInProgress
            | StackStatus::ImportInProgress
            | StackStatus::ImportRollbackInProgress => false,
            StackStatus::CreateFailed
            | StackStatus::CreateComplete
            | StackStatus::RollbackFailed
            | StackStatus::RollbackComplete
            | StackStatus::DeleteFailed
            | StackStatus::DeleteComplete
            | StackStatus::UpdateComplete
            | StackStatus::UpdateFailed
            | StackStatus::UpdateRollbackFailed
            | StackStatus::UpdateRollbackComplete
            | StackStatus::ImportComplete
            | StackStatus::ImportRollbackFailed
            | StackStatus::ImportRollbackComplete => true,
        }
    }

    open spec fn spec_sentiment(&self) -> StatusSentiment {
        match *self {
            StackStatus::CreateComplete
            | StackStatus::DeleteComplete
            | StackStatus::UpdateComplete
            | StackStatus::ImportComplete => StatusSentiment::Positive,
            StackStatus::CreateInProgress
            | StackStatus::DeleteInProgress
            | StackStatus::UpdateInProgress
            | StackStatus::UpdateCompleteCleanupInProgress
            | StackStatus::ReviewInProgress
            | StackStatus::ImportInProgress => StatusSentiment::Neutral,
            StackStatus::CreateFailed
            | StackStatus::RollbackInProgress
            | StackStatus::RollbackFailed
            | StackStatus::RollbackComplete
            | StackStatus::DeleteFailed
            | StackStatus::UpdateFailed
            | StackStatus::UpdateRollbackInProgress
            | StackStatus::UpdateRollbackFailed
            | StackStatus::UpdateRollbackCompleteCleanupInProgress
            | StackStatus::UpdateRollbackComplete
            | StackStatus::ImportRollbackInProgress
            | StackStatus::ImportRollbackFailed
            | StackStatus::ImportRollbackComplete => StatusSentiment::Negative,
        }
    }

    fn is_settled(&self) -> (r: bool) {
        match *self {
            StackStatus::CreateInProgress
            | StackStatus::RollbackInProgress
            | StackStatus::DeleteInProgress
            | StackStatus::UpdateInProgress
            | StackStatus::UpdateCompleteCleanupInProgress
            | StackStatus::UpdateRollbackInProgress
            | StackStatus::UpdateRollbackCompleteCleanupInProgress
            | StackStatus::ReviewInProgress
            | StackStatus::ImportInProgress
            | StackStatus::ImportRollbackInProgress => false,
            StackStatus::CreateFailed
            | StackStatus::CreateComplete
            | StackStatus::RollbackFailed
            | StackStatus::RollbackComplete
            | StackStatus::DeleteFailed
            | StackStatus::DeleteComplete
            | StackStatus::UpdateComplete
            | StackStatus::UpdateFailed
            | StackStatus::UpdateRollbackFailed
            | StackStatus::UpdateRollbackComplete
            | StackStatus::ImportComplete
            | StackStatus::ImportRollbackFailed
            | StackStatus::ImportRollbackComplete => true,
        }
    }

    fn sentiment(&self) -> (r: StatusSentiment) {
        match *self {
            StackStatus::CreateComplete
            | StackStatus::DeleteComplete
            | StackStatus::UpdateComplete
            | StackStatus::ImportComplete => StatusSentiment::Positive,
            StackStatus::CreateInProgress
            | StackStatus::DeleteInProgress
            | StackStatus::UpdateInProgress
            | StackStatus::UpdateCompleteCleanupInProgress
            | StackStatus::ReviewInProgress
            | StackStatus::ImportInProgress => StatusSentiment::Neutral,
            StackStatus::CreateFailed
            | StackStatus::RollbackInProgress
            | StackStatus::RollbackFailed
            | StackStatus::RollbackComplete
            | StackStatus::DeleteFailed
            | StackStatus::UpdateFailed
            | StackStatus::UpdateRollbackInProgress
            | StackStatus::UpdateRollbackFailed
            | StackStatus::UpdateRollbackCompleteCleanupInProgress
            | StackStatus::UpdateRollbackComplete
            | StackStatus::ImportRollbackInProgress
            | StackStatus::ImportRollbackFailed
            | StackStatus::ImportRollbackComplete => StatusSentiment::Negative,
        }
    }
}

/// Possible resource statuses.
#[derive(Clone, Copy, Debug, PartialEq, Eq, Structural)]
pub enum ResourceStatus {
    CreateInProgress,
    CreateFailed,
    CreateComplete,
    DeleteInProgress,
    DeleteFailed,
    DeleteComplete,
    DeleteSkipped,
    UpdateInProgress,
    UpdateFailed,
    UpdateComplete,
    ImportFailed,
    ImportComplete,
    ImportInProgress,
    ImportRollbackInProgress,
    ImportRollbackFailed,
    ImportRollbackComplete,
}

impl ResourceStatus {
    /// The status with the given wire representation, if any.
    pub open spec fn of_str(s: Seq<char>) -> Option<ResourceStatus> {
        if s == "CREATE_IN_PROGRESS"@ {
            Some(ResourceStatus::CreateInProgress)
        } else if s == "CREATE_FAILED"@ {
            Some(ResourceStatus::CreateFailed)
        } else if s == "CREATE_COMPLETE"@ {
            Some(ResourceStatus::CreateComplete)
        } else if s == "DELETE_IN_PROGRESS"@ {
            Some(ResourceStatus::DeleteInProgress)
        } else if s == "DELETE_FAILED"@ {
            Some(ResourceStatus::DeleteFailed)
        } else if s == "DELETE_COMPLETE"@ {
            Some(ResourceStatus::DeleteComplete)
        } else if s == "DELETE_SKIPPED"@ {
            Some(ResourceStatus::DeleteSkipped)
        } else if s == "UPDATE_IN_PROGRESS"@ {
            Some(ResourceStatus::UpdateInProgress)
        } else if s == "UPDATE_FAILED"@ {
            Some(ResourceStatus::UpdateFailed)
        } else if s == "UPDATE_COMPLETE"@ {
            Some(ResourceStatus::UpdateComplete)
        } else if s == "IMPORT_FAILED"@ {
            Some(ResourceStatus::ImportFailed)
        } else if s == "IMPORT_COMPLETE"@ {
            Some(ResourceStatus::ImportComplete)
        } else if s == "IMPORT_IN_PROGRESS"@ {
            Some(ResourceStatus::ImportInProgress)
        } else if s == "IMPORT_ROLLBACK_IN_PROGRESS"@ {
            Some(ResourceStatus::ImportRollbackInProgress)
        } else if s == "IMPORT_ROLLBACK_FAILED"@ {
            Some(ResourceStatus::ImportRollbackFailed)
        } else if s == "IMPORT_ROLLBACK_COMPLETE"@ {
            Some(ResourceStatus::ImportRollbackComplete)
        } else {
            None
        }
    }

    /// The wire representation of the status.
    pub open spec fn spec_str(self) -> Seq<char> {
        match self {
            ResourceStatus::CreateInProgress => "CREATE_IN_PROGRESS"@,
            ResourceStatus::CreateFailed => "CREATE_FAILED"@,
            ResourceStatus::CreateComplete => "CREATE_COMPLETE"@,
            ResourceStatus::DeleteInProgress => "DELETE_IN_PROGRESS"@,
            ResourceStatus::DeleteFailed => "DELETE_FAILED"@,
            ResourceStatus::DeleteComplete => "DELETE_COMPLETE"@,
            ResourceStatus::DeleteSkipped => "DELETE_SKIPPED"@,
            ResourceStatus::UpdateInProgress => "UPDATE_IN_PROGRESS"@,
            ResourceStatus::UpdateFailed => "UPDATE_FAILED"@,
            ResourceStatus::UpdateComplete => "UPDATE_COMPLETE"@,
            ResourceStatus::ImportFailed => "IMPORT_FAILED"@,
            ResourceStatus::ImportComplete => "IMPORT_COMPLETE"@,
            ResourceStatus::ImportInProgress => "IMPORT_IN_PROGRESS"@,
            ResourceStatus::ImportRollbackInProgress => "IMPORT_ROLLBACK_IN_PROGRESS"@,
            ResourceStatus::ImportRollbackFailed => "IMPORT_ROLLBACK_FAILED"@,
            ResourceStatus::ImportRollbackComplete => "IMPORT_ROLLBACK_COMPLETE"@,
        }
    }

    /// The wire representation of the status.
    pub fn to_str(self) -> (r: &'static str)
        ensures
            r@ == self.spec_str(),
    {
        match self {
            ResourceStatus::CreateInProgress => "CREATE_IN_PROGRESS",
            ResourceStatus::CreateFailed => "CREATE_FAILED",
            ResourceStatus::CreateComplete => "CREATE_COMPLETE",
            ResourceStatus::DeleteInProgress => "DELETE_IN_PROGRESS",
            ResourceStatus::DeleteFailed => "DELETE_FAILED",
            ResourceStatus::DeleteComplete => "DELETE_COMPLETE",
            ResourceStatus::DeleteSkipped => "DELETE_SKIPPED",
            ResourceStatus::UpdateInProgress => "UPDATE_IN_PROGRESS",
            ResourceStatus::UpdateFailed => "UPDATE_FAILED",
            ResourceStatus::UpdateComplete => "UPDATE_COMPLETE",
            ResourceStatus::ImportFailed => "IMPORT_FAILED",
            ResourceStatus::ImportComplete => "IMPORT_COMPLETE",
            ResourceStatus::ImportInProgress => "IMPORT_IN_PROGRESS",
            ResourceStatus::ImportRollbackInProgress => "IMPORT_ROLLBACK_IN_PROGRESS",
            ResourceStatus::ImportRollbackFailed => "IMPORT_ROLLBACK_FAILED",
            ResourceStatus::ImportRollbackComplete => "IMPORT_ROLLBACK_COMPLETE",
        }
    }

    /// Parse a status from its wire representation.
    ///
    /// Fails with [`InvalidStatus`] on any value outside the closed set.
    pub fn parse_str(s: &str) -> (r: Result<ResourceStatus, InvalidStatus>)
        ensures
            match ResourceStatus::of_str(s@) {
                Some(status) => r == Ok::<ResourceStatus, InvalidStatus>(status),
                None => r matches Err(e) && e.value@ == s@,
            },
    {
        if str_eq(s, "CREATE_IN_PROGRESS") {
            Ok(ResourceStatus::CreateInProgress)
        } else if str_eq(s, "CREATE_FAILED") {
            Ok(ResourceStatus::CreateFailed)
        } else if str_eq(s, "CREATE_COMPLETE") {
            Ok(ResourceStatus::CreateComplete)
        } else if str_eq(s, "DELETE_IN_PROGRESS") {
            Ok(ResourceStatus::DeleteInProgress)
        } else if str_eq(s, "DELETE_FAILED") {
            Ok(ResourceStatus::DeleteFailed)
        } else if str_eq(s, "DELETE_COMPLETE") {
            Ok(ResourceStatus::DeleteComplete)
        } else if str_eq(s, "DELETE_SKIPPED") {
            Ok(ResourceStatus::DeleteSkipped)
        } else if str_eq(s, "UPDATE_IN_PROGRESS") {
            Ok(ResourceStatus::UpdateInProgress)
        } else if str_eq(s, "UPDATE_FAILED") {
            Ok(ResourceStatus::UpdateFailed)
        } else if str_eq(s, "UPDATE_COMPLETE") {
            Ok(ResourceStatus::UpdateComplete)
        } else if str_eq(s, "IMPORT_FAILED") {
            Ok(ResourceStatus::ImportFailed)
        } else if str_eq(s, "IMPORT_COMPLETE") {
            Ok(ResourceStatus::ImportComplete)
        } else if str_eq(s, "IMPORT_IN_PROGRESS") {
            Ok(ResourceStatus::ImportInProgress)
        } else if str_eq(s, "IMPORT_ROLLBACK_IN_PROGRESS") {
            Ok(ResourceStatus::ImportRollbackInProgress)
        } else if str_eq(s, "IMPORT_ROLLBACK_FAILED") {
            Ok(ResourceStatus::ImportRollbackFailed)
        } else if str_eq(s, "IMPORT_ROLLBACK_COMPLETE") {
            Ok(ResourceStatus::ImportRollbackComplete)
        } else {
            Err(InvalidStatus { value: s.to_owned() })
        }
    }
}

impl Sealed for ResourceStatus {}

impl Status for ResourceStatus {
    open spec fn spec_settled(&self) -> bool {
        match *self {
            ResourceStatus::CreateInProgress
            | ResourceStatus::DeleteInProgress
            | ResourceStatus::UpdateInProgress
            | ResourceStatus::ImportInProgress
            | ResourceStatus::ImportRollbackInProgress => false,
            ResourceStatus::CreateFailed
            | ResourceStatus::CreateComplete
            | ResourceStatus::DeleteFailed
            | ResourceStatus::DeleteComplete
            | ResourceStatus::DeleteSkipped
            | ResourceStatus::UpdateFailed
            | ResourceStatus::UpdateComplete
            | ResourceStatus::ImportFailed
            | ResourceStatus::ImportComplete
            | ResourceStatus::ImportRollbackFailed
            | ResourceStatus::ImportRollbackComplete => true,
        }
    }

    open spec fn spec_sentiment(&self) -> StatusSentiment {
        match *self {
            ResourceStatus::CreateComplete
            | ResourceStatus::DeleteComplete
            | ResourceStatus::UpdateComplete
            | ResourceStatus::ImportComplete => StatusSentiment::Positive,
            ResourceStatus::CreateInProgress
            | ResourceStatus::DeleteInProgress
            | ResourceStatus::DeleteSkipped
            | ResourceStatus::UpdateInProgress
            | ResourceStatus::ImportInProgress => StatusSentiment::Neutral,
            ResourceStatus::CreateFailed
            | ResourceStatus::DeleteFailed
            | ResourceStatus::UpdateFailed
            | ResourceStatus::ImportFailed
            | ResourceStatus::ImportRollbackInProgress
            | ResourceStatus::ImportRollbackFailed
            | ResourceStatus::ImportRollbackComplete => StatusSentiment::Negative,
        }
    }

    fn is_settled(&self) -> (r: bool) {
        match *self {
            ResourceStatus::CreateInProgress
            | ResourceStatus::DeleteInProgress
            | ResourceStatus::UpdateInProgress
            | ResourceStatus::ImportInProgress
            | ResourceStatus::ImportRollbackInProgress => false,
            ResourceStatus::CreateFailed
            | ResourceStatus::CreateComplete
            | ResourceStatus::DeleteFailed
            | ResourceStatus::DeleteComplete
            | ResourceStatus::DeleteSkipped
            | ResourceStatus::UpdateFailed
            | ResourceStatus::UpdateComplete
            | ResourceStatus::ImportFailed
            | ResourceStatus::ImportComplete
            | ResourceStatus::ImportRollbackFailed
            | ResourceStatus::ImportRollbackComplete => true,
        }
    }

    fn sentiment(&self) -> (r: StatusSentiment) {
        match *self {
            ResourceStatus::CreateComplete
            | ResourceStatus::DeleteComplete
            | ResourceStatus::UpdateComplete
            | ResourceStatus::ImportComplete => StatusSentiment::Positive,
            ResourceStatus::CreateInProgress
            | ResourceStatus::DeleteInProgress
            | ResourceStatus::DeleteSkipped
            | ResourceStatus::UpdateInProgress
            | ResourceStatus::ImportInProgress => StatusSentiment::Neutral,
            ResourceStatus::CreateFailed
            | ResourceStatus::DeleteFailed
            | ResourceStatus::UpdateFailed
            | ResourceStatus::ImportFailed
            | ResourceStatus::ImportRollbackInProgress
            | ResourceStatus::ImportRollbackFailed
            | ResourceStatus::ImportRollbackComplete => StatusSentiment::Negative,
        }
    }
}

/// A stack status that blocks new operations on the stack until it is
/// resolved by some other means.
///
/// A stack in one of these statuses rejects both change-set creation and
/// change-set execution; the condition is recoverable by the caller
/// (by waiting or repairing the stack) rather than a deployment failure.
#[derive(Clone, Copy, Debug, PartialEq, Eq, Structural)]
pub enum BlockedStackStatus {
    CreateFailed,
    DeleteFailed,
    RollbackFailed,
    UpdateFailed,
    UpdateRollbackFailed,
}

impl BlockedStackStatus {
    /// The blocked status corresponding to the given stack status, if the
    /// stack status forbids new operations.
    pub open spec fn of_stack_status(status: StackStatus) -> Option<BlockedStackStatus> {
        match status {
            StackStatus::CreateFailed => Some(BlockedStackStatus::CreateFailed),
            StackStatus::DeleteFailed => Some(BlockedStackStatus::DeleteFailed),
            StackStatus::RollbackFailed => Some(BlockedStackStatus::RollbackFailed),
            StackStatus::UpdateFailed => Some(BlockedStackStatus::UpdateFailed),
            StackStatus::UpdateRollbackFailed => Some(BlockedStackStatus::UpdateRollbackFailed),
            _ => None,
        }
    }

    /// Classify a stack status as blocked, if it forbids new operations.
    pub fn try_from(status: StackStatus) -> (r: Option<BlockedStackStatus>)
        ensures
            r == BlockedStackStatus::of_stack_status(status),
    {
        match status {
            StackStatus::CreateFailed => Some(BlockedStackStatus::CreateFailed),
            StackStatus::DeleteFailed => Some(BlockedStackStatus::DeleteFailed),
            StackStatus::RollbackFailed => Some(BlockedStackStatus::RollbackFailed),
            StackStatus::UpdateFailed => Some(BlockedStackStatus::UpdateFailed),
            StackStatus::UpdateRollbackFailed => Some(BlockedStackStatus::UpdateRollbackFailed),
            _ => None,
        }
    }

    /// The stack status this blocked status stands for.
    pub open spec fn spec_stack_status(self) -> StackStatus {
        match self {
            BlockedStackStatus::CreateFailed => StackStatus::CreateFailed,
            BlockedStackStatus::DeleteFailed => StackStatus::DeleteFailed,
            BlockedStackStatus::RollbackFailed => StackStatus::RollbackFailed,
            BlockedStackStatus::UpdateFailed => StackStatus::UpdateFailed,
            BlockedStackStatus::UpdateRollbackFailed => StackStatus::UpdateRollbackFailed,
        }
    }

    /// The stack status this blocked status stands for.
    pub fn as_stack_status(self) -> (r: StackStatus)
        ensures
            r == self.spec_stack_status(),
            BlockedStackStatus::of_stack_status(r) == Some(self),
    {
        match self {
            BlockedStackStatus::CreateFailed => StackStatus::CreateFailed,
            BlockedStackStatus::DeleteFailed => StackStatus::DeleteFailed,
            BlockedStackStatus::RollbackFailed => StackStatus::RollbackFailed,
            BlockedStackStatus::UpdateFailed => StackStatus::UpdateFailed,
            BlockedStackStatus::UpdateRollbackFailed => StackStatus::UpdateRollbackFailed,
        }
    }
}

impl core::str::FromStr for ChangeSetStatus {
    type Err = InvalidStatus;

    fn from_str(s: &str) -> Result<ChangeSetStatus, InvalidStatus> {
        ChangeSetStatus::parse_str(s)
    }
}

impl core::str::FromStr for StackStatus {
    type Err = InvalidStatus;

    fn from_str(s: &str) -> Result<StackStatus, InvalidStatus> {
        StackStatus::parse_str(s)
    }
}

impl core::str::FromStr for ResourceStatus {
    type Err = InvalidStatus;

    fn from_str(s: &str) -> Result<ResourceStatus, InvalidStatus> {
        ResourceStatus::parse_str(s)
    }
}

/// Every settled status carries a definite outcome: no status in the
/// closed stack-status set is both settled and neutral.
pub proof fn lemma_settled_stack_status_is_conclusive(status: StackStatus)
    ensures
        status.spec_settled() ==> status.spec_sentiment() != StatusSentiment::Neutral,
{
}

/// Every settled change-set status carries a definite outcome: no status
/// in the closed change-set-status set is both settled and neutral.
pub proof fn lemma_settled_change_set_status_is_conclusive(status: ChangeSetStatus)
    ensures
        status.spec_settled() ==> status.spec_sentiment() != StatusSentiment::Neutral,
{
}

/// Every settled resource status but `DELETE_SKIPPED` carries a definite
/// outcome.  `DELETE_SKIPPED` is the one settled status in the closed
/// resource-status set whose sentiment is neutral: the resource was
/// deliberately retained, which is neither a success nor a failure of
/// the resource itself.
pub proof fn lemma_settled_resource_status_is_conclusive(status: ResourceStatus)
    ensures
        status.spec_settled() && status != ResourceStatus::DeleteSkipped
            ==> status.spec_sentiment() != StatusSentiment::Neutral,
{
}

} // verus!
