//! A client-side orchestration engine for long-running CloudFormation stack
//! operations.
//!
//! The library turns CloudFormation's raw polling/event model into coherent
//! `apply_stack` (create-or-update) and `delete_stack` operations with
//! progress observation, idempotency and a precise error taxonomy.  All of
//! the decision logic — status classification, change-set negotiation,
//! event-stream tracking with nested-stack aliasing, and outcome
//! classification — lives here and is verified; the surrounding process
//! (the AWS SDK calls, the timers) drives these state machines from outside.

mod apply;
pub mod change_set;
mod delete;
mod event;
mod stack;
mod status;
pub mod status_reason;
mod tag;
mod text;

pub use apply::{
    change_set_name, operation_kind, ApplyAction, ApplyPhase, ApplyStack, ApplyStackError,
    ApplyStackInput, ApplyStackOutput, Capability, Parameter, StackOutput, TemplateSource,
    UnexpectedChangeSetStatus,
};
pub use delete::{
    is_not_exists, DeleteAction, DeletePhase, DeleteStack, DeleteStackError, DeleteStackInput,
};
pub use event::{StackEvent, StackEventDetails};
pub use stack::{
    check_create_progress, check_operation_status, check_update_progress, OperationKind,
    StackFailure, StackOperation, StackOperationError, StackOperationStatus, StackWarning,
    UnexpectedStatus,
};
pub use tag::Tag;

pub use status::{
    BlockedStackStatus, ChangeSetStatus, InvalidStatus, ResourceStatus, Sealed, StackStatus,
    Status, StatusSentiment,
};
