//! The `delete_stack` operation: delete a stack if it exists, tracking
//! the deletion to completion.

use vstd::prelude::*;
use vstd::pervasive::unreached;

use crate::event::StackEvent;
use crate::stack::{
    OperationKind, StackFailure, StackFailureView, StackOperation, StackOperationError,
    StackOperationView, StackWarning, StackWarningView, UnexpectedStatus, pages_views,
    spec_process_cycle, views_of, newest_first,
};
use crate::status::StackStatus;
use crate::text;

verus! {

/// The input for the `delete_stack` operation.
///
/// Construct one via [`new`](Self::new); setters make sparse
/// construction ergonomic.
#[derive(Clone, Debug)]
pub struct DeleteStackInput {
    /// A unique identifier for this `delete_stack` operation, used by the
    /// remote system to recognise retries of the same request.
    pub client_request_token: Option<String>,

    /// For stacks in the `DELETE_FAILED` state, the logical IDs of the
    /// resources to retain: the stack is deleted but the retained
    /// resources are not.
    pub retain_resources: Option<Vec<String>>,

    /// The ARN of an IAM role the remote system assumes to delete the
    /// stack.
    pub role_arn: Option<String>,

    /// The name or unique ID of the stack.
    pub stack_name: String,
}

impl DeleteStackInput {
    /// Construct an input for the given `stack_name`.
    pub fn new(stack_name: String) -> (r: Self)
        ensures
            r.stack_name@ == stack_name@,
            r.client_request_token is None,
            r.retain_resources is None,
            r.role_arn is None,
    {
        DeleteStackInput {
            stack_name,
            client_request_token: None,
            retain_resources: None,
            role_arn: None,
        }
    }

    /// Set the value for `client_request_token`.
    ///
    /// **Note:** this consumes and returns `self` for chaining.
    pub fn set_client_request_token(self, client_request_token: String) -> (r: Self)
        ensures
            r == (DeleteStackInput { client_request_token: Some(client_request_token), ..self }),
    {
        DeleteStackInput { client_request_token: Some(client_request_token), ..self }
    }

    /// Set the value for `retain_resources`.
    ///
    /// **Note:** this consumes and returns `self` for chaining.
    pub fn set_retain_resources(self, retain_resources: Vec<String>) -> (r: Self)
        ensures
            r == (DeleteStackInput { retain_resources: Some(retain_resources), ..self }),
    {
        DeleteStackInput { retain_resources: Some(retain_resources), ..self }
    }

    /// Set the value for `role_arn`.
    ///
    /// **Note:** this consumes and returns `self` for chaining.
    pub fn set_role_arn(self, role_arn: String) -> (r: Self)
        ensures
            r == (DeleteStackInput { role_arn: Some(role_arn), ..self }),
    {
        DeleteStackInput { role_arn: Some(role_arn), ..self }
    }
}

/// Errors emitted by a `delete_stack` operation.
#[derive(Debug, PartialEq, Eq)]
pub enum DeleteStackError {
    /// A CloudFormation API call failed; this carries its message.
    CloudFormationApi(String),

    /// The delete stack operation failed.
    Failure(StackFailure),

    /// The delete stack operation succeeded with warnings.
    Warning(StackWarning),
}

/// The rendered description of a [`DeleteStackError`].
pub open spec fn spec_delete_error_message(error: DeleteStackError) -> Seq<char> {
    match error {
        DeleteStackError::CloudFormationApi(message) => "CloudFormation API error: "@ + message@,
        DeleteStackError::Failure(failure) => crate::stack::spec_failure_message(failure@),
        DeleteStackError::Warning(warning) => crate::stack::spec_warning_message(warning@),
    }
}

impl DeleteStackError {
    /// Render the error as text.
    pub fn message(&self) -> (r: String)
        ensures
            r@ == spec_delete_error_message(*self),
    {
        match self {
            DeleteStackError::CloudFormationApi(message) => {
                let mut rendered = "CloudFormation API error: ".to_owned();
                rendered.append(message.as_str());
                rendered
            },
            DeleteStackError::Failure(failure) => failure.message(),
            DeleteStackError::Warning(warning) => warning.message(),
        }
    }
}

/// Whether a describe error's response body reports that the stack does
/// not exist — a valid, successful outcome for deletion.
pub open spec fn spec_not_exists(body: Seq<char>) -> bool {
    text::contains_sub(body, "does not exist"@)
}

/// Whether a describe error's response body says the stack does not
/// exist.
pub fn is_not_exists(body: &str) -> (r: bool)
    ensures
        r == spec_not_exists(body@),
{
    text::str_contains(body, "does not exist")
}

/// The idempotency short-circuit of deletion: a stack that cannot be
/// described (it does not exist) or that already reports the terminal
/// delete status needs no work; any other described stack is deleted,
/// with its id retained for the evidence.
pub open spec fn spec_delete_precheck(
    described: Option<(Seq<char>, StackStatus)>,
) -> Option<Seq<char>> {
    match described {
        None => None,
        Some((stack_id, status)) => if status == StackStatus::DeleteComplete {
            None
        } else {
            Some(stack_id)
        },
    }
}

/// Where a `delete_stack` operation stands.
#[derive(Clone, Copy, Debug, PartialEq, Eq, Structural)]
pub enum DeletePhase {
    /// The initial describe call is being made.
    DescribingStack,

    /// The delete call is being made.
    Deleting,

    /// The stack's events are being tracked until the deletion settles.
    Tracking,

    /// The operation has concluded and the outcome is cached.
    Complete,
}

/// The next remote call a `delete_stack` operation asks its driver to
/// make.
#[derive(Clone, Copy, Debug, PartialEq, Eq, Structural)]
pub enum DeleteAction {
    /// Call `DescribeStacks` for the stack's id and status.
    DescribeStack,

    /// Call `DeleteStack`.
    DeleteStack,

    /// Fetch the event pages for the operation's stack ids, after the
    /// polling interval.
    PollEvents,

    /// Nothing is left to do: the outcome is cached.
    Finished,
}

/// An ongoing `delete_stack` operation, as an explicit state machine.
///
/// The driver makes the remote calls this machine asks for through
/// [`DeleteAction`] and feeds their outcomes back; the machine makes
/// every decision.  Deleting a stack that does not exist, or that has
/// already reported the terminal delete status, succeeds immediately
/// with an empty event sequence.
#[derive(Debug)]
pub struct DeleteStack {
    /// Where the operation stands.
    pub phase: DeletePhase,

    /// The id of the stack being deleted, retained from the initial
    /// describe so the evidence can name it even after the stack is
    /// gone.
    pub stack_id: Option<String>,

    /// The event tracker, while the deletion is being tracked.
    pub operation: Option<StackOperation>,

    /// The cached outcome, set exactly once when the operation
    /// concludes.
    pub outcome: Option<Result<(), DeleteStackError>>,
}

impl DeleteStack {
    /// Start a `delete_stack` operation.  The first action is to
    /// describe the stack.
    pub fn new() -> (r: DeleteStack)
        ensures
            r.phase == DeletePhase::DescribingStack,
            r.stack_id is None,
            r.operation is None,
            r.outcome is None,
    {
        DeleteStack {
            phase: DeletePhase::DescribingStack,
            stack_id: None,
            operation: None,
            outcome: None,
        }
    }

    /// Feed the outcome of the initial describe call: the stack's id and
    /// status, or `None` when the stack does not exist (the driver
    /// recognises that case with [`is_not_exists`]).
    ///
    /// A missing stack, or one already in the terminal delete status,
    /// concludes immediately with success; otherwise the delete call is
    /// issued.
    pub fn on_stack_described(&mut self, described: Option<(String, StackStatus)>) -> (r:
        DeleteAction)
        requires
            old(self).phase == DeletePhase::DescribingStack,
            old(self).outcome is None,
        ensures
            final(self).operation == old(self).operation,
            ({
                let precheck = spec_delete_precheck(match described {
                    Some((id, status)) => Some((id@, status)),
                    None => None::<(Seq<char>, StackStatus)>,
                });
                match precheck {
                    None => {
                        &&& r == DeleteAction::Finished
                        &&& final(self).phase == DeletePhase::Complete
                        &&& final(self).outcome == Some(Ok::<(), DeleteStackError>(()))
                    },
                    Some(stack_id) => {
                        &&& r == DeleteAction::DeleteStack
                        &&& final(self).phase == DeletePhase::Deleting
                        &&& final(self).stack_id matches Some(id) && id@ == stack_id
                        &&& final(self).outcome is None
                    },
                }
            }),
    {
        match described {
            None => {
                self.phase = DeletePhase::Complete;
                self.outcome = Some(Ok(()));
                DeleteAction::Finished
            },
            Some((stack_id, status)) => {
                if status == StackStatus::DeleteComplete {
                    self.phase = DeletePhase::Complete;
                    self.outcome = Some(Ok(()));
                    DeleteAction::Finished
                } else {
                    self.stack_id = Some(stack_id);
                    self.phase = DeletePhase::Deleting;
                    DeleteAction::DeleteStack
                }
            },
        }
    }

    /// Feed the outcome of the `DeleteStack` call, and the time the
    /// deletion started (milliseconds since the epoch).
    ///
    /// On success the event tracker starts, with the deletion progress
    /// classifier.
    pub fn on_delete_result(&mut self, result: Result<(), &str>, started_at: i64) -> (r:
        DeleteAction)
        requires
            old(self).phase == DeletePhase::Deleting,
            old(self).stack_id is Some,
            old(self).outcome is None,
        ensures
            final(self).stack_id == old(self).stack_id,
            match result {
                Ok(_) => {
                    &&& r == DeleteAction::PollEvents
                    &&& final(self).phase == DeletePhase::Tracking
                    &&& final(self).operation matches Some(op) && op@ == (StackOperationView {
                        stack_id: (old(self).stack_id->0)@,
                        kind: OperationKind::Delete,
                        since: started_at as int,
                        aliases: Seq::empty(),
                        error_status: None,
                        error_reason: None,
                        resource_errors: Seq::empty(),
                        done: false,
                    })
                    &&& final(self).outcome is None
                },
                Err(msg) => {
                    &&& r == DeleteAction::Finished
                    &&& final(self).phase == DeletePhase::Complete
                    &&& final(self).outcome matches Some(Err(DeleteStackError::CloudFormationApi(
                        m,
                    ))) && m@ == msg@
                },
            },
    {
        match result {
            Ok(_) => {
                let stack_id = match &self.stack_id {
                    Some(id) => id.clone(),
                    None => unreached(),
                };
                self.operation = Some(
                    StackOperation::new(stack_id, started_at, OperationKind::Delete),
                );
                self.phase = DeletePhase::Tracking;
                DeleteAction::PollEvents
            },
            Err(msg) => {
                self.phase = DeletePhase::Complete;
                self.outcome = Some(Err(DeleteStackError::CloudFormationApi(msg.to_owned())));
                DeleteAction::Finished
            },
        }
    }

    /// Feed one cycle of event pages fetched for the operation's stack
    /// ids (each page newest-first).  Returns the attributed events to
    /// deliver to any observer, in chronological order.
    pub fn on_event_pages(&mut self, pages: Vec<Vec<StackEvent>>) -> (r: Result<
        Vec<StackEvent>,
        UnexpectedStatus,
    >)
        requires
            old(self).phase == DeletePhase::Tracking,
            old(self).operation is Some,
            forall|p: int| 0 <= p < pages@.len() ==> newest_first(views_of(#[trigger] pages@[p]@)),
        ensures
            final(self).phase == old(self).phase,
            final(self).stack_id == old(self).stack_id,
            final(self).outcome == old(self).outcome,
            match r {
                Ok(out) => spec_process_cycle(old(self).operation->0@, pages_views(pages@))
                    matches Some(p) && final(self).operation matches Some(op) && op@ == p.0
                    && views_of(out@) == p.1,
                Err(_) => spec_process_cycle(old(self).operation->0@, pages_views(pages@))
                    is None,
            },
    {
        let operation = match &mut self.operation {
            Some(operation) => operation,
            None => unreached(),
        };
        operation.process_cycle(pages)
    }

    /// Decide what follows the last cycle of events: keep polling while
    /// the deletion has not settled; once it has, resolve the evidence
    /// into the outcome.  No final describe is needed — the absence of
    /// the stack *is* success — so the evidence names the stack by the
    /// id retained from the initial describe.
    pub fn next_after_events(&mut self) -> (r: DeleteAction)
        requires
            old(self).phase == DeletePhase::Tracking,
            old(self).operation is Some,
            old(self).outcome is None,
        ensures
            final(self).stack_id == old(self).stack_id,
            ({
                let op = old(self).operation->0@;
                if !op.done {
                    &&& r == DeleteAction::PollEvents
                    &&& *final(self) == *old(self)
                } else {
                    &&& r == DeleteAction::Finished
                    &&& final(self).phase == DeletePhase::Complete
                    &&& match op.error_status {
                        Some(status) => final(self).outcome matches Some(Err(
                            DeleteStackError::Failure(f),
                        )) && f@ == (StackFailureView {
                            stack_id: op.stack_id,
                            stack_status: status,
                            stack_status_reason: match op.error_reason {
                                Some(reason) => reason,
                                None => Seq::empty(),
                            },
                            resource_events: op.resource_errors,
                        }),
                        None => if op.resource_errors.len() == 0 {
                            final(self).outcome == Some(Ok::<(), DeleteStackError>(()))
                        } else {
                            final(self).outcome matches Some(Err(DeleteStackError::Warning(w)))
                                && w@ == (StackWarningView {
                                stack_id: op.stack_id,
                                resource_events: op.resource_errors,
                            })
                        },
                    }
                }
            }),
    {
        let done = match &self.operation {
            Some(operation) => operation.is_done(),
            None => unreached(),
        };
        if !done {
            return DeleteAction::PollEvents;
        }
        let operation = match self.operation.take() {
            Some(operation) => operation,
            None => unreached(),
        };
        self.phase = DeletePhase::Complete;
        match operation.verify() {
            Ok(_) => {
                self.outcome = Some(Ok(()));
            },
            Err(StackOperationError::Failure(failure)) => {
                self.outcome = Some(Err(DeleteStackError::Failure(failure)));
            },
            Err(StackOperationError::Warning(warning)) => {
                self.outcome = Some(Err(DeleteStackError::Warning(warning)));
            },
        }
        DeleteAction::Finished
    }

    /// Whether the operation has concluded and cached its outcome.
    pub fn is_finished(&self) -> (r: bool)
        ensures
            r == (self.phase == DeletePhase::Complete),
    {
        match self.phase {
            DeletePhase::Complete => true,
            _ => false,
        }
    }

    /// The cached outcome, once the operation has concluded.
    pub fn into_outcome(self) -> (r: Option<Result<(), DeleteStackError>>)
        ensures
            r == self.outcome,
    {
        self.outcome
    }
}

} // verus!
