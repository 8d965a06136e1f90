//! The `apply_stack` operation: create a stack or update it, through a
//! negotiated change set, and classify the outcome.

use vstd::prelude::*;
use vstd::pervasive::unreached;

use crate::change_set::{
    ChangeSet, ChangeSetNegotiation, ChangeSetType, CreateStep, PollStep,
    spec_classify_settlement, spec_execute_blocked, spec_on_create_error,
};
use crate::stack::{
    OperationKind, StackFailure, StackFailureView, StackOperation, StackOperationError,
    StackOperationView, StackWarning, StackWarningView, UnexpectedStatus, pages_views,
    spec_process_cycle, views_of, newest_first,
};
use crate::event::StackEvent;
use crate::status::{BlockedStackStatus, ChangeSetStatus, InvalidStatus, StackStatus};
use crate::tag::Tag;
use crate::text;

verus! {

/// A capability that must be explicitly acknowledged for the stack
/// template to be applied, such as the ability to affect IAM permissions
/// or to expand macros.
#[derive(Clone, Copy, Debug, PartialEq, Eq, Structural)]
pub enum Capability {
    /// Acknowledge IAM resources (*without* custom names only).
    Iam,

    /// Acknowledge IAM resources (with or without custom names).
    NamedIam,

    /// Acknowledge macro expansion.
    AutoExpand,
}

impl Capability {
    /// The capability with the given wire representation, if any.
    pub open spec fn of_str(s: Seq<char>) -> Option<Capability> {
        if s == "CAPABILITY_IAM"@ {
            Some(Capability::Iam)
        } else if s == "CAPABILITY_NAMED_IAM"@ {
            Some(Capability::NamedIam)
        } else if s == "CAPABILITY_AUTO_EXPAND"@ {
            Some(Capability::AutoExpand)
        } else {
            None
        }
    }

    /// The wire representation of the capability.
    pub open spec fn spec_str(self) -> Seq<char> {
        match self {
            Capability::Iam => "CAPABILITY_IAM"@,
            Capability::NamedIam => "CAPABILITY_NAMED_IAM"@,
            Capability::AutoExpand => "CAPABILITY_AUTO_EXPAND"@,
        }
    }

    /// The wire representation of the capability.
    pub fn to_str(self) -> (r: &'static str)
        ensures
            r@ == self.spec_str(),
    {
        match self {
            Capability::Iam => "CAPABILITY_IAM",
            Capability::NamedIam => "CAPABILITY_NAMED_IAM",
            Capability::AutoExpand => "CAPABILITY_AUTO_EXPAND",
        }
    }

    /// Parse a capability from its wire representation.
    pub fn parse_str(s: &str) -> (r: Result<Capability, InvalidStatus>)
        ensures
            match Capability::of_str(s@) {
                Some(capability) => r == Ok::<Capability, InvalidStatus>(capability),
                None => r matches Err(e) && e.value@ == s@,
            },
    {
        if text::str_eq(s, "CAPABILITY_IAM") {
            Ok(Capability::Iam)
        } else if text::str_eq(s, "CAPABILITY_NAMED_IAM") {
            Ok(Capability::NamedIam)
        } else if text::str_eq(s, "CAPABILITY_AUTO_EXPAND") {
            Ok(Capability::AutoExpand)
        } else {
            Err(InvalidStatus { value: s.to_owned() })
        }
    }
}

/// An input parameter for an `apply_stack` operation.
///
/// Note that, unlike when directly updating a stack, it is not possible
/// to reuse previous values of parameters.
#[derive(Debug, PartialEq, Eq)]
pub struct Parameter {
    /// The key associated with the parameter.
    pub key: String,

    /// The input value associated with the parameter.
    pub value: String,
}

impl Clone for Parameter {
    fn clone(&self) -> (r: Self)
        ensures
            r.key@ == self.key@,
            r.value@ == self.value@,
    {
        Parameter { key: self.key.clone(), value: self.value.clone() }
    }
}

/// Source for a template body: either inline JSON, or the URL of a
/// template file in remote storage.
#[derive(Clone, Debug, PartialEq, Eq)]
pub enum TemplateSource {
    /// The template body, inline with the request.
    Inline { body: String },

    /// The location of a file containing the template body.
    S3 { url: String },
}

impl TemplateSource {
    /// Construct an [`Inline`](Self::Inline) template source for the
    /// given `body`.
    pub fn inline(body: String) -> (r: Self)
        ensures
            r matches TemplateSource::Inline { body: b } && b@ == body@,
    {
        TemplateSource::Inline { body }
    }

    /// Construct an [`S3`](Self::S3) template source for the given `url`.
    pub fn s3(url: String) -> (r: Self)
        ensures
            r matches TemplateSource::S3 { url: u } && u@ == url@,
    {
        TemplateSource::S3 { url }
    }
}

/// The input for the `apply_stack` operation.
///
/// Construct one via [`new`](Self::new); setters make sparse
/// construction ergonomic.
#[derive(Clone, Debug)]
pub struct ApplyStackInput {
    /// Capabilities to explicitly acknowledge.
    pub capabilities: Vec<Capability>,

    /// A unique identifier for this `apply_stack` operation, used by the
    /// remote system to recognise retries of the same request.
    pub client_request_token: Option<String>,

    /// Whether to disable rolling back in the event of a failure.
    ///
    /// When rollback is disabled, resources created or updated before the
    /// failing operation are preserved and the stack settles in a failed
    /// status.
    pub disable_rollback: bool,

    /// The Simple Notification Service topic ARNs to publish stack
    /// related events to.
    pub notification_arns: Vec<String>,

    /// The input parameters for the stack.
    pub parameters: Vec<Parameter>,

    /// The template resource types the operation is permitted to work
    /// with, or `None` for all.
    pub resource_types: Option<Vec<String>>,

    /// The ARN of an IAM role the remote system assumes to apply the
    /// stack.
    pub role_arn: Option<String>,

    /// The name that is associated with the stack.
    ///
    /// The name must be unique in the region in which the stack is being
    /// created.
    pub stack_name: String,

    /// Key-value pairs to associate with the stack.
    pub tags: Vec<Tag>,

    /// Source for the template body to apply.
    pub template_source: TemplateSource,
}

impl ApplyStackInput {
    /// Construct an input for the given `stack_name` and
    /// `template_source`.
    pub fn new(stack_name: String, template_source: TemplateSource) -> (r: Self)
        ensures
            r.stack_name@ == stack_name@,
            r.template_source == template_source,
            r.capabilities@.len() == 0,
            r.client_request_token is None,
            r.disable_rollback == false,
            r.notification_arns@.len() == 0,
            r.parameters@.len() == 0,
            r.resource_types is None,
            r.role_arn is None,
            r.tags@.len() == 0,
    {
        ApplyStackInput {
            stack_name,
            template_source,
            capabilities: Vec::new(),
            client_request_token: None,
            disable_rollback: false,
            notification_arns: Vec::new(),
            parameters: Vec::new(),
            resource_types: None,
            role_arn: None,
            tags: Vec::new(),
        }
    }

    /// Set the value for `capabilities`.
    ///
    /// **Note:** this consumes and returns `self` for chaining.
    pub fn set_capabilities(self, capabilities: Vec<Capability>) -> (r: Self)
        ensures
            r == (ApplyStackInput { capabilities, ..self }),
    {
        ApplyStackInput { capabilities, ..self }
    }

    /// Set the value for `client_request_token`.
    ///
    /// **Note:** this consumes and returns `self` for chaining.
    pub fn set_client_request_token(self, client_request_token: String) -> (r: Self)
        ensures
            r == (ApplyStackInput { client_request_token: Some(client_request_token), ..self }),
    {
        ApplyStackInput { client_request_token: Some(client_request_token), ..self }
    }

    /// Set the value for `disable_rollback`.
    ///
    /// **Note:** this consumes and returns `self` for chaining.
    pub fn set_disable_rollback(self, disable_rollback: bool) -> (r: Self)
        ensures
            r == (ApplyStackInput { disable_rollback, ..self }),
    {
        ApplyStackInput { disable_rollback, ..self }
    }

    /// Set the value for `notification_arns`.
    ///
    /// **Note:** this consumes and returns `self` for chaining.
    pub fn set_notification_arns(self, notification_arns: Vec<String>) -> (r: Self)
        ensures
            r == (ApplyStackInput { notification_arns, ..self }),
    {
        ApplyStackInput { notification_arns, ..self }
    }

    /// Set the value for `parameters`.
    ///
    /// **Note:** this consumes and returns `self` for chaining.
    pub fn set_parameters(self, parameters: Vec<Parameter>) -> (r: Self)
        ensures
            r == (ApplyStackInput { parameters, ..self }),
    {
        ApplyStackInput { parameters, ..self }
    }

    /// Set the value for `resource_types`.
    ///
    /// **Note:** this consumes and returns `self` for chaining.
    pub fn set_resource_types(self, resource_types: Vec<String>) -> (r: Self)
        ensures
            r == (ApplyStackInput { resource_types: Some(resource_types), ..self }),
    {
        ApplyStackInput { resource_types: Some(resource_types), ..self }
    }

    /// Set the value for `role_arn`.
    ///
    /// **Note:** this consumes and returns `self` for chaining.
    pub fn set_role_arn(self, role_arn: String) -> (r: Self)
        ensures
            r == (ApplyStackInput { role_arn: Some(role_arn), ..self }),
    {
        ApplyStackInput { role_arn: Some(role_arn), ..self }
    }

    /// Set the value for `tags`.
    ///
    /// **Note:** this consumes and returns `self` for chaining.
    pub fn set_tags(self, tags: Vec<Tag>) -> (r: Self)
        ensures
            r == (ApplyStackInput { tags, ..self }),
    {
        ApplyStackInput { tags, ..self }
    }
}

/// A declared output of an applied stack.
#[derive(Clone, Debug, PartialEq, Eq)]
pub struct StackOutput {
    /// The user-defined description associated with the output.
    pub description: Option<String>,

    /// The name of the export associated with the output.
    pub export_name: Option<String>,

    /// The key associated with the output.
    pub key: String,

    /// The value associated with the output.
    pub value: String,
}

/// The output of the `apply_stack` operation.
#[derive(Clone, Debug, PartialEq, Eq)]
pub struct ApplyStackOutput {
    /// The unique ID of the change set.
    pub change_set_id: String,

    /// The time at which the stack was created, in milliseconds since the
    /// epoch.
    pub creation_time: i64,

    /// A user-defined description associated with the stack.
    pub description: Option<String>,

    /// The time the stack was last updated, in milliseconds since the
    /// epoch.  Only set if the stack has been updated at least once.
    pub last_updated_time: Option<i64>,

    /// The declared outputs of the stack.
    pub outputs: Vec<StackOutput>,

    /// The unique identifier of the stack.
    pub stack_id: String,

    /// The name associated with the stack.
    pub stack_name: String,

    /// The current status of the stack.
    pub stack_status: StackStatus,

    /// The tags that specify information about the stack.
    pub tags: Vec<Tag>,
}

/// The decimal digits of `n`, most significant first.
pub open spec fn spec_decimal(n: int) -> Seq<char>
    decreases n,
    when n >= 0
{
    if n < 10 {
        seq![spec_digit_char(n)]
    } else {
        spec_decimal(n / 10) + seq![spec_digit_char(n % 10)]
    }
}

/// The character for one decimal digit.
pub open spec fn spec_digit_char(d: int) -> char {
    if d == 0 {
        '0'
    } else if d == 1 {
        '1'
    } else if d == 2 {
        '2'
    } else if d == 3 {
        '3'
    } else if d == 4 {
        '4'
    } else if d == 5 {
        '5'
    } else if d == 6 {
        '6'
    } else if d == 7 {
        '7'
    } else if d == 8 {
        '8'
    } else {
        '9'
    }
}

/// The string for one decimal digit.
fn digit_str(d: u64) -> (r: &'static str)
    requires
        d < 10,
    ensures
        r@ == seq![spec_digit_char(d as int)],
{
    proof {
        reveal_strlit("0");
        reveal_strlit("1");
        reveal_strlit("2");
        reveal_strlit("3");
        reveal_strlit("4");
        reveal_strlit("5");
        reveal_strlit("6");
        reveal_strlit("7");
        reveal_strlit("8");
        reveal_strlit("9");
    }
    if d == 0 {
        "0"
    } else if d == 1 {
        "1"
    } else if d == 2 {
        "2"
    } else if d == 3 {
        "3"
    } else if d == 4 {
        "4"
    } else if d == 5 {
        "5"
    } else if d == 6 {
        "6"
    } else if d == 7 {
        "7"
    } else if d == 8 {
        "8"
    } else {
        "9"
    }
}

/// Render a number in decimal.
fn decimal_string(n: u64) -> (r: String)
    ensures
        r@ == spec_decimal(n as int),
    decreases n,
{
    if n < 10 {
        digit_str(n).to_owned()
    } else {
        let mut prefix = decimal_string(n / 10);
        prefix.append(digit_str(n % 10));
        prefix
    }
}

/// The name given to the change set created at the given time
/// (milliseconds since the epoch): a fixed prefix and the timestamp, so
/// that change set names are unique per stack in practice.
pub fn change_set_name(timestamp_millis: u64) -> (r: String)
    ensures
        r@ == "apply-stack-"@ + spec_decimal(timestamp_millis as int),
{
    let mut name = "apply-stack-".to_owned();
    name.append(decimal_string(timestamp_millis).as_str());
    name
}

/// Errors emitted by an `apply_stack` operation.
#[derive(Debug, PartialEq, Eq)]
pub enum ApplyStackError {
    /// A CloudFormation API call failed; this carries its message.  This
    /// is likely to be due to invalid input parameters or missing
    /// permissions.
    CloudFormationApi(String),

    /// The stack cannot be modified as it is in a blocked state.  The
    /// condition is recoverable by waiting for the stack to settle or by
    /// repairing it, and retrying.
    Blocked {
        /// The blocked status that the stack is in.
        status: BlockedStackStatus,
    },

    /// The change set failed to create.
    CreateChangeSetFailed {
        /// The id of the failed change set.
        id: String,

        /// The status of the failed change set.
        status: ChangeSetStatus,

        /// The reason the change set failed to create, or the empty
        /// string if the remote system reported none.
        status_reason: String,
    },

    /// The apply stack operation failed.
    Failure(StackFailure),

    /// The apply stack operation succeeded with warnings: the stack
    /// settled in a successful status, but negative resource events
    /// occurred along the way.  The output is included, since the
    /// operation did succeed.
    Warning {
        /// The operation output.
        output: ApplyStackOutput,

        /// Details of what went wrong.
        warning: StackWarning,
    },
}

/// The rendered description of an [`ApplyStackError`].
pub open spec fn spec_apply_error_message(error: ApplyStackError) -> Seq<char> {
    match error {
        ApplyStackError::CloudFormationApi(message) => "CloudFormation API error: "@ + message@,
        ApplyStackError::Blocked { status } => {
            "stack operation failed because the stack is in a blocked state: "@
                + status.spec_stack_status().spec_str()
        },
        ApplyStackError::CreateChangeSetFailed { id, status, status_reason } => {
            "Change set "@ + id@ + " failed to create; terminal status: "@ + status.spec_str()
                + " ("@ + status_reason@ + ")"@
        },
        ApplyStackError::Failure(failure) => crate::stack::spec_failure_message(failure@),
        ApplyStackError::Warning { warning, .. } => crate::stack::spec_warning_message(warning@),
    }
}

impl ApplyStackError {
    /// Render the error as text.
    pub fn message(&self) -> (r: String)
        ensures
            r@ == spec_apply_error_message(*self),
    {
        match self {
            ApplyStackError::CloudFormationApi(message) => {
                let mut rendered = "CloudFormation API error: ".to_owned();
                rendered.append(message.as_str());
                rendered
            },
            ApplyStackError::Blocked { status } => {
                let mut rendered =
                    "stack operation failed because the stack is in a blocked state: ".to_owned();
                rendered.append(status.as_stack_status().to_str());
                rendered
            },
            ApplyStackError::CreateChangeSetFailed { id, status, status_reason } => {
                let mut rendered = "Change set ".to_owned();
                rendered.append(id.as_str());
                rendered.append(" failed to create; terminal status: ");
                rendered.append(status.to_str());
                rendered.append(" (");
                rendered.append(status_reason.as_str());
                rendered.append(")");
                rendered
            },
            ApplyStackError::Failure(failure) => failure.message(),
            ApplyStackError::Warning { warning, .. } => warning.message(),
        }
    }
}

/// The error raised when a change set reports a status outside the known
/// creation set: the status model is stale and the operation must abort
/// loudly.
#[derive(Clone, Copy, Debug, PartialEq, Eq, Structural)]
pub struct UnexpectedChangeSetStatus {
    /// The status the classifier did not recognise.
    pub status: ChangeSetStatus,
}

/// The kind of stack operation a change set of the given type performs
/// when executed.
pub open spec fn spec_operation_kind(change_set_type: ChangeSetType) -> OperationKind {
    match change_set_type {
        ChangeSetType::Create => OperationKind::Create,
        ChangeSetType::Update => OperationKind::Update,
    }
}

/// The kind of stack operation a change set of the given type performs.
pub fn operation_kind(change_set_type: ChangeSetType) -> (r: OperationKind)
    ensures
        r == spec_operation_kind(change_set_type),
{
    match change_set_type {
        ChangeSetType::Create => OperationKind::Create,
        ChangeSetType::Update => OperationKind::Update,
    }
}

/// Where an `apply_stack` operation stands.
#[derive(Clone, Copy, Debug, PartialEq, Eq, Structural)]
pub enum ApplyPhase {
    /// The change-set creation call is being made (or retried).
    CreatingChangeSet,

    /// The change set's status is being polled until it settles.
    PollingChangeSet,

    /// The change-set execution call is being made.
    ExecutingChangeSet,

    /// The stack's events are being tracked until the operation settles.
    Tracking,

    /// The final describe call is being made.
    DescribingStack,

    /// The operation has concluded and the outcome is cached.
    Complete,
}

/// The next remote call an `apply_stack` operation asks its driver to
/// make.
#[derive(Clone, Copy, Debug, PartialEq, Eq, Structural)]
pub enum ApplyAction {
    /// Call `CreateChangeSet` with the given change set type.
    CreateChangeSet(ChangeSetType),

    /// Call `DescribeChangeSet`, after the polling interval.
    PollChangeSet,

    /// Call `ExecuteChangeSet`.
    ExecuteChangeSet,

    /// Fetch the event pages for the operation's stack ids, after the
    /// polling interval.
    PollEvents,

    /// Call `DescribeStacks` for the final output.
    DescribeStack,

    /// Nothing is left to do: the outcome is cached.
    Finished,
}

/// The outcome an operation caches when the final describe call returns:
/// a plain success, or the output wrapped in the warning evidence
/// gathered along the way.
pub open spec fn spec_described_outcome(
    warning: Option<StackWarning>,
    output: ApplyStackOutput,
) -> Result<ApplyStackOutput, ApplyStackError> {
    match warning {
        Some(warning) => Err(ApplyStackError::Warning { output, warning }),
        None => Ok(output),
    }
}

/// An ongoing `apply_stack` operation, as an explicit state machine.
///
/// The driver makes the remote calls this machine asks for through
/// [`ApplyAction`] and feeds their outcomes back; the machine makes
/// every decision.  Both consumption modes — awaiting the final result
/// and observing progress events — read the one cached
/// [`outcome`](Self::outcome), so partially consuming events and then
/// awaiting the result never re-runs any part of the operation.
#[derive(Debug)]
pub struct ApplyStack {
    /// The change-set negotiation in progress.
    pub negotiation: ChangeSetNegotiation,

    /// Where the operation stands.
    pub phase: ApplyPhase,

    /// The id of the change set being negotiated, once creation was
    /// accepted.
    pub change_set_id: Option<String>,

    /// The id of the stack being applied, once the change set reported
    /// it.
    pub stack_id: Option<String>,

    /// The settled change set, once the negotiation produced one, for
    /// consumers that want to inspect the planned changes.
    pub change_set: Option<ChangeSet>,

    /// Whether the change set settled with nothing to change, in which
    /// case execution is skipped.
    pub no_changes: bool,

    /// The event tracker, while the operation is being tracked.
    pub operation: Option<StackOperation>,

    /// The warning evidence to attach to the output, when the operation
    /// settled successfully but negative resource events occurred.
    pub warning: Option<StackWarning>,

    /// The cached outcome, set exactly once when the operation
    /// concludes.
    pub outcome: Option<Result<ApplyStackOutput, ApplyStackError>>,
}

impl ApplyStack {
    /// Start an `apply_stack` operation.  The first action is to create
    /// a change set of type `CREATE`.
    pub fn new() -> (r: ApplyStack)
        ensures
            r.negotiation.change_set_type == ChangeSetType::Create,
            r.phase == ApplyPhase::CreatingChangeSet,
            r.change_set_id is None,
            r.stack_id is None,
            r.change_set is None,
            r.no_changes == false,
            r.operation is None,
            r.warning is None,
            r.outcome is None,
    {
        ApplyStack {
            negotiation: ChangeSetNegotiation::new(),
            phase: ApplyPhase::CreatingChangeSet,
            change_set_id: None,
            stack_id: None,
            change_set: None,
            no_changes: false,
            operation: None,
            warning: None,
            outcome: None,
        }
    }

    /// Feed the outcome of the `CreateChangeSet` call: the change set id
    /// on success, or the error message.
    ///
    /// A first failure because the stack already exists retries as an
    /// update; a blocked-stack failure or any other failure concludes
    /// the operation.
    pub fn on_create_change_set_result(&mut self, result: Result<String, &str>) -> (r: ApplyAction)
        requires
            old(self).phase == ApplyPhase::CreatingChangeSet,
            old(self).outcome is None,
        ensures
            final(self).stack_id == old(self).stack_id,
            final(self).change_set == old(self).change_set,
            final(self).no_changes == old(self).no_changes,
            final(self).operation == old(self).operation,
            final(self).warning == old(self).warning,
            match result {
                Ok(id) => {
                    &&& r == ApplyAction::PollChangeSet
                    &&& final(self).phase == ApplyPhase::PollingChangeSet
                    &&& final(self).change_set_id matches Some(stored) && stored@ == id@
                    &&& final(self).negotiation == old(self).negotiation
                    &&& final(self).outcome is None
                },
                Err(msg) => {
                    let (next_type, step) = spec_on_create_error(
                        old(self).negotiation.change_set_type,
                        msg@,
                    );
                    &&& final(self).negotiation.change_set_type == next_type
                    &&& final(self).change_set_id == old(self).change_set_id
                    &&& match step {
                        CreateStep::Retry(t) => {
                            &&& r == ApplyAction::CreateChangeSet(t)
                            &&& final(self).phase == ApplyPhase::CreatingChangeSet
                            &&& final(self).outcome is None
                        },
                        CreateStep::Blocked(status) => {
                            &&& r == ApplyAction::Finished
                            &&& final(self).phase == ApplyPhase::Complete
                            &&& final(self).outcome == Some(
                                Err::<ApplyStackOutput, ApplyStackError>(
                                    ApplyStackError::Blocked { status },
                                ),
                            )
                        },
                        CreateStep::Fail => {
                            &&& r == ApplyAction::Finished
                            &&& final(self).phase == ApplyPhase::Complete
                            &&& final(self).outcome matches Some(Err(
                                ApplyStackError::CloudFormationApi(m),
                            )) && m@ == msg@
                        },
                        CreateStep::Poll => false,
                    }
                },
            },
    {
        match result {
            Ok(id) => {
                self.change_set_id = Some(id);
                self.phase = ApplyPhase::PollingChangeSet;
                ApplyAction::PollChangeSet
            },
            Err(msg) => {
                match self.negotiation.on_create_error(msg) {
                    CreateStep::Retry(change_set_type) => {
                        ApplyAction::CreateChangeSet(change_set_type)
                    },
                    CreateStep::Blocked(status) => {
                        self.phase = ApplyPhase::Complete;
                        self.outcome = Some(Err(ApplyStackError::Blocked { status }));
                        ApplyAction::Finished
                    },
                    CreateStep::Fail => {
                        self.phase = ApplyPhase::Complete;
                        self.outcome = Some(
                            Err(ApplyStackError::CloudFormationApi(msg.to_owned())),
                        );
                        ApplyAction::Finished
                    },
                    CreateStep::Poll => unreached(),
                }
            },
        }
    }

    /// Feed the described state of the change set being negotiated.
    ///
    /// An unsettled change set is polled again; a complete one is
    /// executed; a failed one with a no-change reason skips straight to
    /// the final describe; any other failure concludes the operation.  A
    /// status outside the known creation set aborts loudly.
    pub fn on_change_set_described(&mut self, change_set: ChangeSet) -> (r: Result<
        ApplyAction,
        UnexpectedChangeSetStatus,
    >)
        requires
            old(self).phase == ApplyPhase::PollingChangeSet,
            old(self).outcome is None,
        ensures
            final(self).negotiation == old(self).negotiation,
            final(self).change_set_id == old(self).change_set_id,
            final(self).operation == old(self).operation,
            final(self).warning == old(self).warning,
            ({
                let classification = spec_classify_settlement(
                    change_set.status,
                    match change_set.status_reason {
                        Some(reason) => Some(reason@),
                        None => None::<Seq<char>>,
                    },
                );
                match classification {
                    PollStep::Continue => {
                        &&& r == Ok::<_, UnexpectedChangeSetStatus>(ApplyAction::PollChangeSet)
                        &&& *final(self) == *old(self)
                    },
                    PollStep::Available => {
                        &&& r == Ok::<_, UnexpectedChangeSetStatus>(ApplyAction::ExecuteChangeSet)
                        &&& final(self).phase == ApplyPhase::ExecutingChangeSet
                        &&& final(self).stack_id matches Some(id) && id@ == change_set.stack_id@
                        &&& final(self).change_set == Some(change_set)
                        &&& final(self).no_changes == old(self).no_changes
                        &&& final(self).outcome is None
                    },
                    PollStep::NoChanges => {
                        &&& r == Ok::<_, UnexpectedChangeSetStatus>(ApplyAction::DescribeStack)
                        &&& final(self).phase == ApplyPhase::DescribingStack
                        &&& final(self).stack_id matches Some(id) && id@ == change_set.stack_id@
                        &&& final(self).change_set == Some(change_set)
                        &&& final(self).no_changes == true
                        &&& final(self).outcome is None
                    },
                    PollStep::Failed => {
                        &&& r == Ok::<_, UnexpectedChangeSetStatus>(ApplyAction::Finished)
                        &&& final(self).phase == ApplyPhase::Complete
                        &&& final(self).change_set == old(self).change_set
                        &&& final(self).outcome matches Some(Err(
                            ApplyStackError::CreateChangeSetFailed { id, status, status_reason },
                        )) && id@ == change_set.change_set_id@ && status == change_set.status
                            && status_reason@ == (match change_set.status_reason {
                            Some(reason) => reason@,
                            None => Seq::<char>::empty(),
                        })
                    },
                    PollStep::Unexpected => {
                        &&& r == Err::<ApplyAction, _>(
                            UnexpectedChangeSetStatus { status: change_set.status },
                        )
                        &&& *final(self) == *old(self)
                    },
                }
            }),
    {
        let classification = self.negotiation.on_describe(
            change_set.status,
            match &change_set.status_reason {
                Some(reason) => Some(reason.as_str()),
                None => None,
            },
        );
        match classification {
            PollStep::Continue => Ok(ApplyAction::PollChangeSet),
            PollStep::Available => {
                self.stack_id = Some(change_set.stack_id.clone());
                self.change_set = Some(change_set);
                self.phase = ApplyPhase::ExecutingChangeSet;
                Ok(ApplyAction::ExecuteChangeSet)
            },
            PollStep::NoChanges => {
                self.stack_id = Some(change_set.stack_id.clone());
                self.change_set = Some(change_set);
                self.no_changes = true;
                self.phase = ApplyPhase::DescribingStack;
                Ok(ApplyAction::DescribeStack)
            },
            PollStep::Failed => {
                self.phase = ApplyPhase::Complete;
                let status_reason = match change_set.status_reason {
                    Some(reason) => reason,
                    None => String::new(),
                };
                self.outcome = Some(
                    Err(
                        ApplyStackError::CreateChangeSetFailed {
                            id: change_set.change_set_id,
                            status: change_set.status,
                            status_reason,
                        },
                    ),
                );
                Ok(ApplyAction::Finished)
            },
            PollStep::Unexpected => Err(
                UnexpectedChangeSetStatus { status: change_set.status },
            ),
        }
    }

    /// Feed the outcome of the `ExecuteChangeSet` call, and the time the
    /// execution started (milliseconds since the epoch).
    ///
    /// On success the event tracker starts, with the progress classifier
    /// selected by which change-set type the negotiation settled on.
    pub fn on_execute_result(&mut self, result: Result<(), &str>, started_at: i64) -> (r:
        ApplyAction)
        requires
            old(self).phase == ApplyPhase::ExecutingChangeSet,
            old(self).stack_id is Some,
            old(self).outcome is None,
        ensures
            final(self).negotiation == old(self).negotiation,
            final(self).change_set_id == old(self).change_set_id,
            final(self).stack_id == old(self).stack_id,
            final(self).change_set == old(self).change_set,
            final(self).no_changes == old(self).no_changes,
            final(self).warning == old(self).warning,
            match result {
                Ok(_) => {
                    &&& r == ApplyAction::PollEvents
                    &&& final(self).phase == ApplyPhase::Tracking
                    &&& final(self).operation matches Some(op) && op@ == (StackOperationView {
                        stack_id: (old(self).stack_id->0)@,
                        kind: spec_operation_kind(old(self).negotiation.change_set_type),
                        since: started_at as int,
                        aliases: Seq::empty(),
                        error_status: None,
                        error_reason: None,
                        resource_errors: Seq::empty(),
                        done: false,
                    })
                    &&& final(self).outcome is None
                },
                Err(msg) => {
                    &&& r == ApplyAction::Finished
                    &&& final(self).phase == ApplyPhase::Complete
                    &&& match spec_execute_blocked(msg@) {
                        Some(status) => final(self).outcome == Some(
                            Err::<ApplyStackOutput, ApplyStackError>(
                                ApplyStackError::Blocked { status },
                            ),
                        ),
                        None => final(self).outcome matches Some(Err(
                            ApplyStackError::CloudFormationApi(m),
                        )) && m@ == msg@,
                    }
                },
            },
    {
        match result {
            Ok(_) => {
                let stack_id = match &self.stack_id {
                    Some(id) => id.clone(),
                    None => unreached(),
                };
                let kind = operation_kind(self.negotiation.change_set_type);
                self.operation = Some(StackOperation::new(stack_id, started_at, kind));
                self.phase = ApplyPhase::Tracking;
                ApplyAction::PollEvents
            },
            Err(msg) => {
                self.phase = ApplyPhase::Complete;
                match crate::change_set::is_execute_blocked(msg) {
                    Some(status) => {
                        self.outcome = Some(Err(ApplyStackError::Blocked { status }));
                    },
                    None => {
                        self.outcome = Some(
                            Err(ApplyStackError::CloudFormationApi(msg.to_owned())),
                        );
                    },
                }
                ApplyAction::Finished
            },
        }
    }

    /// Feed one cycle of event pages fetched for the operation's stack
    /// ids (each page newest-first).  Returns the attributed events to
    /// deliver to any observer, in chronological order.
    pub fn on_event_pages(&mut self, pages: Vec<Vec<StackEvent>>) -> (r: Result<
        Vec<StackEvent>,
        UnexpectedStatus,
    >)
        requires
            old(self).phase == ApplyPhase::Tracking,
            old(self).operation is Some,
            forall|p: int| 0 <= p < pages@.len() ==> newest_first(views_of(#[trigger] pages@[p]@)),
        ensures
            final(self).negotiation == old(self).negotiation,
            final(self).phase == old(self).phase,
            final(self).change_set_id == old(self).change_set_id,
            final(self).stack_id == old(self).stack_id,
            final(self).change_set == old(self).change_set,
            final(self).no_changes == old(self).no_changes,
            final(self).warning == old(self).warning,
            final(self).outcome == old(self).outcome,
            match r {
                Ok(out) => spec_process_cycle(old(self).operation->0@, pages_views(pages@))
                    matches Some(p) && final(self).operation matches Some(op) && op@ == p.0
                    && views_of(out@) == p.1,
                Err(_) => spec_process_cycle(old(self).operation->0@, pages_views(pages@))
                    is None,
            },
    {
        let operation = match &mut self.operation {
            Some(operation) => operation,
            None => unreached(),
        };
        operation.process_cycle(pages)
    }

    /// Decide what follows the last cycle of events: keep polling while
    /// the operation has not settled; once it has, resolve the
    /// accumulated evidence — a failure concludes the operation at once,
    /// a success (with or without warnings) proceeds to the final
    /// describe call.
    pub fn next_after_events(&mut self) -> (r: ApplyAction)
        requires
            old(self).phase == ApplyPhase::Tracking,
            old(self).operation is Some,
            old(self).outcome is None,
        ensures
            final(self).negotiation == old(self).negotiation,
            final(self).change_set_id == old(self).change_set_id,
            final(self).stack_id == old(self).stack_id,
            final(self).change_set == old(self).change_set,
            final(self).no_changes == old(self).no_changes,
            ({
                let op = old(self).operation->0@;
                if !op.done {
                    &&& r == ApplyAction::PollEvents
                    &&& *final(self) == *old(self)
                } else {
                    match op.error_status {
                        Some(status) => {
                            &&& r == ApplyAction::Finished
                            &&& final(self).phase == ApplyPhase::Complete
                            &&& final(self).outcome matches Some(Err(ApplyStackError::Failure(f)))
                                && f@ == (StackFailureView {
                                stack_id: op.stack_id,
                                stack_status: status,
                                stack_status_reason: match op.error_reason {
                                    Some(reason) => reason,
                                    None => Seq::empty(),
                                },
                                resource_events: op.resource_errors,
                            })
                        },
                        None => {
                            &&& r == ApplyAction::DescribeStack
                            &&& final(self).phase == ApplyPhase::DescribingStack
                            &&& final(self).outcome is None
                            &&& if op.resource_errors.len() == 0 {
                                final(self).warning is None
                            } else {
                                final(self).warning matches Some(w) && w@ == (StackWarningView {
                                    stack_id: op.stack_id,
                                    resource_events: op.resource_errors,
                                })
                            }
                        },
                    }
                }
            }),
    {
        let done = match &self.operation {
            Some(operation) => operation.is_done(),
            None => unreached(),
        };
        if !done {
            return ApplyAction::PollEvents;
        }
        let operation = match self.operation.take() {
            Some(operation) => operation,
            None => unreached(),
        };
        match operation.verify() {
            Ok(_) => {
                self.warning = None;
                self.phase = ApplyPhase::DescribingStack;
                ApplyAction::DescribeStack
            },
            Err(StackOperationError::Warning(warning)) => {
                self.warning = Some(warning);
                self.phase = ApplyPhase::DescribingStack;
                ApplyAction::DescribeStack
            },
            Err(StackOperationError::Failure(failure)) => {
                self.phase = ApplyPhase::Complete;
                self.outcome = Some(Err(ApplyStackError::Failure(failure)));
                ApplyAction::Finished
            },
        }
    }

    /// Feed the final described state of the stack, concluding the
    /// operation: the outcome is the described output, wrapped in the
    /// warning evidence if any was gathered.
    pub fn on_stack_described(&mut self, output: ApplyStackOutput) -> (r: ApplyAction)
        requires
            old(self).phase == ApplyPhase::DescribingStack,
        ensures
            r == ApplyAction::Finished,
            final(self).phase == ApplyPhase::Complete,
            final(self).outcome == Some(spec_described_outcome(old(self).warning, output)),
            final(self).negotiation == old(self).negotiation,
            final(self).change_set_id == old(self).change_set_id,
            final(self).stack_id == old(self).stack_id,
            final(self).change_set == old(self).change_set,
            final(self).no_changes == old(self).no_changes,
    {
        self.phase = ApplyPhase::Complete;
        let warning = self.warning.take();
        match warning {
            Some(warning) => {
                self.outcome = Some(Err(ApplyStackError::Warning { output, warning }));
            },
            None => {
                self.outcome = Some(Ok(output));
            },
        }
        ApplyAction::Finished
    }

    /// Whether the operation has concluded and cached its outcome.
    pub fn is_finished(&self) -> (r: bool)
        ensures
            r == (self.phase == ApplyPhase::Complete),
    {
        match self.phase {
            ApplyPhase::Complete => true,
            _ => false,
        }
    }

    /// The cached outcome, once the operation has concluded.
    pub fn into_outcome(self) -> (r: Option<Result<ApplyStackOutput, ApplyStackError>>)
        ensures
            r == self.outcome,
    {
        self.outcome
    }
}

/// Idempotency of the no-change path: a change set that settles with a
/// no-change reason classifies as `NoChanges`, the operation takes the
/// describe path without executing anything, and its outcome is exactly
/// the stack's described state — so two applies of identical input over
/// an already-settled (hence unchanged) stack conclude with the same
/// output.
pub proof fn lemma_apply_idempotent(
    status_reason: Seq<char>,
    first_describe: ApplyStackOutput,
    second_describe: ApplyStackOutput,
)
    requires
        crate::change_set::spec_no_changes(Some(status_reason)),
        first_describe == second_describe,
    ensures
        spec_classify_settlement(ChangeSetStatus::Failed, Some(status_reason))
            == PollStep::NoChanges,
        spec_described_outcome(None, first_describe) == spec_described_outcome(
            None,
            second_describe,
        ),
        spec_described_outcome(None, first_describe) == Ok::<ApplyStackOutput, ApplyStackError>(
            first_describe,
        ),
{
}

} // verus!
