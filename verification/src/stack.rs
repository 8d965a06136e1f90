//! The stack-operation event tracker.
//!
//! A [`StackOperation`] follows one operation on one root stack.  The
//! surrounding process polls the event list of the root stack and of every
//! known nested stack, and hands each cycle's pages (newest first, as the
//! remote API returns them) to [`StackOperation::process_cycle`].  The
//! tracker admits only events newer than its cursor, merges them into
//! chronological order, maintains the nested-stack alias table, accumulates
//! failure and warning evidence, and reports when the operation has
//! settled.  [`StackOperation::verify`] then turns the accumulated
//! evidence into the operation's outcome.

use vstd::prelude::*;

use crate::event::{StackEvent, StackEventDetails, StackEventDetailsView, StackEventView};
use crate::status::{ResourceStatus, StackStatus, StatusSentiment, Status};
use crate::status_reason::StatusReason;
use crate::text;

verus! {

/// How far a stack operation has progressed, as judged from one stack
/// status by the operation's progress classifier.
#[derive(Clone, Copy, Debug, PartialEq, Eq, Structural)]
pub enum StackOperationStatus {
    /// The operation is still in progress.
    InProgress,
    /// The operation has concluded successfully.
    Complete,
    /// The operation has concluded unsuccessfully.
    Failed,
    /// The status does not belong to this operation: the status model is
    /// stale or the remote system changed semantics.
    Unexpected,
}

/// Which kind of stack operation is being tracked.
///
/// The kind selects the progress classifier: creation, update and
/// deletion move through different status sets.
#[derive(Clone, Copy, Debug, PartialEq, Eq, Structural)]
pub enum OperationKind {
    Create,
    Update,
    Delete,
}

/// The progress classification of `status` for a stack creation.
pub open spec fn spec_check_create_progress(status: StackStatus) -> StackOperationStatus {
    match status {
        StackStatus::CreateInProgress
        | StackStatus::RollbackInProgress => StackOperationStatus::InProgress,
        StackStatus::CreateComplete => StackOperationStatus::Complete,
        StackStatus::CreateFailed
        | StackStatus::RollbackFailed
        | StackStatus::RollbackComplete => StackOperationStatus::Failed,
        _ => StackOperationStatus::Unexpected,
    }
}

/// Classify progress of a stack creation from the stack's status.
pub fn check_create_progress(stack_status: StackStatus) -> (r: StackOperationStatus)
    ensures
        r == spec_check_create_progress(stack_status),
{
    match stack_status {
        StackStatus::CreateInProgress
        | StackStatus::RollbackInProgress => StackOperationStatus::InProgress,
        StackStatus::CreateComplete => StackOperationStatus::Complete,
        StackStatus::CreateFailed
        | StackStatus::RollbackFailed
        | StackStatus::RollbackComplete => StackOperationStatus::Failed,
        _ => StackOperationStatus::Unexpected,
    }
}

/// The progress classification of `status` for a stack update.
pub open spec fn spec_check_update_progress(status: StackStatus) -> StackOperationStatus {
    match status {
        StackStatus::UpdateInProgress
        | StackStatus::UpdateCompleteCleanupInProgress
        | StackStatus::UpdateRollbackInProgress
        | StackStatus::UpdateRollbackCompleteCleanupInProgress => StackOperationStatus::InProgress,
        StackStatus::UpdateComplete => StackOperationStatus::Complete,
        StackStatus::UpdateFailed
        | StackStatus::UpdateRollbackFailed
        | StackStatus::UpdateRollbackComplete => StackOperationStatus::Failed,
        _ => StackOperationStatus::Unexpected,
    }
}

/// Classify progress of a stack update from the stack's status.
pub fn check_update_progress(stack_status: StackStatus) -> (r: StackOperationStatus)
    ensures
        r == spec_check_update_progress(stack_status),
{
    match stack_status {
        StackStatus::UpdateInProgress
        | StackStatus::UpdateCompleteCleanupInProgress
        | StackStatus::UpdateRollbackInProgress
        | StackStatus::UpdateRollbackCompleteCleanupInProgress => StackOperationStatus::InProgress,
        StackStatus::UpdateComplete => StackOperationStatus::Complete,
        StackStatus::UpdateFailed
        | StackStatus::UpdateRollbackFailed
        | StackStatus::UpdateRollbackComplete => StackOperationStatus::Failed,
        _ => StackOperationStatus::Unexpected,
    }
}

/// The progress classification of `status` for a stack deletion.
pub open spec fn spec_check_operation_status(status: StackStatus) -> StackOperationStatus {
    match status {
        StackStatus::DeleteInProgress => StackOperationStatus::InProgress,
        StackStatus::DeleteComplete => StackOperationStatus::Complete,
        StackStatus::DeleteFailed => StackOperationStatus::Failed,
        _ => StackOperationStatus::Unexpected,
    }
}

/// Classify progress of a stack deletion from the stack's status.
pub fn check_operation_status(stack_status: StackStatus) -> (r: StackOperationStatus)
    ensures
        r == spec_check_operation_status(stack_status),
{
    match stack_status {
        StackStatus::DeleteInProgress => StackOperationStatus::InProgress,
        StackStatus::DeleteComplete => StackOperationStatus::Complete,
        StackStatus::DeleteFailed => StackOperationStatus::Failed,
        _ => StackOperationStatus::Unexpected,
    }
}

impl OperationKind {
    /// The progress classification of `status` for this operation kind.
    pub open spec fn spec_check(self, status: StackStatus) -> StackOperationStatus {
        match self {
            OperationKind::Create => spec_check_create_progress(status),
            OperationKind::Update => spec_check_update_progress(status),
            OperationKind::Delete => spec_check_operation_status(status),
        }
    }

    /// Classify progress of this kind of operation from the stack's
    /// status.
    pub fn check(self, status: StackStatus) -> (r: StackOperationStatus)
        ensures
            r == self.spec_check(status),
    {
        match self {
            OperationKind::Create => check_create_progress(status),
            OperationKind::Update => check_update_progress(status),
            OperationKind::Delete => check_operation_status(status),
        }
    }
}

/// The mathematical value of a list of resource-error evidence.
pub open spec fn resource_events_view(
    v: Seq<(ResourceStatus, StackEventDetails)>,
) -> Seq<(ResourceStatus, StackEventDetailsView)> {
    Seq::new(v.len(), |i: int| (v[i].0, v[i].1@))
}

/// The mathematical value of a [`StackFailure`].
pub ghost struct StackFailureView {
    pub stack_id: Seq<char>,
    pub stack_status: StackStatus,
    pub stack_status_reason: Seq<char>,
    pub resource_events: Seq<(ResourceStatus, StackEventDetailsView)>,
}

/// Describes a failed stack operation.
///
/// This error tries to capture enough information to quickly identify the
/// root cause of the operation's failure, such as not having permission
/// to create or update a particular resource in the stack.
#[derive(Debug, PartialEq, Eq)]
pub struct StackFailure {
    /// The ID of the stack.
    pub stack_id: String,

    /// The failed status in which the stack settled.
    pub stack_status: StackStatus,

    /// The *first* reason the stack moved into a failing state, or the
    /// empty string if no negative stack event carried a reason.
    ///
    /// Note that this may not be the reason associated with the final
    /// `stack_status`, but rather the reason for the first negative
    /// status the stack entered, which is usually more descriptive.
    pub stack_status_reason: String,

    /// Resource events with negative statuses that may have precipitated
    /// the failure of the operation.
    pub resource_events: Vec<(ResourceStatus, StackEventDetails)>,
}

impl View for StackFailure {
    type V = StackFailureView;

    open spec fn view(&self) -> StackFailureView {
        StackFailureView {
            stack_id: self.stack_id@,
            stack_status: self.stack_status,
            stack_status_reason: self.stack_status_reason@,
            resource_events: resource_events_view(self.resource_events@),
        }
    }
}

impl StackFailure {
    /// The *first* reason the stack moved into a failing state.
    pub fn stack_status_reason(&self) -> (r: StatusReason<'_>)
        ensures
            r@ == Some(self@.stack_status_reason),
    {
        StatusReason::new(Some(self.stack_status_reason.as_str()))
    }
}

/// The mathematical value of a [`StackWarning`].
pub ghost struct StackWarningView {
    pub stack_id: Seq<char>,
    pub resource_events: Seq<(ResourceStatus, StackEventDetailsView)>,
}

/// Describes a successful stack operation with warnings.
///
/// It is possible for resource errors to occur even when the overall
/// operation succeeds, such as failing to delete a resource during
/// clean-up after a successful update.  Rather than letting this pass
/// silently, the operation reports the evidence.
#[derive(Debug, PartialEq, Eq)]
pub struct StackWarning {
    /// The ID of the stack.
    pub stack_id: String,

    /// Resource events with negative statuses that did not affect the
    /// overall operation.
    pub resource_events: Vec<(ResourceStatus, StackEventDetails)>,
}

impl View for StackWarning {
    type V = StackWarningView;

    open spec fn view(&self) -> StackWarningView {
        StackWarningView {
            stack_id: self.stack_id@,
            resource_events: resource_events_view(self.resource_events@),
        }
    }
}

/// The line describing one negative resource event in a rendered
/// failure or warning message.
pub open spec fn spec_resource_event_line(
    event: (ResourceStatus, StackEventDetailsView),
) -> Seq<char> {
    "\n- "@ + event.1.logical_resource_id + " ("@ + event.1.resource_type + "): "@
        + event.0.spec_str() + " ("@ + (match event.1.resource_status_reason {
        Some(reason) => reason,
        None => "no reason reported"@,
    }) + ")"@
}

/// The lines describing a list of negative resource events, in order.
pub open spec fn spec_resource_event_lines(
    events: Seq<(ResourceStatus, StackEventDetailsView)>,
) -> Seq<char>
    decreases events.len(),
{
    if events.len() == 0 {
        Seq::empty()
    } else {
        spec_resource_event_line(events.first()) + spec_resource_event_lines(events.drop_first())
    }
}

/// Render the lines describing a list of negative resource events.
fn resource_event_lines(events: &Vec<(ResourceStatus, StackEventDetails)>) -> (r: String)
    ensures
        r@ == spec_resource_event_lines(resource_events_view(events@)),
{
    let ghost evs = resource_events_view(events@);
    let mut rendered = String::new();
    let mut k: usize = 0;
    proof {
        assert(evs.skip(0) =~= evs);
    }
    while k < events.len()
        invariant
            k <= events@.len(),
            evs == resource_events_view(events@),
            spec_resource_event_lines(evs) == rendered@ + spec_resource_event_lines(
                evs.skip(k as int),
            ),
        decreases events@.len() - k,
    {
        proof {
            assert(evs.skip(k as int).first() == evs[k as int]);
            assert(evs.skip(k as int).drop_first() =~= evs.skip(k as int + 1));
        }
        let (status, details) = &events[k];
        rendered.append("\n- ");
        rendered.append(details.logical_resource_id.as_str());
        rendered.append(" (");
        rendered.append(details.resource_type.as_str());
        rendered.append("): ");
        rendered.append(status.to_str());
        rendered.append(" (");
        match &details.resource_status_reason {
            Some(reason) => rendered.append(reason.as_str()),
            None => rendered.append("no reason reported"),
        }
        rendered.append(")");
        k = k + 1;
    }
    proof {
        assert(evs.skip(events@.len() as int) =~= Seq::<(
            ResourceStatus,
            StackEventDetailsView,
        )>::empty());
        assert(rendered@ + Seq::<char>::empty() =~= rendered@);
    }
    rendered
}

/// The rendered description of a [`StackFailure`].
pub open spec fn spec_failure_message(failure: StackFailureView) -> Seq<char> {
    "Stack operation failed for "@ + failure.stack_id + "; terminal status: "@
        + failure.stack_status.spec_str() + " ("@ + failure.stack_status_reason + ")"@ + (
    if failure.resource_events.len() == 0 {
        Seq::<char>::empty()
    } else {
        "\nThe following resources had errors:"@
    }) + spec_resource_event_lines(failure.resource_events)
}

impl StackFailure {
    /// Render the failure as text, naming the stack, its terminal
    /// status, the first failure reason and every negative resource
    /// event.
    pub fn message(&self) -> (r: String)
        ensures
            r@ == spec_failure_message(self@),
    {
        let mut rendered = "Stack operation failed for ".to_owned();
        rendered.append(self.stack_id.as_str());
        rendered.append("; terminal status: ");
        rendered.append(self.stack_status.to_str());
        rendered.append(" (");
        rendered.append(self.stack_status_reason.as_str());
        rendered.append(")");
        if self.resource_events.len() > 0 {
            rendered.append("\nThe following resources had errors:");
        }
        rendered.append(resource_event_lines(&self.resource_events).as_str());
        rendered
    }
}

/// The rendered description of a [`StackWarning`].
pub open spec fn spec_warning_message(warning: StackWarningView) -> Seq<char> {
    "Stack "@ + warning.stack_id + " applied successfully but some resources had errors:"@
        + spec_resource_event_lines(warning.resource_events)
}

impl StackWarning {
    /// Render the warning as text, naming the stack and every negative
    /// resource event.
    pub fn message(&self) -> (r: String)
        ensures
            r@ == spec_warning_message(self@),
    {
        let mut rendered = "Stack ".to_owned();
        rendered.append(self.stack_id.as_str());
        rendered.append(" applied successfully but some resources had errors:");
        rendered.append(resource_event_lines(&self.resource_events).as_str());
        rendered
    }
}

/// The unsuccessful outcomes of a tracked stack operation.
#[derive(Debug, PartialEq, Eq)]
pub enum StackOperationError {
    /// The operation settled with a negative terminal status.
    Failure(StackFailure),

    /// The operation settled successfully, but negative resource events
    /// occurred along the way.
    Warning(StackWarning),
}

/// The error raised when a stack status falls outside the sets the
/// operation's progress classifier knows.
///
/// This signals that the status model is stale; the operation must abort
/// loudly rather than poll forever or guess.
#[derive(Clone, Copy, Debug, PartialEq, Eq, Structural)]
pub struct UnexpectedStatus {
    /// The status that the classifier did not recognise.
    pub stack_status: StackStatus,
}

/// The first index of `key` in the alias table at or after `i`.
pub open spec fn key_index_from(
    aliases: Seq<(Seq<char>, Seq<char>)>,
    key: Seq<char>,
    i: int,
) -> Option<int>
    decreases aliases.len() - i,
    when 0 <= i <= aliases.len()
{
    if i >= aliases.len() {
        None
    } else if aliases[i].0 == key {
        Some(i)
    } else {
        key_index_from(aliases, key, i + 1)
    }
}

/// The alias registered for `key`, if any.
pub open spec fn alias_of(
    aliases: Seq<(Seq<char>, Seq<char>)>,
    key: Seq<char>,
) -> Option<Seq<char>> {
    match key_index_from(aliases, key, 0) {
        Some(i) => Some(aliases[i].1),
        None => None,
    }
}

/// The alias table with `key` bound to `val`, replacing any previous
/// binding.
pub open spec fn alias_put(
    aliases: Seq<(Seq<char>, Seq<char>)>,
    key: Seq<char>,
    val: Seq<char>,
) -> Seq<(Seq<char>, Seq<char>)> {
    match key_index_from(aliases, key, 0) {
        Some(i) => aliases.update(i, (key, val)),
        None => aliases.push((key, val)),
    }
}

/// The path-qualified alias for a resource with logical id `logical`
/// owned by the stack with id `owner`: the owner's own alias, if it has
/// one, extended by a path separator and the logical id.
pub open spec fn alias_path(
    aliases: Seq<(Seq<char>, Seq<char>)>,
    owner: Seq<char>,
    logical: Seq<char>,
) -> Seq<char> {
    match alias_of(aliases, owner) {
        Some(prefix) => prefix + "/"@ + logical,
        None => logical,
    }
}

/// The mathematical state of a [`StackOperation`].
pub ghost struct StackOperationView {
    /// The id of the root stack.
    pub stack_id: Seq<char>,
    /// The kind of operation, which selects the progress classifier.
    pub kind: OperationKind,
    /// The cursor: events at or before this time have been seen.
    pub since: int,
    /// The nested-stack alias table: child stack id to path alias.
    pub aliases: Seq<(Seq<char>, Seq<char>)>,
    /// The terminal error status, once one has been classified.
    pub error_status: Option<StackStatus>,
    /// The first reason attached to a negative root-stack event.
    pub error_reason: Option<Seq<char>>,
    /// The negative resource events observed, in order.
    pub resource_errors: Seq<(ResourceStatus, StackEventDetailsView)>,
    /// Whether a settled root-stack event has been observed.
    pub done: bool,
}

/// Tracks one operation on one root stack through the stack's events.
#[derive(Debug)]
pub struct StackOperation {
    stack_id: String,
    kind: OperationKind,
    since: i64,
    nested_stacks: Vec<(String, String)>,
    stack_error_status: Option<StackStatus>,
    stack_error_status_reason: Option<String>,
    resource_error_events: Vec<(ResourceStatus, StackEventDetails)>,
    done: bool,
}

impl View for StackOperation {
    type V = StackOperationView;

    closed spec fn view(&self) -> StackOperationView {
        StackOperationView {
            stack_id: self.stack_id@,
            kind: self.kind,
            since: self.since as int,
            aliases: Seq::new(
                self.nested_stacks@.len(),
                |i: int| (self.nested_stacks@[i].0@, self.nested_stacks@[i].1@),
            ),
            error_status: self.stack_error_status,
            error_reason: match self.stack_error_status_reason {
                Some(r) => Some(r@),
                None => None,
            },
            resource_errors: resource_events_view(self.resource_error_events@),
            done: self.done,
        }
    }
}

impl StackOperation {
    /// Start tracking an operation of the given kind on the stack with
    /// the given id, admitting only events after `started_at`
    /// (milliseconds since the epoch).
    pub fn new(stack_id: String, started_at: i64, kind: OperationKind) -> (r: StackOperation)
        ensures
            r@ == (StackOperationView {
                stack_id: stack_id@,
                kind,
                since: started_at as int,
                aliases: Seq::empty(),
                error_status: None,
                error_reason: None,
                resource_errors: Seq::empty(),
                done: false,
            }),
    {
        let r = StackOperation {
            stack_id,
            kind,
            since: started_at,
            nested_stacks: Vec::new(),
            stack_error_status: None,
            stack_error_status_reason: None,
            resource_error_events: Vec::new(),
            done: false,
        };
        proof {
            assert(r@.aliases =~= Seq::<(Seq<char>, Seq<char>)>::empty());
            assert(r@.resource_errors =~= Seq::<(ResourceStatus, StackEventDetailsView)>::empty());
        }
        r
    }

    /// The stack ids whose events the next cycle should fetch: the root
    /// stack and every known nested stack.
    pub fn stack_ids(&self) -> (r: Vec<String>)
        ensures
            r.deep_view() == seq![self@.stack_id] + Seq::new(
                self@.aliases.len(),
                |i: int| self@.aliases[i].0,
            ),
    {
        let mut ids: Vec<String> = Vec::new();
        ids.push(self.stack_id.clone());
        let mut i: usize = 0;
        while i < self.nested_stacks.len()
            invariant
                i <= self.nested_stacks@.len(),
                ids@.len() == i + 1,
                ids@[0]@ == self.stack_id@,
                forall|k: int| 1 <= k <= i ==> ids@[k]@ == self.nested_stacks@[k - 1].0@,
            decreases self.nested_stacks@.len() - i,
        {
            ids.push(self.nested_stacks[i].0.clone());
            i = i + 1;
        }
        proof {
            assert(ids.deep_view() =~~= seq![self@.stack_id] + Seq::new(
                self@.aliases.len(),
                |k: int| self@.aliases[k].0,
            ));
        }
        ids
    }

    /// Whether a settled root-stack event has been observed, ending the
    /// operation.
    pub fn is_done(&self) -> (r: bool)
        ensures
            r == self@.done,
    {
        self.done
    }

    /// Look up the alias registered for the given stack id.
    fn alias_get(&self, key: &str) -> (r: Option<String>)
        ensures
            match (r, alias_of(self@.aliases, key@)) {
                (Some(x), Some(y)) => x@ == y,
                (None, None) => true,
                _ => false,
            },
    {
        let mut i: usize = 0;
        while i < self.nested_stacks.len()
            invariant
                i <= self.nested_stacks@.len(),
                key_index_from(self@.aliases, key@, 0) == key_index_from(
                    self@.aliases,
                    key@,
                    i as int,
                ),
            decreases self.nested_stacks@.len() - i,
        {
            if text::str_eq(self.nested_stacks[i].0.as_str(), key) {
                return Some(self.nested_stacks[i].1.clone());
            }
            i = i + 1;
        }
        None
    }

    /// Bind `key` to `val` in the alias table, replacing any previous
    /// binding.
    fn alias_set(&mut self, key: String, val: String)
        ensures
            final(self)@ == (StackOperationView {
                aliases: alias_put(old(self)@.aliases, key@, val@),
                ..old(self)@
            }),
    {
        let mut i: usize = 0;
        while i < self.nested_stacks.len()
            invariant
                i <= self.nested_stacks@.len(),
                *self == *old(self),
                key_index_from(self@.aliases, key@, 0) == key_index_from(
                    self@.aliases,
                    key@,
                    i as int,
                ),
            decreases self.nested_stacks@.len() - i,
        {
            if text::str_eq(self.nested_stacks[i].0.as_str(), key.as_str()) {
                self.nested_stacks.set(i, (key, val));
                proof {
                    assert(final(self)@.aliases =~= alias_put(old(self)@.aliases, key@, val@));
                }
                return;
            }
            i = i + 1;
        }
        self.nested_stacks.push((key, val));
        proof {
            assert(final(self)@.aliases =~= alias_put(old(self)@.aliases, key@, val@));
        }
    }
}

/// The mathematical values of a sequence of events.
pub open spec fn views_of(events: Seq<StackEvent>) -> Seq<StackEventView> {
    Seq::new(events.len(), |i: int| events[i]@)
}

/// The nested-stack registration an event carries, if any: a resource
/// event for a nested-stack resource with a nonempty physical id
/// announces that the physical id (the child stack's own id) lives at the
/// event's logical id under the owning stack.
pub open spec fn nested_registration(e: StackEventView) -> Option<(Seq<char>, Seq<char>)> {
    match e {
        StackEventView::Resource { details, .. } => match details.physical_resource_id {
            Some(pid) => if details.resource_type == "AWS::CloudFormation::Stack"@
                && pid.len() > 0 {
                Some((pid, details.logical_resource_id))
            } else {
                None
            },
            None => None,
        },
        StackEventView::Stack { .. } => None,
    }
}

/// The event with its stack alias replaced.
pub open spec fn with_alias(e: StackEventView, alias: Option<Seq<char>>) -> StackEventView {
    match e {
        StackEventView::Resource { resource_status, details } => StackEventView::Resource {
            resource_status,
            details: StackEventDetailsView { stack_alias: alias, ..details },
        },
        StackEventView::Stack { resource_status, details } => StackEventView::Stack {
            resource_status,
            details: StackEventDetailsView { stack_alias: alias, ..details },
        },
    }
}

/// One step of the tracker: how the state changes when one admitted event
/// is processed, and the attributed event that is emitted.
///
/// `None` means the operation aborts: the event reported a root-stack
/// status outside the progress classifier's known sets.
///
/// In order: a nested-stack resource event registers its alias before
/// anything else, so that later events of the same cycle can already be
/// attributed; the event is attributed with its owning stack's alias; a
/// negative resource event is recorded as evidence; a root-stack event
/// records the first negative reason, is classified for progress, and
/// settles the operation if its status is settled.
pub open spec fn step_event(
    st: StackOperationView,
    e: StackEventView,
) -> Option<(StackOperationView, StackEventView)> {
    let aliases1 = match nested_registration(e) {
        Some((child, logical)) => alias_put(
            st.aliases,
            child,
            alias_path(st.aliases, e.stack_id(), logical),
        ),
        None => st.aliases,
    };
    let e1 = with_alias(e, alias_of(aliases1, e.stack_id()));
    match e1 {
        StackEventView::Resource { resource_status, details } => {
            let resource_errors1 = if resource_status.spec_sentiment()
                == StatusSentiment::Negative {
                st.resource_errors.push((resource_status, details))
            } else {
                st.resource_errors
            };
            Some(
                (
                    StackOperationView {
                        aliases: aliases1,
                        resource_errors: resource_errors1,
                        ..st
                    },
                    e1,
                ),
            )
        },
        StackEventView::Stack { resource_status, details } => {
            if details.stack_id == st.stack_id {
                let reason1 = if resource_status.spec_sentiment() == StatusSentiment::Negative
                    && details.resource_status_reason is Some && st.error_reason is None {
                    details.resource_status_reason
                } else {
                    st.error_reason
                };
                match st.kind.spec_check(resource_status) {
                    StackOperationStatus::Unexpected => None,
                    StackOperationStatus::Failed => Some(
                        (
                            StackOperationView {
                                aliases: aliases1,
                                error_reason: reason1,
                                error_status: Some(resource_status),
                                done: st.done || resource_status.spec_settled(),
                                ..st
                            },
                            e1,
                        ),
                    ),
                    _ => Some(
                        (
                            StackOperationView {
                                aliases: aliases1,
                                error_reason: reason1,
                                done: st.done || resource_status.spec_settled(),
                                ..st
                            },
                            e1,
                        ),
                    ),
                }
            } else {
                Some((StackOperationView { aliases: aliases1, ..st }, e1))
            }
        },
    }
}

/// The tracker's fold over a chronological sequence of admitted events:
/// the final state and the attributed events, or `None` if some event
/// aborts the operation.
pub open spec fn run_events(
    st: StackOperationView,
    evs: Seq<StackEventView>,
) -> Option<(StackOperationView, Seq<StackEventView>)>
    decreases evs.len(),
{
    if evs.len() == 0 {
        Some((st, Seq::empty()))
    } else {
        match step_event(st, evs.first()) {
            None => None,
            Some((st1, e1)) => match run_events(st1, evs.drop_first()) {
                None => None,
                Some((st2, rest)) => Some((st2, seq![e1] + rest)),
            },
        }
    }
}

impl StackOperation {
    /// Process one admitted event: register aliases, attribute the event,
    /// record evidence and classify progress.
    fn apply_event(&mut self, event: StackEvent) -> (r: Result<StackEvent, UnexpectedStatus>)
        ensures
            match r {
                Ok(out) => step_event(old(self)@, event@) matches Some(p) && p.0 == final(self)@
                    && p.1 == out@,
                Err(_) => step_event(old(self)@, event@) is None,
            },
    {
        let mut event = event;
        let registration: Option<(String, String)> = match &event {
            StackEvent::Resource { details, .. } => match &details.physical_resource_id {
                Some(pid) => {
                    if text::str_eq(details.resource_type.as_str(), "AWS::CloudFormation::Stack")
                        && pid.as_str().unicode_len() > 0 {
                        Some((pid.clone(), details.logical_resource_id.clone()))
                    } else {
                        None
                    }
                },
                None => None,
            },
            StackEvent::Stack { .. } => None,
        };
        if let Some((child, logical)) = registration {
            let path: String = match self.alias_get(event.stack_id()) {
                Some(prefix) => {
                    let mut p = prefix;
                    p.append("/");
                    p.append(logical.as_str());
                    p
                },
                None => logical,
            };
            self.alias_set(child, path);
        }
        let alias = self.alias_get(event.stack_id());
        match &mut event {
            StackEvent::Resource { details, .. } => {
                details.stack_alias = alias;
            },
            StackEvent::Stack { details, .. } => {
                details.stack_alias = alias;
            },
        }
        match &event {
            StackEvent::Resource { resource_status, details } => {
                if resource_status.sentiment().is_negative() {
                    self.resource_error_events.push((*resource_status, details.clone()));
                    proof {
                        assert(self@.resource_errors =~= old(self)@.resource_errors.push(
                            (*resource_status, details@),
                        ));
                    }
                }
            },
            StackEvent::Stack { resource_status, details } => {
                if text::str_eq(details.stack_id.as_str(), self.stack_id.as_str()) {
                    if resource_status.sentiment().is_negative() {
                        if let Some(reason) = &details.resource_status_reason {
                            if self.stack_error_status_reason.is_none() {
                                self.stack_error_status_reason = Some(reason.clone());
                            }
                        }
                    }
                    match self.kind.check(*resource_status) {
                        StackOperationStatus::Unexpected => {
                            return Err(UnexpectedStatus { stack_status: *resource_status });
                        },
                        StackOperationStatus::Failed => {
                            self.stack_error_status = Some(*resource_status);
                        },
                        _ => {},
                    }
                    if resource_status.is_settled() {
                        self.done = true;
                    }
                }
            },
        }
        Ok(event)
    }

    /// Process a chronological sequence of admitted events, in order.
    ///
    /// Returns the attributed events, or the unexpected status on which
    /// the operation aborted.
    pub fn process_events(&mut self, events: Vec<StackEvent>) -> (r: Result<
        Vec<StackEvent>,
        UnexpectedStatus,
    >)
        ensures
            match r {
                Ok(out) => run_events(old(self)@, views_of(events@)) matches Some(p) && p.0
                    == final(self)@ && p.1 == views_of(out@),
                Err(_) => run_events(old(self)@, views_of(events@)) is None,
            },
    {
        let ghost st0 = self@;
        let ghost evs = views_of(events@);
        let mut out: Vec<StackEvent> = Vec::new();
        proof {
            assert(evs.skip(0) =~= evs);
            match run_events(self@, evs) {
                Some(p) => {
                    assert(views_of(out@) + p.1 =~= p.1);
                },
                None => {},
            }
        }
        let mut i: usize = 0;
        while i < events.len()
            invariant
                i <= events@.len(),
                evs == views_of(events@),
                st0 == old(self)@,
                match run_events(self@, evs.skip(i as int)) {
                    Some(p) => run_events(st0, evs) == Some((p.0, views_of(out@) + p.1)),
                    None => run_events(st0, evs) is None,
                },
            decreases events@.len() - i,
        {
            let ghost st_before = self@;
            let ghost out_before = views_of(out@);
            let ev = events[i].clone();
            proof {
                assert(ev@ == evs.skip(i as int).first());
                assert(evs.skip(i as int).drop_first() =~= evs.skip(i as int + 1));
            }
            match self.apply_event(ev) {
                Ok(attributed) => {
                    let ghost e1 = attributed@;
                    out.push(attributed);
                    proof {
                        assert(views_of(out@) =~= out_before.push(e1));
                        match run_events(self@, evs.skip(i as int + 1)) {
                            Some(q) => {
                                assert(run_events(st_before, evs.skip(i as int)) == Some(
                                    (q.0, seq![e1] + q.1),
                                ));
                                assert(out_before + (seq![e1] + q.1) =~= views_of(out@) + q.1);
                            },
                            None => {},
                        }
                    }
                },
                Err(unexpected) => {
                    return Err(unexpected);
                },
            }
            i = i + 1;
        }
        proof {
            assert(evs.skip(events@.len() as int) =~= Seq::<StackEventView>::empty());
            match run_events(self@, evs.skip(events@.len() as int)) {
                Some(p) => {
                    assert(views_of(out@) + p.1 =~= views_of(out@));
                },
                None => {},
            }
        }
        Ok(out)
    }
}

/// Whether the tracker admits an event: it must be newer than the
/// cursor, and a stack-type event must concern the root stack itself —
/// stack-type events of nested stacks are redundant with the parent's
/// resource-type event for the same nested-stack resource.
pub open spec fn admit_event(e: StackEventView, since: int, root: Seq<char>) -> bool {
    &&& e.timestamp() > since
    &&& match e {
        StackEventView::Stack { details, .. } => details.stack_id == root,
        StackEventView::Resource { .. } => true,
    }
}

/// The admitted events of one newest-first page, re-reversed into
/// chronological order.
pub open spec fn kept_events(
    page: Seq<StackEventView>,
    since: int,
    root: Seq<char>,
) -> Seq<StackEventView>
    decreases page.len(),
{
    if page.len() == 0 {
        Seq::empty()
    } else {
        kept_events(page.drop_first(), since, root) + (if admit_event(page.first(), since, root) {
            seq![page.first()]
        } else {
            Seq::empty()
        })
    }
}

/// Whether the sequence is in chronological order.
pub open spec fn sorted_by_time(s: Seq<StackEventView>) -> bool {
    forall|i: int, j: int| 0 <= i < j < s.len() ==> s[i].timestamp() <= s[j].timestamp()
}

/// Whether the sequence is newest-first, as the remote event API returns
/// its pages.
pub open spec fn newest_first(s: Seq<StackEventView>) -> bool {
    forall|i: int, j: int| 0 <= i < j < s.len() ==> s[i].timestamp() >= s[j].timestamp()
}

/// The admitted events of a newest-first page are chronological, all
/// admitted, and no newer than the head of the page.
pub proof fn lemma_kept_events_props(page: Seq<StackEventView>, since: int, root: Seq<char>)
    requires
        newest_first(page),
    ensures
        sorted_by_time(kept_events(page, since, root)),
        forall|k: int|
            0 <= k < kept_events(page, since, root).len() ==> admit_event(
                #[trigger] kept_events(page, since, root)[k],
                since,
                root,
            ),
        forall|k: int|
            0 <= k < kept_events(page, since, root).len() ==> page.len() > 0 && #[trigger] kept_events(
                page,
                since,
                root,
            )[k].timestamp() <= page.first().timestamp(),
    decreases page.len(),
{
    if page.len() > 0 {
        assert(newest_first(page.drop_first()));
        lemma_kept_events_props(page.drop_first(), since, root);
        let rest = kept_events(page.drop_first(), since, root);
        assert forall|k: int| 0 <= k < rest.len() implies rest[k].timestamp()
            <= page.first().timestamp() by {
            if page.drop_first().len() > 0 {
                assert(rest[k].timestamp() <= page.drop_first().first().timestamp());
                assert(page.drop_first().first() == page[1]);
                assert(page[1].timestamp() <= page[0].timestamp());
            }
        }
    }
}

/// Two chronological sequences, merged into one chronological sequence.
/// Ties go to the left sequence.
pub open spec fn merged_by_time(
    a: Seq<StackEventView>,
    b: Seq<StackEventView>,
) -> Seq<StackEventView>
    decreases a.len() + b.len(),
{
    if a.len() == 0 {
        b
    } else if b.len() == 0 {
        a
    } else if a.first().timestamp() <= b.first().timestamp() {
        seq![a.first()] + merged_by_time(a.drop_first(), b)
    } else {
        seq![b.first()] + merged_by_time(a, b.drop_first())
    }
}

/// Merging preserves chronological order and any per-event bound that
/// holds of both inputs.
pub proof fn lemma_merged_by_time_props(
    a: Seq<StackEventView>,
    b: Seq<StackEventView>,
    since: int,
    root: Seq<char>,
)
    requires
        sorted_by_time(a),
        sorted_by_time(b),
        forall|k: int| 0 <= k < a.len() ==> admit_event(#[trigger] a[k], since, root),
        forall|k: int| 0 <= k < b.len() ==> admit_event(#[trigger] b[k], since, root),
    ensures
        sorted_by_time(merged_by_time(a, b)),
        merged_by_time(a, b).len() == a.len() + b.len(),
        forall|k: int|
            0 <= k < merged_by_time(a, b).len() ==> admit_event(
                #[trigger] merged_by_time(a, b)[k],
                since,
                root,
            ),
    decreases a.len() + b.len(),
{
    if a.len() == 0 || b.len() == 0 {
    } else if a.first().timestamp() <= b.first().timestamp() {
        assert(sorted_by_time(a.drop_first()));
        lemma_merged_by_time_props(a.drop_first(), b, since, root);
        let m = merged_by_time(a.drop_first(), b);
        assert forall|k: int| 0 <= k < m.len() implies a.first().timestamp()
            <= m[k].timestamp() by {
            lemma_merged_member(a.drop_first(), b, k);
        }
    } else {
        assert(sorted_by_time(b.drop_first()));
        lemma_merged_by_time_props(a, b.drop_first(), since, root);
        let m = merged_by_time(a, b.drop_first());
        assert forall|k: int| 0 <= k < m.len() implies b.first().timestamp()
            <= m[k].timestamp() by {
            lemma_merged_member(a, b.drop_first(), k);
        }
    }
}

/// Every element of a merge is an element of one of the inputs.
pub proof fn lemma_merged_member(a: Seq<StackEventView>, b: Seq<StackEventView>, k: int)
    requires
        0 <= k < merged_by_time(a, b).len(),
    ensures
        (exists|i: int| 0 <= i < a.len() && merged_by_time(a, b)[k] == a[i]) || (exists|j: int|
            0 <= j < b.len() && merged_by_time(a, b)[k] == b[j]),
    decreases a.len() + b.len(),
{
    if a.len() == 0 {
        assert(merged_by_time(a, b)[k] == b[k]);
    } else if b.len() == 0 {
        assert(merged_by_time(a, b)[k] == a[k]);
    } else if a.first().timestamp() <= b.first().timestamp() {
        if k == 0 {
            assert(merged_by_time(a, b)[0] == a[0]);
        } else {
            lemma_merged_member(a.drop_first(), b, k - 1);
            assert(merged_by_time(a, b)[k] == merged_by_time(a.drop_first(), b)[k - 1]);
        }
    } else {
        if k == 0 {
            assert(merged_by_time(a, b)[0] == b[0]);
        } else {
            lemma_merged_member(a, b.drop_first(), k - 1);
            assert(merged_by_time(a, b)[k] == merged_by_time(a, b.drop_first())[k - 1]);
        }
    }
}

/// The admitted events of a whole polling cycle, merged into one
/// chronological sequence, page by page.
pub open spec fn cycle_merged(
    pages: Seq<Seq<StackEventView>>,
    since: int,
    root: Seq<char>,
) -> Seq<StackEventView>
    decreases pages.len(),
{
    if pages.len() == 0 {
        Seq::empty()
    } else {
        merged_by_time(
            cycle_merged(pages.drop_last(), since, root),
            kept_events(pages.last(), since, root),
        )
    }
}

/// A cycle's merged events are chronological and all admitted.
pub proof fn lemma_cycle_merged_props(pages: Seq<Seq<StackEventView>>, since: int, root: Seq<char>)
    requires
        forall|p: int| 0 <= p < pages.len() ==> newest_first(#[trigger] pages[p]),
    ensures
        sorted_by_time(cycle_merged(pages, since, root)),
        forall|k: int|
            0 <= k < cycle_merged(pages, since, root).len() ==> admit_event(
                #[trigger] cycle_merged(pages, since, root)[k],
                since,
                root,
            ),
    decreases pages.len(),
{
    if pages.len() > 0 {
        lemma_cycle_merged_props(pages.drop_last(), since, root);
        lemma_kept_events_props(pages.last(), since, root);
        lemma_merged_by_time_props(
            cycle_merged(pages.drop_last(), since, root),
            kept_events(pages.last(), since, root),
            since,
            root,
        );
    }
}

/// The time to which a cycle advances the cursor: the newest time among
/// `floor` and the events of `s`.
pub open spec fn max_ts_or(s: Seq<StackEventView>, floor: int) -> int
    decreases s.len(),
{
    if s.len() == 0 {
        floor
    } else {
        max_ts_or(
            s.drop_first(),
            if s.first().timestamp() > floor {
                s.first().timestamp()
            } else {
                floor
            },
        )
    }
}

/// The characteristic properties of [`max_ts_or`].
pub proof fn lemma_max_ts_or(s: Seq<StackEventView>, floor: int)
    ensures
        max_ts_or(s, floor) >= floor,
        forall|k: int| 0 <= k < s.len() ==> #[trigger] s[k].timestamp() <= max_ts_or(s, floor),
    decreases s.len(),
{
    if s.len() > 0 {
        let floor1 = if s.first().timestamp() > floor {
            s.first().timestamp()
        } else {
            floor
        };
        lemma_max_ts_or(s.drop_first(), floor1);
        assert forall|k: int| 0 <= k < s.len() implies #[trigger] s[k].timestamp() <= max_ts_or(
            s,
            floor,
        ) by {
            if k > 0 {
                assert(s.drop_first()[k - 1] == s[k]);
            }
        }
    }
}

/// The attributed events of a run carry the same timestamps as the
/// admitted events they came from.
pub proof fn lemma_run_events_timestamps(st: StackOperationView, evs: Seq<StackEventView>)
    ensures
        match run_events(st, evs) {
            Some(p) => p.1.len() == evs.len() && forall|k: int|
                0 <= k < evs.len() ==> #[trigger] p.1[k].timestamp() == evs[k].timestamp(),
            None => true,
        },
    decreases evs.len(),
{
    if evs.len() > 0 {
        match step_event(st, evs.first()) {
            None => {},
            Some((st1, e1)) => {
                lemma_run_events_timestamps(st1, evs.drop_first());
                match run_events(st1, evs.drop_first()) {
                    None => {},
                    Some((st2, rest)) => {
                        assert forall|k: int| 0 <= k < evs.len() implies #[trigger] (seq![e1]
                            + rest)[k].timestamp() == evs[k].timestamp() by {
                            if k > 0 {
                                assert((seq![e1] + rest)[k] == rest[k - 1]);
                                assert(evs.drop_first()[k - 1] == evs[k]);
                            }
                        }
                    },
                }
            },
        }
    }
}

/// A run of the tracker never changes the operation's identity: the
/// root stack id, the kind and the cursor stay what they were.
pub proof fn lemma_run_events_preserves(st: StackOperationView, evs: Seq<StackEventView>)
    ensures
        match run_events(st, evs) {
            Some(p) => p.0.since == st.since && p.0.stack_id == st.stack_id && p.0.kind
                == st.kind,
            None => true,
        },
    decreases evs.len(),
{
    if evs.len() > 0 {
        match step_event(st, evs.first()) {
            None => {},
            Some((st1, e1)) => {
                lemma_run_events_preserves(st1, evs.drop_first());
            },
        }
    }
}

/// Nested alias correctness: when the root stack's resource event
/// registers child stack `b_id` under logical name `child`, and an event
/// owned by `b_id` then registers grandchild stack `c_id` under logical
/// name `grandchild`, the grandchild's alias is the path
/// `child/grandchild` — events owned by `c_id` are attributed with the
/// full path even though the remote system reports them with no path
/// context.
pub proof fn lemma_nested_alias_chaining(
    root: Seq<char>,
    b_id: Seq<char>,
    c_id: Seq<char>,
    child: Seq<char>,
    grandchild: Seq<char>,
)
    requires
        b_id != c_id,
    ensures
        ({
            let first = alias_put(
                Seq::empty(),
                b_id,
                alias_path(Seq::empty(), root, child),
            );
            let second = alias_put(first, c_id, alias_path(first, b_id, grandchild));
            &&& alias_of(second, b_id) == Some(child)
            &&& alias_of(second, c_id) == Some(child + "/"@ + grandchild)
        }),
{
    let empty = Seq::<(Seq<char>, Seq<char>)>::empty();
    assert(key_index_from(empty, root, 0) is None);
    assert(key_index_from(empty, b_id, 0) is None);
    let first = alias_put(empty, b_id, alias_path(empty, root, child));
    assert(first =~= seq![(b_id, child)]);
    assert(key_index_from(first, b_id, 0) == Some(0int));
    assert(key_index_from(first, c_id, 0) == key_index_from(first, c_id, 1));
    assert(key_index_from(first, c_id, 1) is None);
    let second = alias_put(first, c_id, alias_path(first, b_id, grandchild));
    assert(second =~= seq![(b_id, child), (c_id, child + "/"@ + grandchild)]);
    assert(key_index_from(second, b_id, 0) == Some(0int));
    assert(key_index_from(second, c_id, 0) == key_index_from(second, c_id, 1));
    assert(key_index_from(second, c_id, 1) == Some(1int));
}

/// The first reason attached to a negative root-stack event in `evs`.
pub open spec fn first_negative_root_reason(
    evs: Seq<StackEventView>,
    root: Seq<char>,
) -> Option<Seq<char>>
    decreases evs.len(),
{
    if evs.len() == 0 {
        None
    } else {
        match evs.first() {
            StackEventView::Stack { resource_status, details } => {
                if details.stack_id == root && resource_status.spec_sentiment()
                    == StatusSentiment::Negative && details.resource_status_reason is Some {
                    details.resource_status_reason
                } else {
                    first_negative_root_reason(evs.drop_first(), root)
                }
            },
            StackEventView::Resource { .. } => first_negative_root_reason(evs.drop_first(), root),
        }
    }
}

/// Failure reason selection: over any run of the tracker, the recorded
/// failure reason is the reason of the *first* negative root-stack event
/// that carried one — a later negative event never replaces it.
pub proof fn lemma_failure_reason_selection(st: StackOperationView, evs: Seq<StackEventView>)
    ensures
        match run_events(st, evs) {
            Some(p) => p.0.error_reason == (match st.error_reason {
                Some(reason) => Some(reason),
                None => first_negative_root_reason(evs, st.stack_id),
            }),
            None => true,
        },
    decreases evs.len(),
{
    if evs.len() > 0 {
        match step_event(st, evs.first()) {
            None => {},
            Some((st1, e1)) => {
                lemma_failure_reason_selection(st1, evs.drop_first());
            },
        }
    }
}

/// Unexpected status abort: processing an event aborts the operation if
/// and only if the event reports, for the root stack, a status outside
/// the progress classifier's known sets.
pub proof fn lemma_unexpected_status_aborts(st: StackOperationView, e: StackEventView)
    ensures
        step_event(st, e) is None <==> (e matches StackEventView::Stack {
            resource_status,
            details,
        } && details.stack_id == st.stack_id && st.kind.spec_check(resource_status)
            == StackOperationStatus::Unexpected),
{
}

/// The result of processing one polling cycle from state `st`: the
/// cursor advances to the newest admitted time, and the merged admitted
/// events run through the tracker.
pub open spec fn spec_process_cycle(
    st: StackOperationView,
    pages: Seq<Seq<StackEventView>>,
) -> Option<(StackOperationView, Seq<StackEventView>)> {
    let merged = cycle_merged(pages, st.since, st.stack_id);
    let st1 = StackOperationView { since: max_ts_or(merged, st.since), ..st };
    run_events(st1, merged)
}

/// The mathematical values of a cycle's pages.
pub open spec fn pages_views(pages: Seq<Vec<StackEvent>>) -> Seq<Seq<StackEventView>> {
    Seq::new(pages.len(), |i: int| views_of(pages[i]@))
}

/// Event ordering within one cycle: the delivered events are
/// chronological, strictly newer than the cursor before the cycle, and
/// no newer than the cursor after it, which only ever advances.
pub proof fn lemma_event_ordering(st: StackOperationView, pages: Seq<Seq<StackEventView>>)
    requires
        forall|p: int| 0 <= p < pages.len() ==> newest_first(#[trigger] pages[p]),
    ensures
        match spec_process_cycle(st, pages) {
            Some(p) => sorted_by_time(p.1) && st.since <= p.0.since && forall|k: int|
                0 <= k < p.1.len() ==> st.since < #[trigger] p.1[k].timestamp() <= p.0.since,
            None => true,
        },
{
    let merged = cycle_merged(pages, st.since, st.stack_id);
    let st1 = StackOperationView { since: max_ts_or(merged, st.since), ..st };
    lemma_cycle_merged_props(pages, st.since, st.stack_id);
    lemma_max_ts_or(merged, st.since);
    lemma_run_events_timestamps(st1, merged);
    lemma_run_events_preserves(st1, merged);
    match run_events(st1, merged) {
        Some(p) => {
            assert forall|k: int| 0 <= k < p.1.len() implies st.since
                < #[trigger] p.1[k].timestamp() <= p.0.since by {
                assert(p.1[k].timestamp() == merged[k].timestamp());
                assert(admit_event(merged[k], st.since, st.stack_id));
                assert(merged[k].timestamp() <= max_ts_or(merged, st.since));
            }
        },
        None => {},
    }
}

/// No re-delivery across cycles: every event of a later cycle is
/// strictly newer than every event of an earlier one, so the
/// concatenation of the two cycles' deliveries is chronological and an
/// event already delivered can never appear again.
pub proof fn lemma_cycles_no_redelivery(
    st: StackOperationView,
    pages1: Seq<Seq<StackEventView>>,
    pages2: Seq<Seq<StackEventView>>,
)
    requires
        forall|p: int| 0 <= p < pages1.len() ==> newest_first(#[trigger] pages1[p]),
        forall|p: int| 0 <= p < pages2.len() ==> newest_first(#[trigger] pages2[p]),
    ensures
        match spec_process_cycle(st, pages1) {
            Some(c1) => match spec_process_cycle(c1.0, pages2) {
                Some(c2) => sorted_by_time(c1.1 + c2.1) && forall|i: int, j: int|
                    0 <= i < c1.1.len() && 0 <= j < c2.1.len() ==> #[trigger] c1.1[i].timestamp()
                        < #[trigger] c2.1[j].timestamp(),
                None => true,
            },
            None => true,
        },
{
    lemma_event_ordering(st, pages1);
    match spec_process_cycle(st, pages1) {
        Some(c1) => {
            lemma_event_ordering(c1.0, pages2);
            match spec_process_cycle(c1.0, pages2) {
                Some(c2) => {
                    assert forall|i: int, j: int|
                        0 <= i < (c1.1 + c2.1).len() && 0 <= j < (c1.1 + c2.1).len() && i
                            < j implies (c1.1 + c2.1)[i].timestamp() <= (c1.1
                        + c2.1)[j].timestamp() by {
                        if j < c1.1.len() {
                        } else if i >= c1.1.len() {
                            assert((c1.1 + c2.1)[i] == c2.1[i - c1.1.len()]);
                            assert((c1.1 + c2.1)[j] == c2.1[j - c1.1.len()]);
                        } else {
                            assert((c1.1 + c2.1)[i] == c1.1[i]);
                            assert((c1.1 + c2.1)[j] == c2.1[j - c1.1.len()]);
                            assert(c1.1[i].timestamp() <= c1.0.since);
                            assert(c2.1[j - c1.1.len()].timestamp() > c1.0.since);
                        }
                    }
                },
                None => {},
            }
        },
        None => {},
    }
}

/// The admitted events of one newest-first page, in chronological order.
fn keep_page(page: &Vec<StackEvent>, since: i64, root: &str) -> (out: Vec<StackEvent>)
    ensures
        views_of(out@) == kept_events(views_of(page@), since as int, root@),
{
    let ghost pv = views_of(page@);
    let mut out: Vec<StackEvent> = Vec::new();
    let mut i: usize = page.len();
    proof {
        assert(pv.skip(i as int) =~= Seq::<StackEventView>::empty());
        assert(views_of(out@) =~= Seq::<StackEventView>::empty());
    }
    while i > 0
        invariant
            i <= page@.len(),
            pv == views_of(page@),
            views_of(out@) == kept_events(pv.skip(i as int), since as int, root@),
        decreases i,
    {
        i = i - 1;
        let admitted = page[i].timestamp() > since && (match &page[i] {
            StackEvent::Stack { details, .. } => text::str_eq(details.stack_id.as_str(), root),
            StackEvent::Resource { .. } => true,
        });
        proof {
            assert(pv.skip(i as int).first() == pv[i as int]);
            assert(pv.skip(i as int).drop_first() =~= pv.skip(i as int + 1));
            assert(admitted == admit_event(pv[i as int], since as int, root@));
        }
        let ghost out_before = views_of(out@);
        if admitted {
            out.push(page[i].clone());
            proof {
                assert(views_of(out@) =~= out_before.push(pv[i as int]));
                assert(kept_events(pv.skip(i as int), since as int, root@) =~= out_before.push(
                    pv[i as int],
                ));
            }
        } else {
            proof {
                assert(kept_events(pv.skip(i as int), since as int, root@) =~= out_before);
            }
        }
    }
    proof {
        assert(pv.skip(0) =~= pv);
    }
    out
}

/// Two chronological event lists, merged into one. Ties go to the first
/// list.
fn merge_by_time(a: Vec<StackEvent>, b: Vec<StackEvent>) -> (out: Vec<StackEvent>)
    ensures
        views_of(out@) == merged_by_time(views_of(a@), views_of(b@)),
{
    let ghost av = views_of(a@);
    let ghost bv = views_of(b@);
    let mut out: Vec<StackEvent> = Vec::new();
    let mut i: usize = 0;
    let mut j: usize = 0;
    proof {
        assert(av.skip(0) =~= av);
        assert(bv.skip(0) =~= bv);
        assert(views_of(out@) + merged_by_time(av, bv) =~= merged_by_time(av, bv));
    }
    while i < a.len() || j < b.len()
        invariant
            i <= a@.len(),
            j <= b@.len(),
            av == views_of(a@),
            bv == views_of(b@),
            merged_by_time(av, bv) == views_of(out@) + merged_by_time(
                av.skip(i as int),
                bv.skip(j as int),
            ),
        decreases a@.len() - i + b@.len() - j,
    {
        let ghost out_before = views_of(out@);
        let take_a = if i < a.len() {
            if j < b.len() {
                a[i].timestamp() <= b[j].timestamp()
            } else {
                true
            }
        } else {
            false
        };
        if take_a {
            out.push(a[i].clone());
            proof {
                assert(av.skip(i as int).first() == av[i as int]);
                assert(av.skip(i as int).drop_first() =~= av.skip(i as int + 1));
                assert(views_of(out@) =~= out_before.push(av[i as int]));
                assert(merged_by_time(av.skip(i as int), bv.skip(j as int)) =~= seq![
                    av[i as int],
                ] + merged_by_time(av.skip(i as int + 1), bv.skip(j as int)));
                assert(out_before + (seq![av[i as int]] + merged_by_time(
                    av.skip(i as int + 1),
                    bv.skip(j as int),
                )) =~= views_of(out@) + merged_by_time(av.skip(i as int + 1), bv.skip(j as int)));
            }
            i = i + 1;
        } else {
            out.push(b[j].clone());
            proof {
                assert(bv.skip(j as int).first() == bv[j as int]);
                assert(bv.skip(j as int).drop_first() =~= bv.skip(j as int + 1));
                assert(views_of(out@) =~= out_before.push(bv[j as int]));
                assert(merged_by_time(av.skip(i as int), bv.skip(j as int)) =~= seq![
                    bv[j as int],
                ] + merged_by_time(av.skip(i as int), bv.skip(j as int + 1)));
                assert(out_before + (seq![bv[j as int]] + merged_by_time(
                    av.skip(i as int),
                    bv.skip(j as int + 1),
                )) =~= views_of(out@) + merged_by_time(av.skip(i as int), bv.skip(j as int + 1)));
            }
            j = j + 1;
        }
    }
    proof {
        assert(av.skip(i as int) =~= Seq::<StackEventView>::empty());
        assert(bv.skip(j as int) =~= Seq::<StackEventView>::empty());
        assert(views_of(out@) + merged_by_time(av.skip(i as int), bv.skip(j as int)) =~= views_of(
            out@,
        ));
    }
    out
}

impl StackOperation {
    /// Process one polling cycle: the pages of events fetched for the
    /// root stack and each known nested stack, each page newest-first as
    /// the remote API returns it.
    ///
    /// Events already seen (at or before the cursor) are dropped, the
    /// rest are merged into chronological order, the cursor advances to
    /// the newest admitted time, and the events run through the tracker
    /// in order.  The attributed events are returned in chronological
    /// order; every returned event is newer than the old cursor and no
    /// newer than the new one, so no event is ever delivered twice.
    pub fn process_cycle(&mut self, pages: Vec<Vec<StackEvent>>) -> (r: Result<
        Vec<StackEvent>,
        UnexpectedStatus,
    >)
        requires
            forall|p: int| 0 <= p < pages@.len() ==> newest_first(views_of(#[trigger] pages@[p]@)),
        ensures
            match r {
                Ok(out) => ({
                    &&& spec_process_cycle(old(self)@, pages_views(pages@)) matches Some(p)
                        && p.0 == final(self)@ && p.1 == views_of(out@)
                    &&& sorted_by_time(views_of(out@))
                    &&& forall|k: int|
                        0 <= k < out@.len() ==> #[trigger] out@[k]@.timestamp() > old(self)@.since
                    &&& forall|k: int|
                        0 <= k < out@.len() ==> #[trigger] out@[k]@.timestamp()
                            <= final(self)@.since
                    &&& old(self)@.since <= final(self)@.since
                }),
                Err(_) => spec_process_cycle(old(self)@, pages_views(pages@)) is None,
            },
    {
        let ghost st0 = self@;
        let mut merged: Vec<StackEvent> = Vec::new();
        let mut k: usize = 0;
        proof {
            assert(views_of(merged@) =~= Seq::<StackEventView>::empty());
            assert(pages_views(pages@).subrange(0, 0) =~= Seq::<Seq<StackEventView>>::empty());
        }
        while k < pages.len()
            invariant
                k <= pages@.len(),
                *self == *old(self),
                st0 == old(self)@,
                forall|p: int|
                    0 <= p < pages@.len() ==> newest_first(views_of(#[trigger] pages@[p]@)),
                views_of(merged@) == cycle_merged(
                    pages_views(pages@).subrange(0, k as int),
                    st0.since,
                    st0.stack_id,
                ),
            decreases pages@.len() - k,
        {
            let kept = keep_page(&pages[k], self.since, self.stack_id.as_str());
            merged = merge_by_time(merged, kept);
            proof {
                let pvs = pages_views(pages@);
                assert(pvs.subrange(0, k as int + 1).drop_last() =~= pvs.subrange(0, k as int));
                assert(pvs.subrange(0, k as int + 1).last() == views_of(pages@[k as int]@));
            }
            k = k + 1;
        }
        proof {
            assert(pages_views(pages@).subrange(0, pages@.len() as int) =~= pages_views(pages@));
            lemma_cycle_merged_props(pages_views(pages@), st0.since, st0.stack_id);
        }
        let ghost merged_v = views_of(merged@);
        let mut newest: i64 = self.since;
        let mut t: usize = 0;
        proof {
            assert(merged_v.skip(0) =~= merged_v);
        }
        while t < merged.len()
            invariant
                t <= merged@.len(),
                merged_v == views_of(merged@),
                max_ts_or(merged_v, st0.since) == max_ts_or(
                    merged_v.skip(t as int),
                    newest as int,
                ),
            decreases merged@.len() - t,
        {
            proof {
                assert(merged_v.skip(t as int).first() == merged_v[t as int]);
                assert(merged_v.skip(t as int).drop_first() =~= merged_v.skip(t as int + 1));
            }
            let ts = merged[t].timestamp();
            if ts > newest {
                newest = ts;
            }
            t = t + 1;
        }
        proof {
            assert(merged_v.skip(merged@.len() as int) =~= Seq::<StackEventView>::empty());
            lemma_max_ts_or(merged_v, st0.since);
        }
        self.since = newest;
        proof {
            assert(self@ == (StackOperationView {
                since: max_ts_or(merged_v, st0.since),
                ..st0
            }));
            lemma_run_events_timestamps(self@, merged_v);
        }
        let ghost st1 = self@;
        proof {
            lemma_run_events_preserves(st1, merged_v);
        }
        match self.process_events(merged) {
            Ok(out) => {
                proof {
                    match run_events(st1, merged_v) {
                        Some(p) => {
                            assert(sorted_by_time(views_of(out@)));
                            assert forall|q: int| 0 <= q < out@.len() implies #[trigger] out@[q]@.timestamp() > st0.since by {
                                assert(views_of(out@)[q] == out@[q]@);
                                assert(views_of(out@)[q].timestamp() == merged_v[q].timestamp());
                            }
                            assert forall|q: int| 0 <= q < out@.len() implies #[trigger] out@[q]@.timestamp() <= final(self)@.since by {
                                assert(views_of(out@)[q] == out@[q]@);
                                assert(views_of(out@)[q].timestamp() == merged_v[q].timestamp());
                            }
                        },
                        None => {},
                    }
                }
                Ok(out)
            },
            Err(unexpected) => Err(unexpected),
        }
    }

    /// Resolve the accumulated evidence into the operation's outcome.
    ///
    /// A terminal error status yields a [`StackFailure`] carrying the
    /// first negative reason and the negative resource events; a clean
    /// settlement with negative resource events along the way yields a
    /// [`StackWarning`]; otherwise the operation succeeded.
    pub fn verify(self) -> (r: Result<(), StackOperationError>)
        ensures
            match self@.error_status {
                Some(status) => r matches Err(StackOperationError::Failure(f)) && f@
                    == (StackFailureView {
                    stack_id: self@.stack_id,
                    stack_status: status,
                    stack_status_reason: match self@.error_reason {
                        Some(reason) => reason,
                        None => Seq::empty(),
                    },
                    resource_events: self@.resource_errors,
                }),
                None => if self@.resource_errors.len() == 0 {
                    r is Ok
                } else {
                    r matches Err(StackOperationError::Warning(w)) && w@ == (StackWarningView {
                        stack_id: self@.stack_id,
                        resource_events: self@.resource_errors,
                    })
                },
            },
    {
        if let Some(stack_status) = self.stack_error_status {
            let stack_status_reason = match self.stack_error_status_reason {
                Some(reason) => reason,
                None => String::new(),
            };
            return Err(
                StackOperationError::Failure(
                    StackFailure {
                        stack_id: self.stack_id,
                        stack_status,
                        stack_status_reason,
                        resource_events: self.resource_error_events,
                    },
                ),
            );
        }
        if self.resource_error_events.len() == 0 {
            proof {
                assert(self@.resource_errors =~= Seq::<(
                    ResourceStatus,
                    StackEventDetailsView,
                )>::empty());
            }
            Ok(())
        } else {
            Err(
                StackOperationError::Warning(
                    StackWarning {
                        stack_id: self.stack_id,
                        resource_events: self.resource_error_events,
                    },
                ),
            )
        }
    }
}

} // verus!
