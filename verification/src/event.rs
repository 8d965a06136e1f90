//! Events emitted by CloudFormation during a stack operation.
//!
//! A [`StackEvent`] is either about the stack resource itself
//! ([`StackEvent::Stack`]) or about one of its member resources
//! ([`StackEvent::Resource`]).  Events carry a millisecond timestamp and,
//! once they have passed through a tracker, a path-qualified alias for the
//! nested stack they belong to.

use vstd::prelude::*;

use crate::status::{ResourceStatus, StackStatus, Status};
use crate::status_reason::StatusReason;

verus! {

/// The mathematical value of a [`StackEventDetails`].
pub ghost struct StackEventDetailsView {
    pub stack_alias: Option<Seq<char>>,
    pub logical_resource_id: Seq<char>,
    pub physical_resource_id: Option<Seq<char>>,
    pub resource_type: Seq<char>,
    pub stack_id: Seq<char>,
    pub stack_name: Seq<char>,
    pub resource_status_reason: Option<Seq<char>>,
    pub timestamp: int,
}

/// Details of a stack event.
#[derive(Debug, PartialEq, Eq)]
pub struct StackEventDetails {
    /// The path-qualified alias of the stack this event belongs to, if it
    /// belongs to a nested stack whose position in the deployment tree is
    /// known.
    ///
    /// This is set by the event tracker, from the aliases it has
    /// registered while observing nested-stack resource events.
    pub stack_alias: Option<String>,

    /// The logical name of the resource specified in the template.
    pub logical_resource_id: String,

    /// The name or unique identifier associated with the physical instance
    /// of the resource.
    ///
    /// This is absent for resources that have not yet been created.
    pub physical_resource_id: Option<String>,

    /// Type of resource.
    pub resource_type: String,

    /// The unique ID of the stack that owns this event.
    pub stack_id: String,

    /// The name associated with the stack that owns this event.
    pub stack_name: String,

    /// Success/failure message associated with the resource.
    pub resource_status_reason: Option<String>,

    /// Time when the status was updated, in milliseconds since the epoch.
    pub timestamp: i64,
}

impl View for StackEventDetails {
    type V = StackEventDetailsView;

    open spec fn view(&self) -> StackEventDetailsView {
        StackEventDetailsView {
            stack_alias: match self.stack_alias {
                Some(a) => Some(a@),
                None => None,
            },
            logical_resource_id: self.logical_resource_id@,
            physical_resource_id: match self.physical_resource_id {
                Some(p) => Some(p@),
                None => None,
            },
            resource_type: self.resource_type@,
            stack_id: self.stack_id@,
            stack_name: self.stack_name@,
            resource_status_reason: match self.resource_status_reason {
                Some(r) => Some(r@),
                None => None,
            },
            timestamp: self.timestamp as int,
        }
    }
}

impl Clone for StackEventDetails {
    fn clone(&self) -> (r: Self)
        ensures
            r@ == self@,
    {
        StackEventDetails {
            stack_alias: match &self.stack_alias {
                Some(a) => Some(a.clone()),
                None => None,
            },
            logical_resource_id: self.logical_resource_id.clone(),
            physical_resource_id: match &self.physical_resource_id {
                Some(p) => Some(p.clone()),
                None => None,
            },
            resource_type: self.resource_type.clone(),
            stack_id: self.stack_id.clone(),
            stack_name: self.stack_name.clone(),
            resource_status_reason: match &self.resource_status_reason {
                Some(r) => Some(r.clone()),
                None => None,
            },
            timestamp: self.timestamp,
        }
    }
}

impl StackEventDetails {
    /// Success/failure message associated with the resource, wrapped for
    /// optional structured interpretation.
    pub fn resource_status_reason(&self) -> (r: StatusReason<'_>)
        ensures
            r@ == self@.resource_status_reason,
    {
        StatusReason::new(match &self.resource_status_reason {
            Some(reason) => Some(reason.as_str()),
            None => None,
        })
    }
}

/// The mathematical value of a [`StackEvent`].
pub ghost enum StackEventView {
    Resource { resource_status: ResourceStatus, details: StackEventDetailsView },
    Stack { resource_status: StackStatus, details: StackEventDetailsView },
}

impl StackEventView {
    /// The details of the event, whichever variant it is.
    pub open spec fn details(self) -> StackEventDetailsView {
        match self {
            StackEventView::Resource { details, .. } => details,
            StackEventView::Stack { details, .. } => details,
        }
    }

    /// The time of the event, in milliseconds since the epoch.
    pub open spec fn timestamp(self) -> int {
        self.details().timestamp
    }

    /// The id of the stack that owns the event.
    pub open spec fn stack_id(self) -> Seq<char> {
        self.details().stack_id
    }

    /// Whether this event reports a settled status of the stack with the
    /// given id, which ends the operation on that stack.
    pub open spec fn is_terminal_for(self, root_stack_id: Seq<char>) -> bool {
        match self {
            StackEventView::Stack { resource_status, details } => {
                &&& details.stack_id == root_stack_id
                &&& resource_status.spec_settled()
            },
            StackEventView::Resource { .. } => false,
        }
    }
}

/// An event emitted by CloudFormation during a stack operation.
#[derive(Debug, PartialEq, Eq)]
pub enum StackEvent {
    /// An event about a member resource of the stack.
    Resource {
        /// The status of the resource.
        resource_status: ResourceStatus,

        /// Details of the event.
        details: StackEventDetails,
    },

    /// An event about the stack resource itself.
    Stack {
        /// The status of the stack.
        resource_status: StackStatus,

        /// Details of the event.
        details: StackEventDetails,
    },
}

impl View for StackEvent {
    type V = StackEventView;

    open spec fn view(&self) -> StackEventView {
        match self {
            StackEvent::Resource { resource_status, details } => StackEventView::Resource {
                resource_status: *resource_status,
                details: details@,
            },
            StackEvent::Stack { resource_status, details } => StackEventView::Stack {
                resource_status: *resource_status,
                details: details@,
            },
        }
    }
}

impl Clone for StackEvent {
    fn clone(&self) -> (r: Self)
        ensures
            r@ == self@,
    {
        match self {
            StackEvent::Resource { resource_status, details } => StackEvent::Resource {
                resource_status: *resource_status,
                details: details.clone(),
            },
            StackEvent::Stack { resource_status, details } => StackEvent::Stack {
                resource_status: *resource_status,
                details: details.clone(),
            },
        }
    }
}

impl StackEvent {
    /// The details of the event, whichever variant it is.
    pub fn details(&self) -> (r: &StackEventDetails)
        ensures
            r@ == self@.details(),
    {
        match self {
            StackEvent::Resource { details, .. } => details,
            StackEvent::Stack { details, .. } => details,
        }
    }

    /// The time of the event, in milliseconds since the epoch.
    pub fn timestamp(&self) -> (r: i64)
        ensures
            r as int == self@.timestamp(),
    {
        self.details().timestamp
    }

    /// The id of the stack that owns the event.
    pub fn stack_id(&self) -> (r: &str)
        ensures
            r@ == self@.stack_id(),
    {
        self.details().stack_id.as_str()
    }

    /// The logical name of the resource the event is about.
    pub fn logical_resource_id(&self) -> (r: &str)
        ensures
            r@ == self@.details().logical_resource_id,
    {
        self.details().logical_resource_id.as_str()
    }

    /// The status reason attached to the event, if any.
    pub fn resource_status_reason(&self) -> (r: Option<&str>)
        ensures
            match r {
                Some(s) => self@.details().resource_status_reason == Some(s@),
                None => self@.details().resource_status_reason is None,
            },
    {
        match &self.details().resource_status_reason {
            Some(reason) => Some(reason.as_str()),
            None => None,
        }
    }

    /// The wire representation of the event's status, whichever resource
    /// kind it concerns.
    pub fn resource_status_str(&self) -> (r: &'static str)
        ensures
            match self@ {
                StackEventView::Resource { resource_status, .. } => r@
                    == resource_status.spec_str(),
                StackEventView::Stack { resource_status, .. } => r@ == resource_status.spec_str(),
            },
    {
        match self {
            StackEvent::Resource { resource_status, .. } => resource_status.to_str(),
            StackEvent::Stack { resource_status, .. } => resource_status.to_str(),
        }
    }

    /// Whether this event reports a settled status of the stack with the
    /// given id.
    pub fn is_terminal_for(&self, root_stack_id: &str) -> (r: bool)
        ensures
            r == self@.is_terminal_for(root_stack_id@),
    {
        match self {
            StackEvent::Stack { resource_status, details } => {
                crate::text::str_eq(details.stack_id.as_str(), root_stack_id)
                    && resource_status.is_settled()
            },
            StackEvent::Resource { .. } => false,
        }
    }
}

} // verus!
