//! Change sets: the model of a planned set of changes, and the
//! negotiation that creates one.
//!
//! Negotiation creates a change set for a target stack, transparently
//! retrying as an update when creation fails because the stack already
//! exists, then polls until the change set settles, classifying the
//! settlement as available, a no-op, or a hard failure.  The conditions
//! the remote system reports only as free text — "already exists",
//! "no changes", a blocked stack status — are recognised by exact,
//! verified predicates.

use vstd::prelude::*;

use crate::apply::Capability;
use crate::status::{BlockedStackStatus, ChangeSetStatus, InvalidStatus, StackStatus};
use crate::tag::Tag;
use crate::text;

verus! {

/// Whether a change set will be created for a new stack or as an update
/// of an existing one.
#[derive(Clone, Copy, Debug, PartialEq, Eq, Structural)]
pub enum ChangeSetType {
    Create,
    Update,
}

impl ChangeSetType {
    /// The wire representation of the change set type.
    pub open spec fn spec_str(self) -> Seq<char> {
        match self {
            ChangeSetType::Create => "CREATE"@,
            ChangeSetType::Update => "UPDATE"@,
        }
    }

    /// The wire representation of the change set type.
    pub fn to_str(self) -> (r: &'static str)
        ensures
            r@ == self.spec_str(),
    {
        match self {
            ChangeSetType::Create => "CREATE",
            ChangeSetType::Update => "UPDATE",
        }
    }
}

/// The change set's execution status.
#[derive(Clone, Copy, Debug, PartialEq, Eq, Structural)]
pub enum ExecutionStatus {
    /// The change set is not available to execute.
    Unavailable,

    /// The change set is available to execute.
    Available,

    /// The change set is executing.
    ExecuteInProgress,

    /// The change set has been executed successfully.
    ExecuteComplete,

    /// The change set execution failed.
    ExecuteFailed,

    /// The stack was updated by another means after this change set was
    /// created.
    Obsolete,
}

impl ExecutionStatus {
    /// The execution status with the given wire representation, if any.
    pub open spec fn of_str(s: Seq<char>) -> Option<ExecutionStatus> {
        if s == "UNAVAILABLE"@ {
            Some(ExecutionStatus::Unavailable)
        } else if s == "AVAILABLE"@ {
            Some(ExecutionStatus::Available)
        } else if s == "EXECUTE_IN_PROGRESS"@ {
            Some(ExecutionStatus::ExecuteInProgress)
        } else if s == "EXECUTE_COMPLETE"@ {
            Some(ExecutionStatus::ExecuteComplete)
        } else if s == "EXECUTE_FAILED"@ {
            Some(ExecutionStatus::ExecuteFailed)
        } else if s == "OBSOLETE"@ {
            Some(ExecutionStatus::Obsolete)
        } else {
            None
        }
    }

    /// The wire representation of the execution status.
    pub open spec fn spec_str(self) -> Seq<char> {
        match self {
            ExecutionStatus::Unavailable => "UNAVAILABLE"@,
            ExecutionStatus::Available => "AVAILABLE"@,
            ExecutionStatus::ExecuteInProgress => "EXECUTE_IN_PROGRESS"@,
            ExecutionStatus::ExecuteComplete => "EXECUTE_COMPLETE"@,
            ExecutionStatus::ExecuteFailed => "EXECUTE_FAILED"@,
            ExecutionStatus::Obsolete => "OBSOLETE"@,
        }
    }

    /// The wire representation of the execution status.
    pub fn to_str(self) -> (r: &'static str)
        ensures
            r@ == self.spec_str(),
    {
        match self {
            ExecutionStatus::Unavailable => "UNAVAILABLE",
            ExecutionStatus::Available => "AVAILABLE",
            ExecutionStatus::ExecuteInProgress => "EXECUTE_IN_PROGRESS",
            ExecutionStatus::ExecuteComplete => "EXECUTE_COMPLETE",
            ExecutionStatus::ExecuteFailed => "EXECUTE_FAILED",
            ExecutionStatus::Obsolete => "OBSOLETE",
        }
    }

    /// Parse an execution status from its wire representation.
    pub fn parse_str(s: &str) -> (r: Result<ExecutionStatus, InvalidStatus>)
        ensures
            match ExecutionStatus::of_str(s@) {
                Some(status) => r == Ok::<ExecutionStatus, InvalidStatus>(status),
                None => r matches Err(e) && e.value@ == s@,
            },
    {
        if text::str_eq(s, "UNAVAILABLE") {
            Ok(ExecutionStatus::Unavailable)
        } else if text::str_eq(s, "AVAILABLE") {
            Ok(ExecutionStatus::Available)
        } else if text::str_eq(s, "EXECUTE_IN_PROGRESS") {
            Ok(ExecutionStatus::ExecuteInProgress)
        } else if text::str_eq(s, "EXECUTE_COMPLETE") {
            Ok(ExecutionStatus::ExecuteComplete)
        } else if text::str_eq(s, "EXECUTE_FAILED") {
            Ok(ExecutionStatus::ExecuteFailed)
        } else if text::str_eq(s, "OBSOLETE") {
            Ok(ExecutionStatus::Obsolete)
        } else {
            Err(InvalidStatus { value: s.to_owned() })
        }
    }
}

/// A parameter of a change set.
#[derive(Clone, Debug, PartialEq, Eq)]
pub struct Parameter {
    /// The key associated with the parameter.
    pub parameter_key: String,

    /// The input value associated with the parameter.
    pub parameter_value: Option<String>,

    /// Whether the existing parameter value will be used on update.
    pub use_previous_value: Option<bool>,

    /// The value that corresponds to a Systems Manager parameter key,
    /// for parameters of that type.
    pub resolved_value: Option<String>,
}

/// Indicates whether the resource will be replaced by the change.
#[derive(Clone, Copy, Debug, PartialEq, Eq, Structural)]
pub enum Replacement {
    /// The resource will be replaced.
    True,

    /// The resource will not be replaced.
    False,

    /// The resource *may* be replaced.
    Conditional,
}

impl Replacement {
    /// The replacement with the given wire representation, if any.
    pub open spec fn of_str(s: Seq<char>) -> Option<Replacement> {
        if s == "True"@ {
            Some(Replacement::True)
        } else if s == "False"@ {
            Some(Replacement::False)
        } else if s == "Conditional"@ {
            Some(Replacement::Conditional)
        } else {
            None
        }
    }

    /// Parse a replacement from its wire representation.
    pub fn parse_str(s: &str) -> (r: Result<Replacement, InvalidStatus>)
        ensures
            match Replacement::of_str(s@) {
                Some(replacement) => r == Ok::<Replacement, InvalidStatus>(replacement),
                None => r matches Err(e) && e.value@ == s@,
            },
    {
        if text::str_eq(s, "True") {
            Ok(Replacement::True)
        } else if text::str_eq(s, "False") {
            Ok(Replacement::False)
        } else if text::str_eq(s, "Conditional") {
            Ok(Replacement::Conditional)
        } else {
            Err(InvalidStatus { value: s.to_owned() })
        }
    }
}

/// A resource attribute through which a modification acts.
#[derive(Clone, Copy, Debug, PartialEq, Eq, Structural)]
pub enum ModifyScope {
    /// A change to the resource's properties.
    Properties,

    /// A change to the resource's metadata.
    Metadata,

    /// A change to the resource's creation policy.
    CreationPolicy,

    /// A change to the resource's update policy.
    UpdatePolicy,

    /// A change to the resource's deletion policy.
    DeletionPolicy,

    /// A change to the resource's tags.
    Tags,
}

impl ModifyScope {
    /// The scope with the given wire representation, if any.
    pub open spec fn of_str(s: Seq<char>) -> Option<ModifyScope> {
        if s == "Properties"@ {
            Some(ModifyScope::Properties)
        } else if s == "Metadata"@ {
            Some(ModifyScope::Metadata)
        } else if s == "CreationPolicy"@ {
            Some(ModifyScope::CreationPolicy)
        } else if s == "UpdatePolicy"@ {
            Some(ModifyScope::UpdatePolicy)
        } else if s == "DeletionPolicy"@ {
            Some(ModifyScope::DeletionPolicy)
        } else if s == "Tags"@ {
            Some(ModifyScope::Tags)
        } else {
            None
        }
    }

    /// Parse a scope from its wire representation.
    pub fn parse_str(s: &str) -> (r: Result<ModifyScope, InvalidStatus>)
        ensures
            match ModifyScope::of_str(s@) {
                Some(scope) => r == Ok::<ModifyScope, InvalidStatus>(scope),
                None => r matches Err(e) && e.value@ == s@,
            },
    {
        if text::str_eq(s, "Properties") {
            Ok(ModifyScope::Properties)
        } else if text::str_eq(s, "Metadata") {
            Ok(ModifyScope::Metadata)
        } else if text::str_eq(s, "CreationPolicy") {
            Ok(ModifyScope::CreationPolicy)
        } else if text::str_eq(s, "UpdatePolicy") {
            Ok(ModifyScope::UpdatePolicy)
        } else if text::str_eq(s, "DeletionPolicy") {
            Ok(ModifyScope::DeletionPolicy)
        } else if text::str_eq(s, "Tags") {
            Ok(ModifyScope::Tags)
        } else {
            Err(InvalidStatus { value: s.to_owned() })
        }
    }
}

/// A set of [`ModifyScope`] values.
#[derive(Clone, Copy, Debug, PartialEq, Eq, Structural)]
pub struct ModifyScopeSet {
    pub properties: bool,
    pub metadata: bool,
    pub creation_policy: bool,
    pub update_policy: bool,
    pub deletion_policy: bool,
    pub tags: bool,
}

impl ModifyScopeSet {
    /// Whether the set contains the scope.
    pub open spec fn spec_contains(self, scope: ModifyScope) -> bool {
        match scope {
            ModifyScope::Properties => self.properties,
            ModifyScope::Metadata => self.metadata,
            ModifyScope::CreationPolicy => self.creation_policy,
            ModifyScope::UpdatePolicy => self.update_policy,
            ModifyScope::DeletionPolicy => self.deletion_policy,
            ModifyScope::Tags => self.tags,
        }
    }

    /// The empty set.
    pub fn empty() -> (r: ModifyScopeSet)
        ensures
            forall|scope: ModifyScope| !r.spec_contains(scope),
    {
        ModifyScopeSet {
            properties: false,
            metadata: false,
            creation_policy: false,
            update_policy: false,
            deletion_policy: false,
            tags: false,
        }
    }

    /// The set containing only the given scope.
    pub fn only(scope: ModifyScope) -> (r: ModifyScopeSet)
        ensures
            forall|other: ModifyScope| r.spec_contains(other) == (other == scope),
    {
        ModifyScopeSet::empty().insert(scope)
    }

    /// The set extended with the given scope.
    pub fn insert(self, scope: ModifyScope) -> (r: ModifyScopeSet)
        ensures
            forall|other: ModifyScope|
                r.spec_contains(other) == (self.spec_contains(other) || other == scope),
    {
        match scope {
            ModifyScope::Properties => ModifyScopeSet { properties: true, ..self },
            ModifyScope::Metadata => ModifyScopeSet { metadata: true, ..self },
            ModifyScope::CreationPolicy => ModifyScopeSet { creation_policy: true, ..self },
            ModifyScope::UpdatePolicy => ModifyScopeSet { update_policy: true, ..self },
            ModifyScope::DeletionPolicy => ModifyScopeSet { deletion_policy: true, ..self },
            ModifyScope::Tags => ModifyScopeSet { tags: true, ..self },
        }
    }

    /// Whether the set contains the scope.
    pub fn contains(self, scope: ModifyScope) -> (r: bool)
        ensures
            r == self.spec_contains(scope),
    {
        match scope {
            ModifyScope::Properties => self.properties,
            ModifyScope::Metadata => self.metadata,
            ModifyScope::CreationPolicy => self.creation_policy,
            ModifyScope::UpdatePolicy => self.update_policy,
            ModifyScope::DeletionPolicy => self.deletion_policy,
            ModifyScope::Tags => self.tags,
        }
    }
}

/// Indicates whether the change's target value is known before
/// execution.
#[derive(Clone, Copy, Debug, PartialEq, Eq, Structural)]
pub enum Evaluation {
    /// CloudFormation can determine the target value, and its value will
    /// not change before the change set is executed.
    Static,

    /// The target value depends on the result of an intrinsic function
    /// when the stack is updated, so it cannot be determined in advance.
    Dynamic,
}

impl Evaluation {
    /// The evaluation with the given wire representation, if any.
    pub open spec fn of_str(s: Seq<char>) -> Option<Evaluation> {
        if s == "Static"@ {
            Some(Evaluation::Static)
        } else if s == "Dynamic"@ {
            Some(Evaluation::Dynamic)
        } else {
            None
        }
    }

    /// Parse an evaluation from its wire representation.
    pub fn parse_str(s: &str) -> (r: Result<Evaluation, InvalidStatus>)
        ensures
            match Evaluation::of_str(s@) {
                Some(evaluation) => r == Ok::<Evaluation, InvalidStatus>(evaluation),
                None => r matches Err(e) && e.value@ == s@,
            },
    {
        if text::str_eq(s, "Static") {
            Ok(Evaluation::Static)
        } else if text::str_eq(s, "Dynamic") {
            Ok(Evaluation::Dynamic)
        } else {
            Err(InvalidStatus { value: s.to_owned() })
        }
    }
}

/// Indicates whether a change to a property causes the resource to be
/// recreated.
#[derive(Clone, Copy, Debug, PartialEq, Eq, Structural)]
pub enum RequiresRecreation {
    /// The resource will not need to be recreated.
    Never,

    /// The resource *may* need to be recreated.
    Conditionally,

    /// The resource will need to be recreated.
    Always,
}

impl RequiresRecreation {
    /// The recreation requirement with the given wire representation, if
    /// any.
    pub open spec fn of_str(s: Seq<char>) -> Option<RequiresRecreation> {
        if s == "Never"@ {
            Some(RequiresRecreation::Never)
        } else if s == "Conditionally"@ {
            Some(RequiresRecreation::Conditionally)
        } else if s == "Always"@ {
            Some(RequiresRecreation::Always)
        } else {
            None
        }
    }

    /// Parse a recreation requirement from its wire representation.
    pub fn parse_str(s: &str) -> (r: Result<RequiresRecreation, InvalidStatus>)
        ensures
            match RequiresRecreation::of_str(s@) {
                Some(requirement) => r == Ok::<RequiresRecreation, InvalidStatus>(requirement),
                None => r matches Err(e) && e.value@ == s@,
            },
    {
        if text::str_eq(s, "Never") {
            Ok(RequiresRecreation::Never)
        } else if text::str_eq(s, "Conditionally") {
            Ok(RequiresRecreation::Conditionally)
        } else if text::str_eq(s, "Always") {
            Ok(RequiresRecreation::Always)
        } else {
            Err(InvalidStatus { value: s.to_owned() })
        }
    }
}

/// The error raised when the remote system describes a change in a shape
/// the model does not allow: a missing required part, or a part present
/// where none belongs.
#[derive(Clone, Debug, PartialEq, Eq)]
pub struct MalformedChange {
    /// A description of the violated expectation.
    pub message: String,
}

/// The field that a change will modify, and whether the resource will be
/// recreated.
#[derive(Clone, Debug, PartialEq, Eq)]
pub enum ResourceTargetDefinition {
    /// A change to the resource's properties.
    Properties {
        /// The name of the property.
        name: String,

        /// Whether a change to this property causes the resource to be
        /// recreated.
        requires_recreation: RequiresRecreation,
    },

    /// A change to the resource's metadata.
    Metadata,

    /// A change to the resource's creation policy.
    CreationPolicy,

    /// A change to the resource's update policy.
    UpdatePolicy,

    /// A change to the resource's deletion policy.
    DeletionPolicy,

    /// A change to the resource's tags.
    Tags,
}

impl ResourceTargetDefinition {
    /// Whether the parts describe a well-formed target of the given
    /// non-`Properties` attribute: no property name, and no recreation
    /// requirement beyond `Never`.
    ///
    /// CloudFormation may report tag changes on
    /// `AWS::SecretsManager::Secret` resources as conditionally requiring
    /// recreation.  We assume this is a bug in CloudFormation and accept
    /// it for that one resource type only; do not widen this exception.
    pub open spec fn spec_plain_target_ok(
        name: Option<Seq<char>>,
        requires_recreation: Option<RequiresRecreation>,
        resource_type: Seq<char>,
    ) -> bool {
        &&& name is None
        &&& (requires_recreation is None || requires_recreation == Some(RequiresRecreation::Never)
            || resource_type == "AWS::SecretsManager::Secret"@)
    }

    /// The plain (property-less) target named by the attribute, if it is
    /// one of the known plain attributes.
    pub open spec fn spec_plain_target(attribute: Seq<char>) -> Option<ResourceTargetDefinition> {
        if attribute == "Metadata"@ {
            Some(ResourceTargetDefinition::Metadata)
        } else if attribute == "CreationPolicy"@ {
            Some(ResourceTargetDefinition::CreationPolicy)
        } else if attribute == "UpdatePolicy"@ {
            Some(ResourceTargetDefinition::UpdatePolicy)
        } else if attribute == "DeletionPolicy"@ {
            Some(ResourceTargetDefinition::DeletionPolicy)
        } else if attribute == "Tags"@ {
            Some(ResourceTargetDefinition::Tags)
        } else {
            None
        }
    }

    /// Build a change target from the parts the remote system reports.
    ///
    /// A `Properties` target must carry a property name and a recreation
    /// requirement; any other known attribute must carry neither (with
    /// the narrow `AWS::SecretsManager::Secret` exception described at
    /// [`spec_plain_target_ok`](Self::spec_plain_target_ok)).
    pub fn from_parts(
        attribute: &str,
        name: Option<String>,
        requires_recreation: Option<RequiresRecreation>,
        resource_type: &str,
    ) -> (r: Result<ResourceTargetDefinition, MalformedChange>)
        ensures
            ({
                let name_view = match name {
                    Some(n) => Some(n@),
                    None => None::<Seq<char>>,
                };
                if attribute@ == "Properties"@ {
                    match (name, requires_recreation) {
                        (Some(n), Some(rr)) => r == Ok::<_, MalformedChange>(
                            ResourceTargetDefinition::Properties {
                                name: n,
                                requires_recreation: rr,
                            },
                        ),
                        _ => r is Err,
                    }
                } else {
                    match ResourceTargetDefinition::spec_plain_target(attribute@) {
                        Some(target) => if ResourceTargetDefinition::spec_plain_target_ok(
                            name_view,
                            requires_recreation,
                            resource_type@,
                        ) {
                            r == Ok::<_, MalformedChange>(target)
                        } else {
                            r is Err
                        },
                        None => r is Err,
                    }
                }
            }),
    {
        if text::str_eq(attribute, "Properties") {
            match (name, requires_recreation) {
                (Some(n), Some(rr)) => Ok(
                    ResourceTargetDefinition::Properties { name: n, requires_recreation: rr },
                ),
                _ => Err(
                    MalformedChange {
                        message: "a Properties target needs a name and a recreation requirement".to_owned(),
                    },
                ),
            }
        } else {
            let plain_ok = name.is_none() && (match requires_recreation {
                None => true,
                Some(RequiresRecreation::Never) => true,
                Some(_) => text::str_eq(resource_type, "AWS::SecretsManager::Secret"),
            });
            if !plain_ok {
                return Err(
                    MalformedChange {
                        message: "only a Properties target may carry a name or require recreation".to_owned(),
                    },
                );
            }
            if text::str_eq(attribute, "Metadata") {
                Ok(ResourceTargetDefinition::Metadata)
            } else if text::str_eq(attribute, "CreationPolicy") {
                Ok(ResourceTargetDefinition::CreationPolicy)
            } else if text::str_eq(attribute, "UpdatePolicy") {
                Ok(ResourceTargetDefinition::UpdatePolicy)
            } else if text::str_eq(attribute, "DeletionPolicy") {
                Ok(ResourceTargetDefinition::DeletionPolicy)
            } else if text::str_eq(attribute, "Tags") {
                Ok(ResourceTargetDefinition::Tags)
            } else {
                Err(MalformedChange { message: "unknown change target attribute".to_owned() })
            }
        }
    }
}

/// The kind of entity that triggered a change.
#[derive(Clone, Debug, PartialEq, Eq)]
pub enum ChangeSource {
    /// A `Ref` intrinsic function that refers to a resource in the
    /// template.
    ResourceReference(String),

    /// A `Ref` intrinsic function that gets a template parameter value.
    ParameterReference(String),

    /// A `Fn::GetAtt` intrinsic function that gets a resource attribute
    /// value.
    ResourceAttribute(String),

    /// A change made directly to the template.
    DirectModification,

    /// An automatically propagated change: nested stacks are re-examined
    /// whenever the parent stack is updated.
    Automatic,
}

impl ChangeSource {
    /// Build a change source from the parts the remote system reports.
    ///
    /// The three reference kinds must name the entity that triggered the
    /// change; the other kinds carry none.
    pub fn from_parts(kind: &str, causing_entity: Option<String>) -> (r: Result<
        ChangeSource,
        MalformedChange,
    >)
        ensures
            ({
                if kind@ == "ResourceReference"@ {
                    match causing_entity {
                        Some(entity) => r == Ok::<_, MalformedChange>(
                            ChangeSource::ResourceReference(entity),
                        ),
                        None => r is Err,
                    }
                } else if kind@ == "ParameterReference"@ {
                    match causing_entity {
                        Some(entity) => r == Ok::<_, MalformedChange>(
                            ChangeSource::ParameterReference(entity),
                        ),
                        None => r is Err,
                    }
                } else if kind@ == "ResourceAttribute"@ {
                    match causing_entity {
                        Some(entity) => r == Ok::<_, MalformedChange>(
                            ChangeSource::ResourceAttribute(entity),
                        ),
                        None => r is Err,
                    }
                } else if kind@ == "DirectModification"@ {
                    r == Ok::<_, MalformedChange>(ChangeSource::DirectModification)
                } else if kind@ == "Automatic"@ {
                    r == Ok::<_, MalformedChange>(ChangeSource::Automatic)
                } else {
                    r is Err
                }
            }),
    {
        if text::str_eq(kind, "ResourceReference") {
            match causing_entity {
                Some(entity) => Ok(ChangeSource::ResourceReference(entity)),
                None => Err(
                    MalformedChange { message: "a reference change needs a causing entity".to_owned() },
                ),
            }
        } else if text::str_eq(kind, "ParameterReference") {
            match causing_entity {
                Some(entity) => Ok(ChangeSource::ParameterReference(entity)),
                None => Err(
                    MalformedChange { message: "a reference change needs a causing entity".to_owned() },
                ),
            }
        } else if text::str_eq(kind, "ResourceAttribute") {
            match causing_entity {
                Some(entity) => Ok(ChangeSource::ResourceAttribute(entity)),
                None => Err(
                    MalformedChange { message: "a reference change needs a causing entity".to_owned() },
                ),
            }
        } else if text::str_eq(kind, "DirectModification") {
            Ok(ChangeSource::DirectModification)
        } else if text::str_eq(kind, "Automatic") {
            Ok(ChangeSource::Automatic)
        } else {
            Err(MalformedChange { message: "unknown change source".to_owned() })
        }
    }
}

/// One field-level change that will be made to a resource.
#[derive(Clone, Debug, PartialEq, Eq)]
pub struct ResourceChangeDetail {
    /// The group to which the causing entity belongs, when the change
    /// source fits the remote system's vocabulary.
    pub change_source: Option<ChangeSource>,

    /// Whether the target value is known before execution.
    pub evaluation: Evaluation,

    /// The field that will change, and whether the resource will be
    /// recreated.
    pub target: ResourceTargetDefinition,
}

/// Additional detail for resource modifications.
#[derive(Clone, Debug, PartialEq, Eq)]
pub struct ModifyDetail {
    /// The field-level changes that will be made to the resource.
    pub details: Vec<ResourceChangeDetail>,

    /// Whether the resource will be replaced.
    pub replacement: Replacement,

    /// Which resource attributes trigger the update.
    pub scope: ModifyScopeSet,
}

/// The action that will be taken on a resource.
#[derive(Clone, Debug, PartialEq, Eq)]
pub enum Action {
    /// Adds a new resource.
    Add,

    /// Changes a resource.
    Modify(ModifyDetail),

    /// Deletes a resource.
    Remove,

    /// Imports a resource.
    Import,

    /// The exact action cannot be determined.
    Dynamic,
}

impl Action {
    /// Build an action from the parts the remote system reports.
    ///
    /// A `Modify` action must carry its detail, replacement and scope; the
    /// other actions must carry none of them.
    pub fn from_parts(
        action: &str,
        details: Option<Vec<ResourceChangeDetail>>,
        replacement: Option<Replacement>,
        scope: Option<ModifyScopeSet>,
    ) -> (r: Result<Action, MalformedChange>)
        ensures
            ({
                let bare = details is None && replacement is None && scope is None;
                if action@ == "Add"@ {
                    if bare {
                        r == Ok::<_, MalformedChange>(Action::Add)
                    } else {
                        r is Err
                    }
                } else if action@ == "Remove"@ {
                    if bare {
                        r == Ok::<_, MalformedChange>(Action::Remove)
                    } else {
                        r is Err
                    }
                } else if action@ == "Import"@ {
                    if bare {
                        r == Ok::<_, MalformedChange>(Action::Import)
                    } else {
                        r is Err
                    }
                } else if action@ == "Dynamic"@ {
                    if bare {
                        r == Ok::<_, MalformedChange>(Action::Dynamic)
                    } else {
                        r is Err
                    }
                } else if action@ == "Modify"@ {
                    match (details, replacement, scope) {
                        (Some(d), Some(rep), Some(sc)) => r == Ok::<_, MalformedChange>(
                            Action::Modify(
                                ModifyDetail { details: d, replacement: rep, scope: sc },
                            ),
                        ),
                        _ => r is Err,
                    }
                } else {
                    r is Err
                }
            }),
    {
        let bare = details.is_none() && replacement.is_none() && scope.is_none();
        if text::str_eq(action, "Add") || text::str_eq(action, "Remove") || text::str_eq(
            action,
            "Import",
        ) || text::str_eq(action, "Dynamic") {
            if !bare {
                return Err(
                    MalformedChange {
                        message: "only a Modify action may carry detail, replacement or scope".to_owned(),
                    },
                );
            }
            if text::str_eq(action, "Add") {
                Ok(Action::Add)
            } else if text::str_eq(action, "Remove") {
                Ok(Action::Remove)
            } else if text::str_eq(action, "Import") {
                Ok(Action::Import)
            } else {
                Ok(Action::Dynamic)
            }
        } else if text::str_eq(action, "Modify") {
            match (details, replacement, scope) {
                (Some(d), Some(rep), Some(sc)) => Ok(
                    Action::Modify(ModifyDetail { details: d, replacement: rep, scope: sc }),
                ),
                _ => Err(
                    MalformedChange {
                        message: "a Modify action needs detail, replacement and scope".to_owned(),
                    },
                ),
            }
        } else {
            Err(MalformedChange { message: "unknown change action".to_owned() })
        }
    }
}

/// The resource a change set will touch, and how.
#[derive(Clone, Debug, PartialEq, Eq)]
pub struct ResourceChange {
    /// The action that will be taken on the resource.
    pub action: Action,

    /// The resource's logical ID, as defined in the stack's template.
    pub logical_resource_id: String,

    /// The resource's physical ID.
    ///
    /// Resources being added have no physical ID, because they have not
    /// been created yet.
    pub physical_resource_id: Option<String>,

    /// The type of the resource.
    pub resource_type: String,
}

/// A planned set of changes to apply to a CloudFormation stack.
#[derive(Clone, Debug, PartialEq, Eq)]
pub struct ChangeSet {
    /// Capabilities that were explicitly acknowledged when the change set
    /// was created.
    pub capabilities: Vec<Capability>,

    /// The ARN of the change set.
    pub change_set_id: String,

    /// The name of the change set.
    pub change_set_name: String,

    /// The resources that will change if the change set is executed.
    pub changes: Vec<ResourceChange>,

    /// The time when the change set was created, in milliseconds since
    /// the epoch.
    pub creation_time: i64,

    /// Information about the change set.
    pub description: Option<String>,

    /// The change set's execution status.
    pub execution_status: ExecutionStatus,

    /// The Simple Notification Service topic ARNs that receive stack
    /// related events.
    pub notification_arns: Vec<String>,

    /// The input parameters and their values used to create the change
    /// set.
    pub parameters: Vec<Parameter>,

    /// The ARN of the stack the change set is associated with.
    pub stack_id: String,

    /// The name of the stack the change set is associated with.
    pub stack_name: String,

    /// The current status of the change set.
    pub status: ChangeSetStatus,

    /// A description of the change set's status, such as the error
    /// message when creation failed.
    pub status_reason: Option<String>,

    /// The tags that will be associated with the stack if the change set
    /// is executed.
    pub tags: Vec<Tag>,
}

/// Whether an error message from change-set creation reports that the
/// stack already exists — the condition under which creation is retried
/// as an update.
pub open spec fn spec_already_exists(msg: Seq<char>) -> bool {
    text::contains_sub(msg, " already exists "@)
}

/// Whether a creation error message says the stack already exists.
pub fn is_already_exists(msg: &str) -> (r: bool)
    ensures
        r == spec_already_exists(msg@),
{
    text::str_contains(msg, " already exists ")
}

/// Whether a failed change set's status reason reports that there is
/// nothing to change.
pub open spec fn spec_no_changes(status_reason: Option<Seq<char>>) -> bool {
    match status_reason {
        Some(reason) => text::contains_sub(
            reason,
            "The submitted information didn't contain changes."@,
        ) || text::contains_sub(reason, "No updates are to be performed."@),
        None => false,
    }
}

/// Whether a failed change set's status reason says there is nothing to
/// change.
pub fn is_no_changes(status_reason: Option<&str>) -> (r: bool)
    ensures
        r == spec_no_changes(match status_reason {
            Some(s) => Some(s@),
            None => None::<Seq<char>>,
        }),
{
    match status_reason {
        Some(reason) => text::str_contains(
            reason,
            "The submitted information didn't contain changes.",
        ) || text::str_contains(reason, "No updates are to be performed."),
        None => false,
    }
}

/// The status word captured by the blocked-stack shape of change-set
/// creation errors: `Stack:<id> is in <STATUS> state and can not be
/// updated`, anchored at the start of the message.
pub open spec fn create_blocked_capture(s: Seq<char>) -> Option<Seq<char>> {
    if text::ci_matches_at(s, "Stack:"@, 0) {
        let a = "Stack:"@.len() as int;
        let e1 = text::run_end(s, a, text::CharClass::NonSpace);
        if text::ci_matches_at(s, " is in "@, e1) {
            let b = e1 + " is in "@.len();
            let e2 = text::run_end(s, b, text::CharClass::StatusWord);
            if e2 > b && text::ci_matches_at(s, " state and can not be updated"@, e2) {
                Some(s.subrange(b, e2))
            } else {
                None
            }
        } else {
            None
        }
    } else {
        None
    }
}

/// The blocked status a change-set creation error reports, if its
/// message matches the blocked-stack shape and captures a known,
/// blocking stack status.
pub open spec fn spec_create_blocked(s: Seq<char>) -> Option<BlockedStackStatus> {
    match create_blocked_capture(s) {
        Some(word) => match StackStatus::of_str(word) {
            Some(status) => BlockedStackStatus::of_stack_status(status),
            None => None,
        },
        None => None,
    }
}

/// Recognise the blocked-stack shape in a change-set creation error.
pub fn is_create_blocked(msg: &str) -> (r: Option<BlockedStackStatus>)
    ensures
        r == spec_create_blocked(msg@),
{
    let s_len = msg.unicode_len();
    if !text::ci_match_at(msg, s_len, 0, "Stack:") {
        return None;
    }
    let a = "Stack:".unicode_len();
    let e1 = text::scan_run(msg, s_len, a, text::CharClass::NonSpace);
    if !text::ci_match_at(msg, s_len, e1, " is in ") {
        return None;
    }
    let b = e1 + " is in ".unicode_len();
    let e2 = text::scan_run(msg, s_len, b, text::CharClass::StatusWord);
    if !(e2 > b && text::ci_match_at(msg, s_len, e2, " state and can not be updated")) {
        return None;
    }
    let word = msg.substring_char(b, e2);
    match StackStatus::parse_str(word) {
        Ok(status) => BlockedStackStatus::try_from(status),
        Err(_) => None,
    }
}

/// The status word captured by the blocked-stack shape of change-set
/// execution errors: `This stack is currently in a non-terminal
/// [<STATUS>] state`, anchored at the start of the message.
pub open spec fn execute_blocked_capture(s: Seq<char>) -> Option<Seq<char>> {
    if text::ci_matches_at(s, "This stack is currently in a non-terminal ["@, 0) {
        let b = "This stack is currently in a non-terminal ["@.len() as int;
        let e2 = text::run_end(s, b, text::CharClass::StatusWord);
        if e2 > b && text::ci_matches_at(s, "] state"@, e2) {
            Some(s.subrange(b, e2))
        } else {
            None
        }
    } else {
        None
    }
}

/// The blocked status a change-set execution error reports, if its
/// message matches the blocked-stack shape and captures a known,
/// blocking stack status.
pub open spec fn spec_execute_blocked(s: Seq<char>) -> Option<BlockedStackStatus> {
    match execute_blocked_capture(s) {
        Some(word) => match StackStatus::of_str(word) {
            Some(status) => BlockedStackStatus::of_stack_status(status),
            None => None,
        },
        None => None,
    }
}

/// Recognise the blocked-stack shape in a change-set execution error.
pub fn is_execute_blocked(msg: &str) -> (r: Option<BlockedStackStatus>)
    ensures
        r == spec_execute_blocked(msg@),
{
    let s_len = msg.unicode_len();
    if !text::ci_match_at(msg, s_len, 0, "This stack is currently in a non-terminal [") {
        return None;
    }
    let b = "This stack is currently in a non-terminal [".unicode_len();
    let e2 = text::scan_run(msg, s_len, b, text::CharClass::StatusWord);
    if !(e2 > b && text::ci_match_at(msg, s_len, e2, "] state")) {
        return None;
    }
    let word = msg.substring_char(b, e2);
    match StackStatus::parse_str(word) {
        Ok(status) => BlockedStackStatus::try_from(status),
        Err(_) => None,
    }
}

/// The step a negotiation asks its driver to take after a change-set
/// creation call concluded.
#[derive(Clone, Copy, Debug, PartialEq, Eq, Structural)]
pub enum CreateStep {
    /// Re-issue the creation call, with the given change set type.
    Retry(ChangeSetType),

    /// Creation was accepted: begin polling the change set's status.
    Poll,

    /// The stack is blocked: conclude with the blocked status.
    Blocked(BlockedStackStatus),

    /// The creation call failed for another reason: conclude; the driver
    /// keeps the underlying error.
    Fail,
}

/// How a failed creation call changes the negotiation, and the step the
/// driver should take: a first failure because the stack already exists
/// turns the creation into an update and retries; a blocked-stack
/// message concludes with the blocked status; anything else concludes
/// with the underlying error.
pub open spec fn spec_on_create_error(
    change_set_type: ChangeSetType,
    msg: Seq<char>,
) -> (ChangeSetType, CreateStep) {
    if change_set_type == ChangeSetType::Create && spec_already_exists(msg) {
        (ChangeSetType::Update, CreateStep::Retry(ChangeSetType::Update))
    } else {
        match spec_create_blocked(msg) {
            Some(blocked) => (change_set_type, CreateStep::Blocked(blocked)),
            None => (change_set_type, CreateStep::Fail),
        }
    }
}

/// The step a negotiation asks its driver to take after a describe call
/// reported the change set's status.
#[derive(Clone, Copy, Debug, PartialEq, Eq, Structural)]
pub enum PollStep {
    /// The change set has not settled: poll again after the interval.
    Continue,

    /// The change set is complete and can be executed.
    Available,

    /// The change set failed because there is nothing to change: the
    /// caller can proceed to describe the existing stack and report
    /// success.
    NoChanges,

    /// The change set failed for another reason.
    Failed,

    /// The change set reported a status outside the known creation set:
    /// the status model is stale, and the operation must abort loudly
    /// rather than poll forever.
    Unexpected,
}

/// The settlement classification of a change set status during
/// creation.
pub open spec fn spec_classify_settlement(
    status: ChangeSetStatus,
    status_reason: Option<Seq<char>>,
) -> PollStep {
    match status {
        ChangeSetStatus::CreatePending | ChangeSetStatus::CreateInProgress => PollStep::Continue,
        ChangeSetStatus::CreateComplete => PollStep::Available,
        ChangeSetStatus::Failed => if spec_no_changes(status_reason) {
            PollStep::NoChanges
        } else {
            PollStep::Failed
        },
        _ => PollStep::Unexpected,
    }
}

/// Classify a change set's status during creation.
pub fn classify_settlement(status: ChangeSetStatus, status_reason: Option<&str>) -> (r: PollStep)
    ensures
        r == spec_classify_settlement(status, match status_reason {
            Some(s) => Some(s@),
            None => None::<Seq<char>>,
        }),
{
    match status {
        ChangeSetStatus::CreatePending | ChangeSetStatus::CreateInProgress => PollStep::Continue,
        ChangeSetStatus::CreateComplete => PollStep::Available,
        ChangeSetStatus::Failed => if is_no_changes(status_reason) {
            PollStep::NoChanges
        } else {
            PollStep::Failed
        },
        _ => PollStep::Unexpected,
    }
}

/// The negotiation that creates one change set for a target stack.
///
/// The driver issues the remote calls and hands their outcomes to the
/// negotiation, which decides what to do next.
#[derive(Clone, Copy, Debug, PartialEq, Eq, Structural)]
pub struct ChangeSetNegotiation {
    /// The kind of change set currently being created: creation starts
    /// as `Create` and becomes `Update` after the already-exists retry.
    pub change_set_type: ChangeSetType,
}

impl ChangeSetNegotiation {
    /// Start a negotiation: the first attempt creates the stack.
    pub fn new() -> (r: ChangeSetNegotiation)
        ensures
            r.change_set_type == ChangeSetType::Create,
    {
        ChangeSetNegotiation { change_set_type: ChangeSetType::Create }
    }

    /// Record that the creation call failed with the given message, and
    /// decide the next step.
    pub fn on_create_error(&mut self, msg: &str) -> (r: CreateStep)
        ensures
            (final(self).change_set_type, r) == spec_on_create_error(
                old(self).change_set_type,
                msg@,
            ),
    {
        if (match self.change_set_type {
            ChangeSetType::Create => true,
            ChangeSetType::Update => false,
        }) && is_already_exists(msg) {
            self.change_set_type = ChangeSetType::Update;
            CreateStep::Retry(ChangeSetType::Update)
        } else {
            match is_create_blocked(msg) {
                Some(blocked) => CreateStep::Blocked(blocked),
                None => CreateStep::Fail,
            }
        }
    }

    /// Record that the creation call was accepted: polling begins.
    pub fn on_create_accepted(&self) -> (r: CreateStep)
        ensures
            r == CreateStep::Poll,
    {
        CreateStep::Poll
    }

    /// Classify a polled status of the change set being negotiated.
    pub fn on_describe(&self, status: ChangeSetStatus, status_reason: Option<&str>) -> (r:
        PollStep)
        ensures
            r == spec_classify_settlement(status, match status_reason {
                Some(s) => Some(s@),
                None => None::<Seq<char>>,
            }),
    {
        classify_settlement(status, status_reason)
    }
}

/// Change-set race: a creation that fails because the stack already
/// exists is retried exactly once, as an update — after the retry, no
/// creation failure leads to another retry.
pub proof fn lemma_change_set_race(msg1: Seq<char>, msg2: Seq<char>)
    requires
        spec_already_exists(msg1),
    ensures
        ({
            let first = spec_on_create_error(ChangeSetType::Create, msg1);
            &&& first.1 == CreateStep::Retry(ChangeSetType::Update)
            &&& !(spec_on_create_error(first.0, msg2).1 is Retry)
        }),
{
}

} // verus!
