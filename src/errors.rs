//! Event context and the typed errors every collaborator failure is turned into.

use vstd::prelude::*;

verus! {

/// Pipeline step of an environment operation.
#[derive(Clone, Copy, PartialEq, Eq, Structural, Debug)]
pub enum EnvironmentStep {
    Deploy,
    Pause,
    Delete,
    ScaleDown,
}

/// Envelope attached to every emitted log or progress event.
#[derive(Debug)]
pub struct EventDetails {
    pub organization_id: String,
    pub cluster_id: String,
    pub execution_id: String,
    pub stage: EnvironmentStep,
}

impl EventDetails {
    pub fn new(organization_id: String, cluster_id: String, execution_id: String, stage: EnvironmentStep) -> (r: Self)
        ensures
            r.organization_id == organization_id,
            r.cluster_id == cluster_id,
            r.execution_id == execution_id,
            r.stage == stage,
    {
        EventDetails { organization_id, cluster_id, execution_id, stage }
    }

    /// A field-for-field copy.
    pub fn duplicate(&self) -> (r: Self)
        ensures
            r == *self,
    {
        EventDetails {
            organization_id: self.organization_id.clone(),
            cluster_id: self.cluster_id.clone(),
            execution_id: self.execution_id.clone(),
            stage: self.stage,
        }
    }

    /// The same envelope moved to another pipeline step.
    pub fn clone_changing_stage(&self, stage: EnvironmentStep) -> (r: Self)
        ensures
            r == (EventDetails { stage, ..*self }),
    {
        let mut r = self.duplicate();
        r.stage = stage;
        r
    }
}

/// Failure reported by a collaborator (a command's output or a parse diagnostic).
#[derive(Debug)]
pub struct CommandError {
    pub message: String,
}

impl CommandError {
    pub fn new(message: String) -> (r: Self)
        ensures
            r.message == message,
    {
        CommandError { message }
    }

    pub fn duplicate(&self) -> (r: Self)
        ensures
            r == *self,
    {
        CommandError { message: self.message.clone() }
    }
}

/// A classified failure with the event context at its point of origin.
#[derive(Debug)]
pub enum EngineError {
    CannotCopyFiles { details: EventDetails, from: String, to: String, cause: CommandError },
    CreateNamespace { details: EventDetails, namespace: String, cause: CommandError },
    ChartRelease { details: EventDetails, cause: CommandError },
    ServiceFailedToStart {
        details: EventDetails,
        service: String,
        service_type: String,
        last_error: Option<CommandError>,
    },
    ProvisioningPipeline { details: EventDetails, cause: CommandError },
    ProvisioningDestroy { details: EventDetails, cause: CommandError },
    ScaleReplicas {
        details: EventDetails,
        selector: String,
        namespace: String,
        replicas: usize,
        cause: CommandError,
    },
    VersionParsing { details: EventDetails, raw_version: String, cause: CommandError },
    UnsupportedVersion { details: EventDetails, service_type: String, version: String },
    ClusterServiceIssue { details: EventDetails, cause: CommandError },
    /// The container logs of a selector could not be read.
    LogsUnavailable { details: EventDetails, selector: String, namespace: String, cause: CommandError },
    /// The pods could not be listed.
    PodsUnavailable { details: EventDetails, cause: CommandError },
    /// The events of a namespace could not be read.
    EventsUnavailable { details: EventDetails, namespace: String, cause: CommandError },
}

impl EngineError {
    /// The event context the error was raised with.
    pub fn details(&self) -> (r: &EventDetails)
        ensures
            r == self.spec_details(),
    {
        match self {
            EngineError::CannotCopyFiles { details, .. } => details,
            EngineError::CreateNamespace { details, .. } => details,
            EngineError::ChartRelease { details, .. } => details,
            EngineError::ServiceFailedToStart { details, .. } => details,
            EngineError::ProvisioningPipeline { details, .. } => details,
            EngineError::ProvisioningDestroy { details, .. } => details,
            EngineError::ScaleReplicas { details, .. } => details,
            EngineError::VersionParsing { details, .. } => details,
            EngineError::UnsupportedVersion { details, .. } => details,
            EngineError::ClusterServiceIssue { details, .. } => details,
            EngineError::LogsUnavailable { details, .. } => details,
            EngineError::PodsUnavailable { details, .. } => details,
            EngineError::EventsUnavailable { details, .. } => details,
        }
    }

    pub open spec fn spec_details(&self) -> EventDetails {
        match self {
            EngineError::CannotCopyFiles { details, .. } => *details,
            EngineError::CreateNamespace { details, .. } => *details,
            EngineError::ChartRelease { details, .. } => *details,
            EngineError::ServiceFailedToStart { details, .. } => *details,
            EngineError::ProvisioningPipeline { details, .. } => *details,
            EngineError::ProvisioningDestroy { details, .. } => *details,
            EngineError::ScaleReplicas { details, .. } => *details,
            EngineError::VersionParsing { details, .. } => *details,
            EngineError::UnsupportedVersion { details, .. } => *details,
            EngineError::ClusterServiceIssue { details, .. } => *details,
            EngineError::LogsUnavailable { details, .. } => *details,
            EngineError::PodsUnavailable { details, .. } => *details,
            EngineError::EventsUnavailable { details, .. } => *details,
        }
    }

    /// The collaborator failure underneath, when there is one.
    pub open spec fn spec_underlying(&self) -> Option<CommandError> {
        match self {
            EngineError::CannotCopyFiles { cause, .. } => Some(*cause),
            EngineError::CreateNamespace { cause, .. } => Some(*cause),
            EngineError::ChartRelease { cause, .. } => Some(*cause),
            EngineError::ServiceFailedToStart { last_error, .. } => *last_error,
            EngineError::ProvisioningPipeline { cause, .. } => Some(*cause),
            EngineError::ProvisioningDestroy { cause, .. } => Some(*cause),
            EngineError::ScaleReplicas { cause, .. } => Some(*cause),
            EngineError::VersionParsing { cause, .. } => Some(*cause),
            EngineError::UnsupportedVersion { .. } => None,
            EngineError::ClusterServiceIssue { cause, .. } => Some(*cause),
            EngineError::LogsUnavailable { cause, .. } => Some(*cause),
            EngineError::PodsUnavailable { cause, .. } => Some(*cause),
            EngineError::EventsUnavailable { cause, .. } => Some(*cause),
        }
    }

    /// The collaborator failure underneath, when there is one.
    pub fn underlying_error(&self) -> (r: Option<CommandError>)
        ensures
            r == self.spec_underlying(),
    {
        match self {
            EngineError::CannotCopyFiles { cause, .. } => Some(cause.duplicate()),
            EngineError::CreateNamespace { cause, .. } => Some(cause.duplicate()),
            EngineError::ChartRelease { cause, .. } => Some(cause.duplicate()),
            EngineError::ServiceFailedToStart { last_error, .. } => match last_error {
                Some(e) => Some(e.duplicate()),
                None => None,
            },
            EngineError::ProvisioningPipeline { cause, .. } => Some(cause.duplicate()),
            EngineError::ProvisioningDestroy { cause, .. } => Some(cause.duplicate()),
            EngineError::ScaleReplicas { cause, .. } => Some(cause.duplicate()),
            EngineError::VersionParsing { cause, .. } => Some(cause.duplicate()),
            EngineError::UnsupportedVersion { .. } => None,
            EngineError::ClusterServiceIssue { cause, .. } => Some(cause.duplicate()),
            EngineError::LogsUnavailable { cause, .. } => Some(cause.duplicate()),
            EngineError::PodsUnavailable { cause, .. } => Some(cause.duplicate()),
            EngineError::EventsUnavailable { cause, .. } => Some(cause.duplicate()),
        }
    }
}

} // verus!
