//! Component lifecycle and update-management shapes.

use vstd::prelude::*;

verus! {

/// The lifecycle state of a component on the core device (`aws.greengrass#LifecycleState`).
/// On the wire each state is its name in capitals (`RUNNING`, `ERRORED`, ...).
#[derive(Debug, Clone, Copy, PartialEq, Eq, Structural)]
pub enum LifecycleState {
    /// The component is running.
    Running,
    /// The component encountered an error.
    Errored,
    /// The component is new.
    New,
    /// The component finished running.
    Finished,
    /// The component is installed.
    Installed,
    /// The component is broken.
    Broken,
    /// The component is starting.
    Starting,
    /// The component is stopping.
    Stopping,
}

/// Request for `UpdateState`.
#[derive(Debug, Clone, Copy)]
pub struct UpdateStateRequest {
    /// The state to report; `state`.
    pub state: LifecycleState,
}

/// Response for `UpdateState` (empty).
#[derive(Debug, Clone, Default)]
pub struct UpdateStateResponse {}

/// Request for `SubscribeToComponentUpdates` (empty).
#[derive(Debug, Clone, Default)]
pub struct SubscribeToComponentUpdatesRequest {}

/// Response for `SubscribeToComponentUpdates` (empty subscription ack).
#[derive(Debug, Clone, Default)]
pub struct SubscribeToComponentUpdatesResponse {}

/// An event indicating the nucleus wants to update a component
/// (`aws.greengrass#PreComponentUpdateEvent`).
#[derive(Debug, Clone)]
pub struct PreComponentUpdateEvent {
    /// The ID of the deployment that will update the component; `deploymentId`.
    pub deployment_id: String,
    /// Whether the nucleus needs to restart to apply the update; `isGgcRestarting`, `false`
    /// when absent.
    pub is_ggc_restarting: bool,
}

/// An event indicating the nucleus updated a component
/// (`aws.greengrass#PostComponentUpdateEvent`).
#[derive(Debug, Clone)]
pub struct PostComponentUpdateEvent {
    /// The ID of the deployment that updated the component; `deploymentId`.
    pub deployment_id: String,
}

/// A streamed component-update event (`aws.greengrass#ComponentUpdatePolicyEvents`, a tagged
/// union).
#[derive(Debug, Clone)]
pub struct ComponentUpdatePolicyEvents {
    /// Set when the nucleus wants to update the component; `preUpdateEvent`.
    pub pre_update_event: Option<PreComponentUpdateEvent>,
    /// Set when the nucleus finished updating the component; `postUpdateEvent`.
    pub post_update_event: Option<PostComponentUpdateEvent>,
}

/// Request for `DeferComponentUpdate`.
#[derive(Debug, Clone)]
pub struct DeferComponentUpdateRequest {
    /// The ID of the deployment to defer; `deploymentId`.
    pub deployment_id: String,
    /// An optional message; `message`, omitted when `None`.
    pub message: Option<String>,
    /// Milliseconds to defer the update; `recheckAfterMs`, omitted when `None`. `0` (or `None`)
    /// acknowledges/allows the update.
    pub recheck_after_ms: Option<i64>,
}

/// Response for `DeferComponentUpdate` (empty).
#[derive(Debug, Clone, Default)]
pub struct DeferComponentUpdateResponse {}

/// Request for `PauseComponent`.
#[derive(Debug, Clone)]
pub struct PauseComponentRequest {
    /// The name of the component to pause; `componentName`.
    pub component_name: String,
}

/// Response for `PauseComponent` (empty).
#[derive(Debug, Clone, Default)]
pub struct PauseComponentResponse {}

/// Request for `ResumeComponent`.
#[derive(Debug, Clone)]
pub struct ResumeComponentRequest {
    /// The name of the component to resume; `componentName`.
    pub component_name: String,
}

/// Response for `ResumeComponent` (empty).
#[derive(Debug, Clone, Default)]
pub struct ResumeComponentResponse {}

/// Request for `RestartComponent`.
#[derive(Debug, Clone)]
pub struct RestartComponentRequest {
    /// The name of the component to restart; `componentName`.
    pub component_name: String,
}

/// Response for `RestartComponent`.
#[derive(Debug, Clone)]
pub struct RestartComponentResponse {
    /// The status of the restart request (`SUCCEEDED` / `FAILED`); `restartStatus`.
    pub restart_status: Option<String>,
    /// An optional message about the restart; `message`.
    pub message: Option<String>,
}

} // verus!
