//! Component configuration shapes.

use serde_json::Value;
use vstd::prelude::*;

verus! {

/// Request for `GetConfiguration`.
#[derive(Debug, Clone)]
pub struct GetConfigurationRequest {
    /// The name of the component to read (defaults to this component if `None`);
    /// `componentName`, omitted when `None`.
    pub component_name: Option<String>,
    /// The key path to the configuration value; `keyPath`. Empty reads the whole configuration.
    pub key_path: Vec<String>,
}

/// Response for `GetConfiguration`.
#[derive(Debug, Clone)]
pub struct GetConfigurationResponse {
    /// The name of the component whose configuration was read; `componentName`.
    pub component_name: Option<String>,
    /// The requested configuration value as a JSON object; `value`.
    pub value: Option<Value>,
}

/// Response for `UpdateConfiguration` (empty).
#[derive(Debug, Clone, Default)]
pub struct UpdateConfigurationResponse {}

/// Request for `SubscribeToConfigurationUpdate`.
#[derive(Debug, Clone)]
pub struct SubscribeToConfigurationUpdateRequest {
    /// The component to watch (defaults to this component if `None`); `componentName`, omitted
    /// when `None`.
    pub component_name: Option<String>,
    /// The key path to watch; `keyPath`.
    pub key_path: Vec<String>,
}

/// Response for `SubscribeToConfigurationUpdate` (empty subscription ack).
#[derive(Debug, Clone, Default)]
pub struct SubscribeToConfigurationUpdateResponse {}

/// A configuration-changed event (`aws.greengrass#ConfigurationUpdateEvent`).
#[derive(Debug, Clone)]
pub struct ConfigurationUpdateEvent {
    /// The name of the component whose configuration updated; `componentName`.
    pub component_name: String,
    /// The key path of the configuration value that updated; `keyPath`.
    pub key_path: Vec<String>,
}

/// The streamed configuration-update event union (`aws.greengrass#ConfigurationUpdateEvents`).
#[derive(Debug, Clone)]
pub struct ConfigurationUpdateEvents {
    /// The configuration-update event; `configurationUpdateEvent`.
    pub configuration_update_event: Option<ConfigurationUpdateEvent>,
}

} // verus!
