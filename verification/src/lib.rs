//! A verified core for an AWS IoT Greengrass v2 component IPC client.
//!
//! Greengrass components talk to the nucleus over a Unix domain socket using EventStream RPC.
//! This crate holds the protocol logic of that conversation: the RPC message types and flags,
//! building and interpreting EventStream RPC messages, the `Connect` handshake, the routing of
//! incoming frames to the operations that wait for them, and the request, response and event
//! shapes of the supported operations. The socket, the background read task and the typed
//! async operations are driven by the caller on top of these pieces.
#![allow(unused_imports)]

pub mod connection;
pub mod env;
pub mod error;
pub mod eventstream;
pub mod json;
pub mod model;
pub mod text;

pub use connection::{check_connect_ack, check_subscription_ack, response_body, service_error_from};
pub use connection::{Delivery, Outcome, ReadEvent, ReadStep, Registry, StreamSink, SubscriptionAck};
pub use env::{IpcEnv, AUTH_TOKEN_ENV, SOCKET_PATH_ENV};
pub use error::Error;
pub use eventstream::codec::{decoded_frame, encode_message, FrameReader};
pub use eventstream::message::RpcMessage;
pub use eventstream::MessageType;
pub use json::connect_payload;
pub use model::config::{
    ConfigurationUpdateEvent, ConfigurationUpdateEvents, GetConfigurationRequest,
    GetConfigurationResponse, SubscribeToConfigurationUpdateRequest,
    SubscribeToConfigurationUpdateResponse, UpdateConfigurationResponse,
};
pub use model::iotcore::{
    Blob, IoTCoreMessage, MqttMessage, PublishToIoTCoreRequest, PublishToIoTCoreResponse, QoS,
    SubscribeToIoTCoreRequest, SubscribeToIoTCoreResponse,
};
pub use model::lifecycle::{
    ComponentUpdatePolicyEvents, DeferComponentUpdateRequest, DeferComponentUpdateResponse,
    LifecycleState, PauseComponentRequest, PauseComponentResponse, PostComponentUpdateEvent,
    PreComponentUpdateEvent, RestartComponentRequest, RestartComponentResponse,
    ResumeComponentRequest, ResumeComponentResponse, SubscribeToComponentUpdatesRequest,
    SubscribeToComponentUpdatesResponse, UpdateStateRequest, UpdateStateResponse,
};
pub use model::pubsub::{
    BinaryMessage, BinaryMessageIn, BinaryMessageOut, JsonMessage, JsonMessageOut, MessageContext,
    PublishMessage, PublishToTopicRequest, PublishToTopicResponse, SubscribeToTopicRequest,
    SubscribeToTopicResponse, SubscriptionResponseMessage,
};
