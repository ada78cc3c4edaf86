//! Session and command layer of an MQTT version 5.0 client.

pub mod bytes_data;
pub mod common;
pub mod connection_settings;
pub mod control_packet;
pub mod error;
pub mod interface_mocks;
pub mod mask;
pub mod rpc_command;
pub mod session;
pub mod text;
pub mod time;
pub mod topic;
pub mod unified_mqtt_adapter;
