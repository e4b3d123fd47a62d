pub mod clock;
pub mod config;
pub mod consts;
pub mod document;
pub mod errors;
pub mod ipc;
pub mod mqtt_connection;
pub mod mqtt_poll;
pub mod orchestrator;
pub mod payload;
