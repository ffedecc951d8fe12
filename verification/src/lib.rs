//! Peer connection management, stream dispatch and daemon supervision for a
//! peer-to-peer remote-command fabric, with the decisions of each component
//! stated as contracts and proved.

pub mod agent;
pub mod assoc;
pub mod cli;
pub mod client;
pub mod cluster;
pub mod config;
pub mod config_manager;
pub mod daemon;
pub mod daemon_socket;
pub mod encoding;
pub mod frame;
pub mod graceful;
pub mod identity;
pub mod json;
pub mod keygen;
pub mod listener;
pub mod malai_server;
pub mod manager;
pub mod protocol;
pub mod registry;
pub mod server;
pub mod simple_server;
pub mod supervisor;
pub mod table;
pub mod test_utils;
pub mod tag;
pub mod text;
pub mod toml_value;
