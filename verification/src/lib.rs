//! Client-side driver for a spawned analysis tool, speaking a
//! newline-terminated request / null-byte-terminated response protocol
//! over the tool's standard input and output.
//!
//! This crate holds the verified protocol logic: building the spawn
//! command line, framing request text, decoding response frames, and
//! interpreting response text as JSON. The asynchronous process and
//! pipe handling that drives these functions lives outside the
//! verified core.

pub mod errors;
pub mod json;
pub mod launch;
pub mod protocol;
pub mod serde_specs;

pub use errors::Error;
pub use json::decode_json_response;
pub use launch::build_spawn_command;
pub use launch::classify_handshake_failure;
pub use launch::R2PipeSpawnOptions;
pub use launch::SpawnCommand;
pub use protocol::decode_response;
pub use protocol::encode_command;
pub use protocol::frame_request;
pub use protocol::quit_request;
