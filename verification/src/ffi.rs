//! The host-facing layer: the JSON wire contract of every operation's result
//! and the classification of errors into the host's error types.
pub mod json_text;


pub mod json;
pub mod base64_law;
pub mod error_type;
pub mod errors;
pub mod device_state;
pub mod progress;
pub mod sampler;
