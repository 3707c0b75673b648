//! A webhook-triggered deployment relay.
//!
//! The library receives a push notification from a source-control host,
//! authenticates it with a shared-secret message authentication code,
//! selects the deployment target that the event applies to, and plans the
//! configured command sequence against that target's working directory.
//! The surrounding process (HTTP server, process spawning, configuration
//! loading) stays outside; the library holds the decisions and proves them.

pub mod classify;
pub mod handler;
pub mod hex;
pub mod plan;
pub mod signature;
pub mod text;

pub use classify::Branch;
pub use classify::ClassifyError;
pub use classify::branch_for_ref;
pub use classify::get_branch;
pub use handler::WebhookReply;
pub use handler::deploy_webhook;
pub use hex::DecodeError;
pub use hex::bytes_to_hex_string;
pub use hex::hex_string_to_bytes;
pub use plan::CommandFile;
pub use plan::CommandOutcome;
pub use plan::CommandStep;
pub use plan::ConfigError;
pub use plan::TargetConfig;
pub use plan::outcome_of_exit;
pub use plan::step_outcome;
pub use signature::VerifyError;
pub use signature::check_signature;
pub use signature::constant_time_eq;
pub use signature::sign_payload;
