//! Control-plane bridge between a presentation layer and a locally running
//! compute/inference node.
//!
//! The bridge keeps one piece of state, the node's base URL, and exposes a
//! small set of operations. Each operation composes a URL from the current
//! base address, lets the caller perform exactly one HTTP exchange against
//! it, and maps what came back (a reply, a failure status, or an unreachable
//! node) into a typed result. All of the decisions — which URL to contact,
//! what counts as a success status, and what each outcome turns into — live
//! here and are verified; the transport itself is the caller's concern.

pub mod chat;
pub mod http;
pub mod miner;
pub mod models;
pub mod registry;
pub mod status;

pub use chat::chat;
pub use chat::ChatChoice;
pub use chat::ChatMessage;
pub use chat::ChatOutcome;
pub use chat::ChatResponse;
pub use http::status_is_success;
pub use models::get_models;
pub use models::ModelsOutcome;
pub use http::u16_to_decimal;
pub use miner::start_miner;
pub use miner::stop_miner;
pub use registry::default_node_url;
pub use registry::EndpointRegistry;
pub use status::get_miner_status;
pub use status::MinerStatus;
pub use status::ProbeOutcome;
