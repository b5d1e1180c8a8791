//! The decision core of a chat bot that downloads social-media videos
//! through an external command-line fetch tool: URL allowlist validation,
//! filename sanitizing, size-gated format selection, output-file discovery,
//! the orchestration state machine with its size cap, and the wording rules
//! for replies and failures. Everything process-external — spawning the
//! tool, the chat transport, the filesystem — lives with the embedding
//! program, which drives the orchestrator action by action.

pub mod bot;
pub mod downloader;
pub mod models;
pub mod orchestration;
pub mod utils;
