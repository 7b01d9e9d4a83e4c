//! Client-side logic for the Copilot chat and embeddings service: resolving the
//! identity token, exchanging it for a session token, building the headers and
//! requests of each call, and judging the replies.
//!
//! The library performs no I/O. A driver reads the environment and the
//! configuration files, sends the requests that the library builds, and hands the
//! replies back.

pub mod client;
pub mod credentials;
pub mod decode;
pub mod error;
pub mod headers;
pub mod json;
pub mod types;

pub use client::{CopilotClient, HttpRequest, Method, RequestBody};
pub use credentials::{get_config_path, get_github_token, Environment};
pub use error::CopilotError;
pub use types::{
    Agent, AgentsResponse, ChatChoice, ChatRequest, ChatResponse, CopilotTokenResponse, Embedding,
    EmbeddingRequest, EmbeddingResponse, Message, Model, ModelsResponse, TokenUsage,
};
