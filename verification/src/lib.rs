//! A provider-agnostic facade over several large-language-model HTTP APIs.
//!
//! The library defines the uniform request/response types, a capability-based
//! model-identity system with safe narrowing, a shared error taxonomy, the
//! per-provider response normalizers, and the streaming (server-sent events)
//! decode pipeline. Transport itself (HTTP, credentials) is left to the
//! embedding application; everything that decides or computes lives here and
//! is verified.

pub mod error;
pub mod gemini;
pub mod http;
pub mod model;
pub mod openai;
pub mod openrouter;
pub mod sse;
pub mod stream;
pub mod strutil;
pub mod types;

pub use error::Error;
pub use model::{AiModel, ProviderModel};
pub use types::{AiRequest, AiResponse, ModelId, TokenUsage};
