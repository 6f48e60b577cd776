//! The backend capability interface. Concrete provider integrations — an
//! OpenAI-compatible one and an Anthropic one — live outside this library and
//! implement these traits; the facade is verified against them without
//! assuming anything about what a backend returns.

use vstd::prelude::*;

use crate::domain::{BackendError, ChatCompletionMessage, Context, Model, ModelId, Provider};
use crate::transport::HttpTransport;

verus! {

/// A lazy, pull-based sequence of chat messages. Any pull may fail
/// independently of the initial connection outcome and of earlier items.
pub trait ChatStreamSource {
    /// Pull the next raw item, or `None` once the stream is exhausted.
    fn next_item(&mut self) -> Option<Result<ChatCompletionMessage, BackendError>>;
}

/// One concrete provider integration. Nothing is assumed of its results: the
/// facade's contracts state what holds whatever a backend returns.
pub trait BackendCapability: Sized {
    /// The stream type this backend's `chat` produces.
    type Stream;

    /// Initialize the backend for `provider`, with `version` identifying the
    /// client (for example in a client-identifying header). The error is the
    /// backend's own initialization failure message.
    fn build(provider: &Provider, version: &String) -> Result<Self, String>;

    /// Fetch the models this provider offers, performing requests over
    /// `transport`. Must be safe to call concurrently with itself and with
    /// `chat`.
    fn list_models(&mut self, transport: &HttpTransport) -> Result<Vec<Model>, BackendError>;

    /// Start a chat completion for `model` over `transport`; the returned
    /// stream is pulled at the caller's pace.
    fn chat(&mut self, transport: &HttpTransport, model: &ModelId, context: &Context) -> Result<
        Self::Stream,
        BackendError,
    >;
}

} // verus!
