//! The uniform request/response types shared by every provider.

use vstd::prelude::*;

verus! {

/// A unique identifier for a model: the technical id used on the wire and a
/// human-readable name.
#[derive(Debug, Clone, Hash)]
pub struct ModelId {
    /// The technical identifier used in API requests.
    pub id: String,
    /// A human-readable name.
    pub name: String,
}

impl PartialEq for ModelId {
    fn eq(&self, other: &ModelId) -> (r: bool) {
        self.id == other.id && self.name == other.name
    }
}

impl vstd::std_specs::cmp::PartialEqSpecImpl for ModelId {
    open spec fn obeys_eq_spec() -> bool {
        true
    }

    open spec fn eq_spec(&self, other: &ModelId) -> bool {
        self.id@ == other.id@ && self.name@ == other.name@
    }
}

impl Eq for ModelId {

}

/// A request for a model: a single free-text prompt.
#[derive(Debug, Clone)]
pub struct AiRequest {
    /// The input text to be processed by the model.
    pub text: String,
}

/// The uniform response produced by every provider, for both the blocking
/// and the per-chunk streaming exchange.
#[derive(Debug, Clone)]
pub struct AiResponse {
    /// The text of the response.
    pub text: String,
    /// Token usage data, absent where the provider did not report it.
    pub token_usage: TokenUsage,
}

/// Token usage reported by a provider. Every field is optional: not every
/// provider reports usage on every response.
#[derive(Debug, Clone)]
pub struct TokenUsage {
    /// Tokens in the input prompt.
    pub input_tokens: Option<u64>,
    /// Tokens in the output.
    pub output_tokens: Option<u64>,
    /// Total tokens of the exchange.
    pub total_tokens: Option<u64>,
}

impl TokenUsage {
    /// Whether no usage at all was reported.
    pub open spec fn spec_is_absent(self) -> bool {
        self.input_tokens is None && self.output_tokens is None && self.total_tokens is None
    }

    /// Usage with every field absent.
    pub fn absent() -> (r: TokenUsage)
        ensures
            r.spec_is_absent(),
    {
        TokenUsage { input_tokens: None, output_tokens: None, total_tokens: None }
    }
}

impl Default for TokenUsage {
    fn default() -> (r: TokenUsage)
        ensures
            r.spec_is_absent(),
    {
        TokenUsage { input_tokens: None, output_tokens: None, total_tokens: None }
    }
}

} // verus!
