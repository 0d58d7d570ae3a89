//! Model identity and narrowing.
//!
//! Callers pass an opaque [`AiModel`] value across provider boundaries.
//! Each provider recovers its own concrete model type through
//! [`ProviderModel::from_model`] (or [`AiModel::downcast`]) and must treat a
//! value of any other concrete type as foreign.

use vstd::prelude::*;

use crate::gemini::GeminiModel;
use crate::openai::OpenaiModel;
use crate::openrouter::OpenrouterModel;
use crate::types::ModelId;

verus! {

/// An opaque model value: one concrete model of some provider.
#[derive(Debug, Clone)]
pub enum AiModel {
    Gemini(GeminiModel),
    Openai(OpenaiModel),
    Openrouter(OpenrouterModel),
}

/// A concrete, provider-specific model representation.
///
/// Narrowing is a pure check: it succeeds exactly on values of this concrete
/// type and reports absence for a foreign one, so the caller decides how to
/// fail.
pub trait ProviderModel: Sized {
    /// What narrowing an opaque value to this concrete type yields.
    spec fn spec_narrow(m: AiModel) -> Option<Self>;

    /// Recovers a concrete model value, or reports absence for a foreign one.
    fn from_model(m: &AiModel) -> (r: Option<Self>)
        ensures
            r == Self::spec_narrow(*m),
    ;
}

impl AiModel {
    /// The wire identifier of the underlying concrete model.
    pub open spec fn spec_wire_id(self) -> Seq<char> {
        match self {
            AiModel::Gemini(m) => m.spec_wire_id(),
            AiModel::Openai(m) => m.spec_wire_id(),
            AiModel::Openrouter(m) => m.spec_wire_id(),
        }
    }

    /// The wire identifier: exactly the string the owning provider's API
    /// accepts for its `model` field.
    pub fn as_str(&self) -> (r: &str)
        ensures
            r@ == self.spec_wire_id(),
    {
        match self {
            AiModel::Gemini(m) => m.as_str(),
            AiModel::Openai(m) => m.as_str(),
            AiModel::Openrouter(m) => m.as_str(),
        }
    }

    /// The human-readable name of the underlying concrete model. With a
    /// dynamic catalog (OpenRouter) the wire identifier is the name.
    pub open spec fn spec_display_name(self) -> Seq<char> {
        match self {
            AiModel::Gemini(m) => m.spec_display_name(),
            AiModel::Openai(m) => m.spec_display_name(),
            AiModel::Openrouter(m) => m.spec_wire_id(),
        }
    }

    /// The identifier record of the underlying concrete model.
    pub fn model_id(&self) -> (r: ModelId)
        ensures
            r.id@ == self.spec_wire_id(),
            r.name@ == self.spec_display_name(),
    {
        match self {
            AiModel::Gemini(m) => m.model_id(),
            AiModel::Openai(m) => m.model_id(),
            AiModel::Openrouter(m) => m.model_id(),
        }
    }

    /// Attempts to narrow this opaque value to the concrete model type `M`.
    pub fn downcast<M: ProviderModel>(&self) -> (r: Option<M>)
        ensures
            r == M::spec_narrow(*self),
    {
        M::from_model(self)
    }
}

/// Narrowing a Gemini model value against its own concrete type succeeds
/// with an equal value; against any other provider's concrete type it
/// reports absence.
pub proof fn lemma_narrow_gemini(m: GeminiModel)
    ensures
        GeminiModel::spec_narrow(AiModel::Gemini(m)) == Some(m),
        OpenaiModel::spec_narrow(AiModel::Gemini(m)) is None,
        OpenrouterModel::spec_narrow(AiModel::Gemini(m)) is None,
{
}

/// Narrowing an OpenAI model value against its own concrete type succeeds
/// with an equal value; against any other provider's concrete type it
/// reports absence.
pub proof fn lemma_narrow_openai(m: OpenaiModel)
    ensures
        OpenaiModel::spec_narrow(AiModel::Openai(m)) == Some(m),
        GeminiModel::spec_narrow(AiModel::Openai(m)) is None,
        OpenrouterModel::spec_narrow(AiModel::Openai(m)) is None,
{
}

/// Narrowing an OpenRouter model value against its own concrete type
/// succeeds with an equal value; against any other provider's concrete type
/// it reports absence.
pub proof fn lemma_narrow_openrouter(m: OpenrouterModel)
    ensures
        OpenrouterModel::spec_narrow(AiModel::Openrouter(m)) == Some(m),
        GeminiModel::spec_narrow(AiModel::Openrouter(m)) is None,
        OpenaiModel::spec_narrow(AiModel::Openrouter(m)) is None,
{
}

} // verus!
