//! The Gemini provider: its fixed model catalog, its configuration errors,
//! its raw response shape and the normalization of that shape into the
//! uniform response type.

use vstd::prelude::*;

use crate::error::Error;
use crate::http::RequestPlan;
use crate::model::{AiModel, ProviderModel};
use crate::stream::{StreamEvent, StreamStep};
use crate::strutil::{
    concat_all, lemma_concat_all_all_empty, lemma_concat_all_nested, lemma_concat_all_push,
};
use crate::types::{AiRequest, AiResponse, ModelId, TokenUsage};

verus! {

/// The models of the fixed Gemini catalog.
#[derive(Debug, Clone, Copy, PartialEq, Eq, Hash, Structural)]
pub enum GeminiModel {
    Flash20,
    Flash20Lite,
    Flash25,
    Pro25,
    FlashThinking,
}

impl GeminiModel {
    /// The identifier this model is requested under on the wire.
    pub open spec fn spec_wire_id(self) -> Seq<char> {
        match self {
            GeminiModel::Flash20 => "gemini-2.0-flash"@,
            GeminiModel::Flash20Lite => "gemini-2.0-flash-lite"@,
            GeminiModel::Flash25 => "gemini-2.5-flash"@,
            GeminiModel::Pro25 => "gemini-2.5-pro"@,
            GeminiModel::FlashThinking => "gemini-2.0-flash-thinking-exp-01-21"@,
        }
    }

    /// The human-readable name of this model.
    pub open spec fn spec_display_name(self) -> Seq<char> {
        match self {
            GeminiModel::Flash20 => "Gemini 2.0 Flash"@,
            GeminiModel::Flash20Lite => "Gemini 2.0 Flash Lite"@,
            GeminiModel::Flash25 => "Gemini 2.5 Flash"@,
            GeminiModel::Pro25 => "Gemini 2.5 Pro"@,
            GeminiModel::FlashThinking => "Gemini 2.0 Flash Thinking"@,
        }
    }

    /// The model that answers to the given wire identifier, if any.
    pub open spec fn spec_of_wire(s: Seq<char>) -> Option<GeminiModel> {
        if s == "gemini-2.0-flash"@ {
            Some(GeminiModel::Flash20)
        } else if s == "gemini-2.0-flash-lite"@ {
            Some(GeminiModel::Flash20Lite)
        } else if s == "gemini-2.5-flash"@ {
            Some(GeminiModel::Flash25)
        } else if s == "gemini-2.5-pro"@ {
            Some(GeminiModel::Pro25)
        } else if s == "gemini-2.0-flash-thinking-exp-01-21"@ {
            Some(GeminiModel::FlashThinking)
        } else {
            None
        }
    }

    /// The wire identifier of this model.
    pub fn as_str(&self) -> (r: &'static str)
        ensures
            r@ == self.spec_wire_id(),
    {
        match self {
            GeminiModel::Flash20 => "gemini-2.0-flash",
            GeminiModel::Flash20Lite => "gemini-2.0-flash-lite",
            GeminiModel::Flash25 => "gemini-2.5-flash",
            GeminiModel::Pro25 => "gemini-2.5-pro",
            GeminiModel::FlashThinking => "gemini-2.0-flash-thinking-exp-01-21",
        }
    }

    /// The identifier record of this model.
    pub fn model_id(&self) -> (r: ModelId)
        ensures
            r.id@ == self.spec_wire_id(),
            r.name@ == self.spec_display_name(),
    {
        let name: &'static str = match self {
            GeminiModel::Flash20 => "Gemini 2.0 Flash",
            GeminiModel::Flash20Lite => "Gemini 2.0 Flash Lite",
            GeminiModel::Flash25 => "Gemini 2.5 Flash",
            GeminiModel::Pro25 => "Gemini 2.5 Pro",
            GeminiModel::FlashThinking => "Gemini 2.0 Flash Thinking",
        };
        ModelId { id: self.as_str().to_owned(), name: name.to_owned() }
    }

    /// The model for a wire identifier, or `InvalidModelError` carrying that
    /// identifier when no model of the catalog answers to it.
    pub fn try_from_str(value: &str) -> (r: Result<GeminiModel, Error>)
        ensures
            Self::spec_of_wire(value@) matches Some(m) ==> r == Ok::<GeminiModel, Error>(m),
            Self::spec_of_wire(value@) is None ==> (r matches Err(Error::InvalidModelError(w))
                && w@ == value@),
    {
        if crate::strutil::str_eq(value, "gemini-2.0-flash") {
            Ok(GeminiModel::Flash20)
        } else if crate::strutil::str_eq(value, "gemini-2.0-flash-lite") {
            Ok(GeminiModel::Flash20Lite)
        } else if crate::strutil::str_eq(value, "gemini-2.5-flash") {
            Ok(GeminiModel::Flash25)
        } else if crate::strutil::str_eq(value, "gemini-2.5-pro") {
            Ok(GeminiModel::Pro25)
        } else if crate::strutil::str_eq(value, "gemini-2.0-flash-thinking-exp-01-21") {
            Ok(GeminiModel::FlashThinking)
        } else {
            Err(Error::InvalidModelError(value.to_owned()))
        }
    }

    /// The identifier records of the whole catalog, in declaration order.
    pub fn variants() -> (r: Vec<ModelId>)
        ensures
            r@.len() == 5,
            r@[0].id@ == GeminiModel::Flash20.spec_wire_id(),
            r@[0].name@ == GeminiModel::Flash20.spec_display_name(),
            r@[1].id@ == GeminiModel::Flash20Lite.spec_wire_id(),
            r@[1].name@ == GeminiModel::Flash20Lite.spec_display_name(),
            r@[2].id@ == GeminiModel::Flash25.spec_wire_id(),
            r@[2].name@ == GeminiModel::Flash25.spec_display_name(),
            r@[3].id@ == GeminiModel::Pro25.spec_wire_id(),
            r@[3].name@ == GeminiModel::Pro25.spec_display_name(),
            r@[4].id@ == GeminiModel::FlashThinking.spec_wire_id(),
            r@[4].name@ == GeminiModel::FlashThinking.spec_display_name(),
    {
        let mut r: Vec<ModelId> = Vec::new();
        r.push(GeminiModel::Flash20.model_id());
        r.push(GeminiModel::Flash20Lite.model_id());
        r.push(GeminiModel::Flash25.model_id());
        r.push(GeminiModel::Pro25.model_id());
        r.push(GeminiModel::FlashThinking.model_id());
        r
    }
}

impl ProviderModel for GeminiModel {
    open spec fn spec_narrow(m: AiModel) -> Option<GeminiModel> {
        match m {
            AiModel::Gemini(g) => Some(g),
            _ => None,
        }
    }

    fn from_model(m: &AiModel) -> (r: Option<GeminiModel>) {
        match m {
            AiModel::Gemini(g) => Some(*g),
            _ => None,
        }
    }
}

/// Wire identifiers are unique within the Gemini catalog: two models with
/// the same identifier are the same model.
pub proof fn lemma_gemini_ids_unique(a: GeminiModel, b: GeminiModel)
    ensures
        a.spec_wire_id() == b.spec_wire_id() ==> a == b,
{
    reveal_strlit("gemini-2.0-flash");
    reveal_strlit("gemini-2.0-flash-lite");
    reveal_strlit("gemini-2.5-flash");
    reveal_strlit("gemini-2.5-pro");
    reveal_strlit("gemini-2.0-flash-thinking-exp-01-21");
    assert("gemini-2.0-flash"@.len() == 16);
    assert("gemini-2.0-flash-lite"@.len() == 21);
    assert("gemini-2.5-flash"@.len() == 16);
    assert("gemini-2.5-pro"@.len() == 14);
    assert("gemini-2.0-flash-thinking-exp-01-21"@.len() == 35);
    assert("gemini-2.0-flash"@[9] == '0');
    assert("gemini-2.5-flash"@[9] == '5');
}

/// One textual fragment of a Gemini response.
#[derive(Debug, Clone)]
pub struct Text {
    pub text: String,
}

/// The content of one candidate: its textual fragments in document order.
#[derive(Debug, Clone)]
pub struct Content {
    pub parts: Vec<Text>,
}

/// One candidate answer of a Gemini response.
#[derive(Debug, Clone)]
pub struct Candidate {
    pub content: Content,
    pub finish_reason: String,
    pub index: Option<u64>,
    pub avg_log_probs: Option<i64>,
}

/// Usage breakdown by modality, as Gemini reports it.
#[derive(Debug, Clone)]
pub struct PromptTokensDetails {
    pub modality: String,
    pub token_count: u64,
}

/// Usage breakdown by modality for the candidates.
#[derive(Debug, Clone)]
pub struct CandidatesTokensDetails {
    pub modality: String,
    pub token_count: u64,
}

/// The usage block of a Gemini response.
#[derive(Debug, Clone)]
pub struct UsageMetadata {
    pub prompt_token_count: u64,
    pub candidates_token_count: u64,
    pub total_token_count: u64,
    pub prompt_tokens_details: Vec<PromptTokensDetails>,
    pub thoughts_token_count: Option<u64>,
    pub candidates_tokens_details: Option<Vec<CandidatesTokensDetails>>,
}

/// A Gemini success body, reduced to what normalization reads.
#[derive(Debug, Clone)]
pub struct GeminiResponse {
    pub candidates: Vec<Candidate>,
    pub usage_metadata: UsageMetadata,
    pub model_version: String,
    pub response_id: String,
}

/// The views of a sequence of fragments.
pub open spec fn spec_part_texts(parts: Seq<Text>) -> Seq<Seq<char>> {
    parts.map_values(|t: Text| t.text@)
}

/// The views of the per-candidate texts.
pub open spec fn spec_candidate_texts(cands: Seq<Candidate>) -> Seq<Seq<char>> {
    cands.map_values(|c: Candidate| c.spec_text())
}

impl Candidate {
    /// The concatenation of this candidate's fragments, in document order.
    pub open spec fn spec_text(self) -> Seq<char> {
        concat_all(spec_part_texts(self.content.parts@))
    }
}

impl GeminiResponse {
    /// The concatenation of every fragment of every candidate, in document
    /// order.
    pub open spec fn spec_text(self) -> Seq<char> {
        concat_all(spec_candidate_texts(self.candidates@))
    }

    /// Concatenates all textual fragments of the response, in document
    /// order; an empty or absent output yields the empty string.
    pub fn extract_text(&self) -> (r: String)
        ensures
            r@ == self.spec_text(),
    {
        let mut out = String::new();
        let mut i: usize = 0;
        while i < self.candidates.len()
            invariant
                i <= self.candidates@.len(),
                out@ == concat_all(spec_candidate_texts(self.candidates@.subrange(0, i as int))),
            decreases self.candidates@.len() - i,
        {
            let cand = &self.candidates[i];
            let ghost before = out@;
            let mut j: usize = 0;
            while j < cand.content.parts.len()
                invariant
                    j <= cand.content.parts@.len(),
                    out@ == before + concat_all(
                        spec_part_texts(cand.content.parts@.subrange(0, j as int)),
                    ),
                decreases cand.content.parts@.len() - j,
            {
                out.append(cand.content.parts[j].text.as_str());
                proof {
                    let parts = cand.content.parts@;
                    assert(parts.subrange(0, j + 1) =~= parts.subrange(0, j as int).push(
                        parts[j as int],
                    ));
                    assert(spec_part_texts(parts.subrange(0, j + 1)) =~= spec_part_texts(
                        parts.subrange(0, j as int),
                    ).push(parts[j as int].text@));
                    lemma_concat_all_push(
                        spec_part_texts(parts.subrange(0, j as int)),
                        parts[j as int].text@,
                    );
                    assert(out@ =~= before + concat_all(spec_part_texts(parts.subrange(0, j + 1))));
                }
                j = j + 1;
            }
            proof {
                let cands = self.candidates@;
                assert(cand.content.parts@.subrange(0, cand.content.parts@.len() as int)
                    =~= cand.content.parts@);
                assert(out@ == before + cands[i as int].spec_text());
                assert(cands.subrange(0, i + 1) =~= cands.subrange(0, i as int).push(
                    cands[i as int],
                ));
                assert(spec_candidate_texts(cands.subrange(0, i + 1)) =~= spec_candidate_texts(
                    cands.subrange(0, i as int),
                ).push(cands[i as int].spec_text()));
                lemma_concat_all_push(
                    spec_candidate_texts(cands.subrange(0, i as int)),
                    cands[i as int].spec_text(),
                );
            }
            i = i + 1;
        }
        proof {
            assert(self.candidates@.subrange(0, self.candidates@.len() as int)
                =~= self.candidates@);
        }
        out
    }

    /// Normalizes this raw response: the concatenated text and the usage
    /// Gemini always reports.
    pub fn to_ai_response(&self) -> (r: AiResponse)
        ensures
            r.text@ == self.spec_text(),
            r.token_usage.input_tokens == Some(self.usage_metadata.prompt_token_count),
            r.token_usage.output_tokens == Some(self.usage_metadata.candidates_token_count),
            r.token_usage.total_tokens == Some(self.usage_metadata.total_token_count),
    {
        AiResponse {
            text: self.extract_text(),
            token_usage: TokenUsage {
                input_tokens: Some(self.usage_metadata.prompt_token_count),
                output_tokens: Some(self.usage_metadata.candidates_token_count),
                total_tokens: Some(self.usage_metadata.total_token_count),
            },
        }
    }
}

/// A well-formed response with zero content fragments normalizes to the
/// empty string, never to an error.
pub proof fn lemma_gemini_empty_fragments(r: GeminiResponse)
    requires
        forall|i: int|
            0 <= i < r.candidates@.len() ==> #[trigger] r.candidates@[i].content.parts@.len() == 0,
    ensures
        r.spec_text() == Seq::<char>::empty(),
{
    let cands = r.candidates@;
    assert forall|i: int| 0 <= i < cands.len() implies #[trigger] spec_candidate_texts(cands)[i].len()
        == 0 by {
        assert(r.candidates@[i].content.parts@.len() == 0);
        assert(spec_part_texts(cands[i].content.parts@) =~= Seq::<Seq<char>>::empty());
        assert(cands[i].spec_text() == Seq::<char>::empty());
    }
    lemma_concat_all_all_empty(spec_candidate_texts(cands));
}

/// The Gemini API's base URL.
pub fn base_url() -> (r: &'static str)
    ensures
        r@ == "https://generativelanguage.googleapis.com"@,
{
    "https://generativelanguage.googleapis.com"
}

/// The HTTP header that carries the Gemini API key.
pub fn api_key_header() -> (r: &'static str)
    ensures
        r@ == "x-goog-api-key"@,
{
    "x-goog-api-key"
}

/// The request path of a blocking content-generation call for `model`.
pub fn request_path(model: &GeminiModel) -> (r: String)
    ensures
        r@ == "/v1beta/models/"@ + model.spec_wire_id() + ":generateContent"@,
{
    let r = "/v1beta/models/".to_owned().concat(model.as_str()).concat(":generateContent");
    proof {
        assert(r@ =~= "/v1beta/models/"@ + model.spec_wire_id() + ":generateContent"@);
    }
    r
}

/// The request path of a streaming content-generation call for `model`.
pub fn streaming_path(model: &GeminiModel) -> (r: String)
    ensures
        r@ == "/v1beta/models/"@ + model.spec_wire_id() + ":streamGenerateContent?alt=sse"@,
{
    let r = "/v1beta/models/".to_owned().concat(model.as_str()).concat(
        ":streamGenerateContent?alt=sse",
    );
    proof {
        assert(r@ =~= "/v1beta/models/"@ + model.spec_wire_id() + ":streamGenerateContent?alt=sse"@);
    }
    r
}

/// Narrows the opaque model and, on success, plans one blocking request.
/// A foreign model fails here, before any network activity, with
/// `InvalidModelError` carrying the caller's wire identifier.
pub fn plan_request(model: &AiModel, request: &AiRequest) -> (r: Result<RequestPlan, Error>)
    ensures
        GeminiModel::spec_narrow(*model) is None ==> (r matches Err(Error::InvalidModelError(w))
            && w@ == model.spec_wire_id()),
        GeminiModel::spec_narrow(*model) matches Some(m) ==> (r matches Ok(p) && p.path@
            == "/v1beta/models/"@ + m.spec_wire_id() + ":generateContent"@ && p.model@
            == m.spec_wire_id() && p.text@ == request.text@ && p.stream == false),
{
    match model.downcast::<GeminiModel>() {
        Some(m) => Ok(
            RequestPlan {
                path: request_path(&m),
                model: m.as_str().to_owned(),
                text: request.text.clone(),
                stream: false,
            },
        ),
        None => Err(Error::InvalidModelError(model.as_str().to_owned())),
    }
}

/// Narrows the opaque model and, on success, plans one streaming request.
/// A foreign model fails here, before any network activity, with
/// `InvalidModelError` carrying the caller's wire identifier.
pub fn plan_streaming(model: &AiModel, request: &AiRequest) -> (r: Result<RequestPlan, Error>)
    ensures
        GeminiModel::spec_narrow(*model) is None ==> (r matches Err(Error::InvalidModelError(w))
            && w@ == model.spec_wire_id()),
        GeminiModel::spec_narrow(*model) matches Some(m) ==> (r matches Ok(p) && p.path@
            == "/v1beta/models/"@ + m.spec_wire_id() + ":streamGenerateContent?alt=sse"@ && p.model@
            == m.spec_wire_id() && p.text@ == request.text@ && p.stream == true),
{
    match model.downcast::<GeminiModel>() {
        Some(m) => Ok(
            RequestPlan {
                path: streaming_path(&m),
                model: m.as_str().to_owned(),
                text: request.text.clone(),
                stream: true,
            },
        ),
        None => Err(Error::InvalidModelError(model.as_str().to_owned())),
    }
}

/// Maps the outcome of decoding one success body: a decoded body is
/// normalized, an undecodable one is a `ParseError` carrying the decoder's
/// detail.
pub fn decode_body(parsed: Result<GeminiResponse, String>) -> (r: Result<AiResponse, Error>)
    ensures
        parsed matches Ok(g) ==> (r matches Ok(a) && a.text@ == g.spec_text()
            && a.token_usage.input_tokens == Some(g.usage_metadata.prompt_token_count)
            && a.token_usage.output_tokens == Some(g.usage_metadata.candidates_token_count)
            && a.token_usage.total_tokens == Some(g.usage_metadata.total_token_count)),
        parsed matches Err(d) ==> r == Err::<AiResponse, Error>(Error::ParseError(d)),
{
    match parsed {
        Ok(g) => Ok(g.to_ai_response()),
        Err(d) => Err(Error::ParseError(d)),
    }
}

/// Decides one step of a Gemini stream. Every event of a Gemini stream
/// carries a whole response body; the stream ends when the connection
/// closes, so no event maps to `Done`. A broken transport and an
/// undecodable payload are both terminal: dropped fragments would corrupt
/// the concatenated answer.
pub fn stream_step(event: StreamEvent<GeminiResponse>) -> (r: StreamStep)
    ensures
        event matches StreamEvent::Decoded(g) ==> (r matches StreamStep::Yield(a) && a.text@
            == g.spec_text() && a.token_usage.input_tokens == Some(
            g.usage_metadata.prompt_token_count,
        ) && a.token_usage.output_tokens == Some(g.usage_metadata.candidates_token_count)
            && a.token_usage.total_tokens == Some(g.usage_metadata.total_token_count)),
        event matches StreamEvent::Undecodable(d) ==> r == StreamStep::Terminal(
            Error::ParseError(d),
        ),
        event matches StreamEvent::Broken(d) ==> (r matches StreamStep::Terminal(
            Error::ProviderError { provider, error },
        ) && provider@ == "Gemini"@ && error == d),
{
    match event {
        StreamEvent::Decoded(g) => StreamStep::Yield(g.to_ai_response()),
        StreamEvent::Undecodable(d) => StreamStep::Terminal(Error::ParseError(d)),
        StreamEvent::Broken(d) => StreamStep::Terminal(
            Error::ProviderError { provider: "Gemini".to_owned(), error: d },
        ),
    }
}

/// The texts of the elements the decoded sequence yields for `chunks`,
/// in receipt order: every decoded chunk yields exactly one element,
/// carrying that chunk's normalized text.
pub open spec fn spec_yield_texts(chunks: Seq<GeminiResponse>) -> Seq<Seq<char>> {
    chunks.map_values(|g: GeminiResponse| g.spec_text())
}

/// Round trip between the two exchange styles: when the per-candidate
/// fragments the backend streams, concatenated across all chunks, equal
/// the concatenated fragments it returns whole in the blocking body, then
/// concatenating every text the decoded sequence yields reproduces
/// exactly the text the blocking normalization produces.
pub proof fn lemma_gemini_stream_round_trip(chunks: Seq<GeminiResponse>, whole: GeminiResponse)
    requires
        concat_all(
            concat_all(chunks.map_values(|g: GeminiResponse| spec_candidate_texts(g.candidates@))),
        ) == concat_all(spec_candidate_texts(whole.candidates@)),
    ensures
        concat_all(spec_yield_texts(chunks)) == whole.spec_text(),
{
    let xss = chunks.map_values(|g: GeminiResponse| spec_candidate_texts(g.candidates@));
    lemma_concat_all_nested(xss);
    assert(spec_yield_texts(chunks) =~= xss.map_values(|xs: Seq<Seq<char>>| concat_all(xs)));
}

/// Failures when assembling a Gemini client from its configuration.
#[derive(Debug, Clone, PartialEq, Eq, Structural)]
pub enum GeminiError {
    /// No API key was provided.
    MissingApiKeyError,
    /// No HTTP client was provided.
    MissingClientError,
}

impl GeminiError {
    /// This configuration failure as a value of the shared taxonomy.
    pub fn to_error(&self) -> (r: Error)
        ensures
            r matches Error::ProviderError { provider, error } && provider@ == "Gemini"@ && (match
                *self {
                GeminiError::MissingApiKeyError => error@ == "Missing API key"@,
                GeminiError::MissingClientError => error@ == "Missing reqwest::Client"@,
            }),
    {
        match self {
            GeminiError::MissingApiKeyError => Error::ProviderError {
                provider: "Gemini".to_owned(),
                error: "Missing API key".to_owned(),
            },
            GeminiError::MissingClientError => Error::ProviderError {
                provider: "Gemini".to_owned(),
                error: "Missing reqwest::Client".to_owned(),
            },
        }
    }
}

} // verus!
