//! The OpenRouter provider: its open model catalog (models are data,
//! queried at run time, not code), its configuration errors, its raw
//! response shapes and their normalization into the uniform response type.

use vstd::prelude::*;

use crate::error::Error;
use crate::http::RequestPlan;
use crate::model::{AiModel, ProviderModel};
use crate::stream::{StreamEvent, StreamStep};
use crate::strutil::{
    concat_all, lemma_concat_all_nested, lemma_concat_all_push, spec_trim, str_eq, str_trim,
};
use crate::types::{AiRequest, AiResponse, ModelId, TokenUsage};

verus! {

/// An OpenRouter model identifier. The catalog is dynamic, so any string a
/// caller supplies names a model; uniqueness is provider data, not
/// guaranteed here.
#[derive(Debug, Clone)]
pub struct OpenrouterModel(pub String);

impl OpenrouterModel {
    /// Wraps a caller-supplied model name.
    pub fn new(model_name: String) -> (r: OpenrouterModel)
        ensures
            r.0@ == model_name@,
    {
        OpenrouterModel(model_name)
    }

    /// The identifier this model is requested under on the wire.
    pub open spec fn spec_wire_id(self) -> Seq<char> {
        self.0@
    }

    /// The wire identifier of this model.
    pub fn as_str(&self) -> (r: &str)
        ensures
            r@ == self.spec_wire_id(),
    {
        self.0.as_str()
    }

    /// The identifier record of this model: with a dynamic catalog there is
    /// no separate display name, so both fields carry the wire identifier.
    pub fn model_id(&self) -> (r: ModelId)
        ensures
            r.id@ == self.spec_wire_id(),
            r.name@ == self.spec_wire_id(),
    {
        ModelId { id: self.0.clone(), name: self.0.clone() }
    }
}

impl ProviderModel for OpenrouterModel {
    open spec fn spec_narrow(m: AiModel) -> Option<OpenrouterModel> {
        match m {
            AiModel::Openrouter(o) => Some(o),
            _ => None,
        }
    }

    fn from_model(m: &AiModel) -> (r: Option<OpenrouterModel>) {
        match m {
            AiModel::Openrouter(o) => Some(OpenrouterModel(o.0.clone())),
            _ => None,
        }
    }
}

/// The usage block of an OpenRouter response.
#[derive(Debug, Clone)]
pub struct Usage {
    pub prompt_tokens: u64,
    pub completion_tokens: u64,
    pub total_tokens: u64,
}

/// One message of an OpenRouter choice.
#[derive(Debug, Clone)]
pub struct Message {
    pub role: String,
    pub content: String,
}

/// One choice of an OpenRouter response.
#[derive(Debug, Clone)]
pub struct Choice {
    pub finish_reason: String,
    pub native_finish_reason: String,
    pub index: u64,
    pub message: Message,
}

/// An OpenRouter success body, reduced to what normalization reads.
#[derive(Debug, Clone)]
pub struct OpenrouterResponse {
    pub id: String,
    pub provider: String,
    pub model: String,
    pub object: String,
    pub created: u64,
    pub choices: Vec<Choice>,
    pub usage: Usage,
}

/// The message contents of a choice list, in order.
pub open spec fn spec_choice_texts(cs: Seq<Choice>) -> Seq<Seq<char>> {
    cs.map_values(|c: Choice| c.message.content@)
}

impl OpenrouterResponse {
    /// The choices' message contents, concatenated in order.
    pub open spec fn spec_text(self) -> Seq<char> {
        concat_all(spec_choice_texts(self.choices@))
    }

    /// Concatenates every choice's message content, in order, without
    /// reordering, deduplication or separators; an empty choice list
    /// yields the empty string.
    pub fn extract_text(&self) -> (r: String)
        ensures
            r@ == self.spec_text(),
    {
        let mut out = String::new();
        let mut k: usize = 0;
        while k < self.choices.len()
            invariant
                k <= self.choices@.len(),
                out@ == concat_all(spec_choice_texts(self.choices@.subrange(0, k as int))),
            decreases self.choices@.len() - k,
        {
            out.append(self.choices[k].message.content.as_str());
            proof {
                let cs = self.choices@;
                assert(cs.subrange(0, k + 1) =~= cs.subrange(0, k as int).push(cs[k as int]));
                assert(spec_choice_texts(cs.subrange(0, k + 1)) =~= spec_choice_texts(
                    cs.subrange(0, k as int),
                ).push(cs[k as int].message.content@));
                lemma_concat_all_push(
                    spec_choice_texts(cs.subrange(0, k as int)),
                    cs[k as int].message.content@,
                );
                assert(out@ =~= concat_all(spec_choice_texts(cs.subrange(0, k + 1))));
            }
            k = k + 1;
        }
        proof {
            assert(self.choices@.subrange(0, self.choices@.len() as int) =~= self.choices@);
        }
        out
    }

    /// Normalizes this raw response: the concatenated text and the usage
    /// OpenRouter always reports on the blocking exchange.
    pub fn to_ai_response(&self) -> (r: AiResponse)
        ensures
            r.text@ == self.spec_text(),
            r.token_usage.input_tokens == Some(self.usage.prompt_tokens),
            r.token_usage.output_tokens == Some(self.usage.completion_tokens),
            r.token_usage.total_tokens == Some(self.usage.total_tokens),
    {
        AiResponse {
            text: self.extract_text(),
            token_usage: TokenUsage {
                input_tokens: Some(self.usage.prompt_tokens),
                output_tokens: Some(self.usage.completion_tokens),
                total_tokens: Some(self.usage.total_tokens),
            },
        }
    }
}

/// A well-formed response with zero content fragments normalizes to the
/// empty string, never to an error.
pub proof fn lemma_openrouter_empty_fragments(r: OpenrouterResponse)
    requires
        r.choices@.len() == 0,
    ensures
        r.spec_text() == Seq::<char>::empty(),
{
    assert(spec_choice_texts(r.choices@) =~= Seq::<Seq<char>>::empty());
}

/// One entry of the dynamic model catalog.
#[derive(Debug, Clone)]
pub struct ModelsItem {
    pub id: String,
    pub name: String,
}

/// The dynamic model catalog as the provider lists it.
#[derive(Debug, Clone)]
pub struct ModelsList {
    pub data: Vec<ModelsItem>,
}

/// Converts the listed catalog into identifier records, keeping order and
/// every entry: with a dynamic catalog, uniqueness is provider data and is
/// not enforced here.
pub fn models_from_list(list: ModelsList) -> (r: Vec<ModelId>)
    ensures
        r@.len() == list.data@.len(),
        forall|i: int|
            0 <= i < r@.len() ==> #[trigger] r@[i].id@ == list.data@[i].id@ && r@[i].name@
                == list.data@[i].name@,
{
    let mut r: Vec<ModelId> = Vec::new();
    let mut i: usize = 0;
    while i < list.data.len()
        invariant
            i <= list.data@.len(),
            r@.len() == i,
            forall|k: int|
                0 <= k < i ==> #[trigger] r@[k].id@ == list.data@[k].id@ && r@[k].name@
                    == list.data@[k].name@,
        decreases list.data@.len() - i,
    {
        let item = &list.data[i];
        r.push(ModelId { id: item.id.clone(), name: item.name.clone() });
        i = i + 1;
    }
    r
}

/// One incremental delta of a streamed choice.
#[derive(Debug, Clone)]
pub struct StreamDelta {
    pub role: Option<String>,
    pub content: Option<String>,
}

/// One choice of a streamed chunk.
#[derive(Debug, Clone)]
pub struct StreamChoice {
    pub index: u64,
    pub delta: StreamDelta,
    pub finish_reason: Option<String>,
    pub native_finish_reason: Option<String>,
}

/// One decoded streaming chunk of the OpenRouter API.
#[derive(Debug, Clone)]
pub struct OpenrouterStreamResponse {
    pub id: String,
    pub provider: String,
    pub model: String,
    pub object: String,
    pub created: u64,
    pub choices: Vec<StreamChoice>,
    pub usage: Option<Usage>,
}

/// The delta content of one streamed choice; an absent delta reads as the
/// empty string.
pub open spec fn spec_delta_content(c: StreamChoice) -> Seq<char> {
    match c.delta.content {
        Some(s) => s@,
        None => Seq::<char>::empty(),
    }
}

/// The delta contents of a streamed choice list, in order.
pub open spec fn spec_stream_choice_texts(cs: Seq<StreamChoice>) -> Seq<Seq<char>> {
    cs.map_values(|c: StreamChoice| spec_delta_content(c))
}

impl OpenrouterStreamResponse {
    /// The choices' delta contents, concatenated in order.
    pub open spec fn spec_text(self) -> Seq<char> {
        concat_all(spec_stream_choice_texts(self.choices@))
    }

    /// Concatenates every choice's delta content (absent deltas read as
    /// empty), in order, without reordering or separators.
    pub fn extract_text(&self) -> (r: String)
        ensures
            r@ == self.spec_text(),
    {
        let mut out = String::new();
        let mut k: usize = 0;
        while k < self.choices.len()
            invariant
                k <= self.choices@.len(),
                out@ == concat_all(spec_stream_choice_texts(self.choices@.subrange(0, k as int))),
            decreases self.choices@.len() - k,
        {
            match &self.choices[k].delta.content {
                Some(s) => out.append(s.as_str()),
                None => (),
            }
            proof {
                let cs = self.choices@;
                assert(cs.subrange(0, k + 1) =~= cs.subrange(0, k as int).push(cs[k as int]));
                assert(spec_stream_choice_texts(cs.subrange(0, k + 1))
                    =~= spec_stream_choice_texts(cs.subrange(0, k as int)).push(
                    spec_delta_content(cs[k as int]),
                ));
                lemma_concat_all_push(
                    spec_stream_choice_texts(cs.subrange(0, k as int)),
                    spec_delta_content(cs[k as int]),
                );
                assert(out@ =~= concat_all(spec_stream_choice_texts(cs.subrange(0, k + 1))));
            }
            k = k + 1;
        }
        proof {
            assert(self.choices@.subrange(0, self.choices@.len() as int) =~= self.choices@);
        }
        out
    }

    /// Normalizes this streamed chunk: the concatenated delta text and
    /// the usage, absent where the chunk did not report it.
    pub fn to_ai_response(&self) -> (r: AiResponse)
        ensures
            r.text@ == self.spec_text(),
            self.usage matches Some(u) ==> r.token_usage.input_tokens == Some(u.prompt_tokens)
                && r.token_usage.output_tokens == Some(u.completion_tokens)
                && r.token_usage.total_tokens == Some(u.total_tokens),
            self.usage is None ==> r.token_usage.spec_is_absent(),
    {
        let token_usage = match &self.usage {
            Some(u) => TokenUsage {
                input_tokens: Some(u.prompt_tokens),
                output_tokens: Some(u.completion_tokens),
                total_tokens: Some(u.total_tokens),
            },
            None => TokenUsage::absent(),
        };
        AiResponse { text: self.extract_text(), token_usage }
    }
}

/// The OpenRouter API's base URL.
pub fn base_url() -> (r: &'static str)
    ensures
        r@ == "https://openrouter.ai/api/v1/"@,
{
    "https://openrouter.ai/api/v1/"
}

/// The request path of a chat-completions call, blocking or streaming.
pub fn completions_path() -> (r: &'static str)
    ensures
        r@ == "chat/completions"@,
{
    "chat/completions"
}

/// The request path of the model-catalog listing.
pub fn models_path() -> (r: &'static str)
    ensures
        r@ == "models"@,
{
    "models"
}

/// Narrows the opaque model and, on success, plans one blocking request.
/// A foreign model fails here, before any network activity, with
/// `InvalidModelError` carrying the caller's wire identifier.
pub fn plan_request(model: &AiModel, request: &AiRequest) -> (r: Result<RequestPlan, Error>)
    ensures
        OpenrouterModel::spec_narrow(*model) is None ==> (r matches Err(
            Error::InvalidModelError(w),
        ) && w@ == model.spec_wire_id()),
        OpenrouterModel::spec_narrow(*model) matches Some(m) ==> (r matches Ok(p) && p.path@
            == "chat/completions"@ && p.model@ == m.spec_wire_id() && p.text@ == request.text@
            && p.stream == false),
{
    match model.downcast::<OpenrouterModel>() {
        Some(m) => Ok(
            RequestPlan {
                path: completions_path().to_owned(),
                model: m.0,
                text: request.text.clone(),
                stream: false,
            },
        ),
        None => Err(Error::InvalidModelError(model.as_str().to_owned())),
    }
}

/// Narrows the opaque model and, on success, plans one streaming request:
/// the same path, with the body asking for a stream. A foreign model fails
/// here, before any network activity, with `InvalidModelError` carrying
/// the caller's wire identifier.
pub fn plan_streaming(model: &AiModel, request: &AiRequest) -> (r: Result<RequestPlan, Error>)
    ensures
        OpenrouterModel::spec_narrow(*model) is None ==> (r matches Err(
            Error::InvalidModelError(w),
        ) && w@ == model.spec_wire_id()),
        OpenrouterModel::spec_narrow(*model) matches Some(m) ==> (r matches Ok(p) && p.path@
            == "chat/completions"@ && p.model@ == m.spec_wire_id() && p.text@ == request.text@
            && p.stream == true),
{
    match model.downcast::<OpenrouterModel>() {
        Some(m) => Ok(
            RequestPlan {
                path: completions_path().to_owned(),
                model: m.0,
                text: request.text.clone(),
                stream: true,
            },
        ),
        None => Err(Error::InvalidModelError(model.as_str().to_owned())),
    }
}

/// Maps the outcome of decoding one success body: a decoded body is
/// normalized, an undecodable one is a `ParseError` carrying the decoder's
/// detail.
pub fn decode_body(parsed: Result<OpenrouterResponse, String>) -> (r: Result<AiResponse, Error>)
    ensures
        parsed matches Ok(o) ==> (r matches Ok(a) && a.text@ == o.spec_text()
            && a.token_usage.input_tokens == Some(o.usage.prompt_tokens)
            && a.token_usage.output_tokens == Some(o.usage.completion_tokens)
            && a.token_usage.total_tokens == Some(o.usage.total_tokens)),
        parsed matches Err(d) ==> r == Err::<AiResponse, Error>(Error::ParseError(d)),
{
    match parsed {
        Ok(o) => Ok(o.to_ai_response()),
        Err(d) => Err(Error::ParseError(d)),
    }
}

/// Whether an event's data payload is the stream-termination sentinel:
/// exactly the literal `[DONE]`, allowing surrounding whitespace and
/// nothing else, so that a document that merely mentions the marker is
/// never mistaken for it. The sentinel ends the sequence cleanly, with no
/// further element and no error; it is checked on the raw payload, before
/// any decoding.
pub fn is_terminator(data: &str) -> (r: bool)
    ensures
        r == (spec_trim(data@) == "[DONE]"@),
{
    let trimmed = str_trim(data);
    str_eq(trimmed.as_str(), "[DONE]")
}

/// Decides what a raw data payload means before any decoding: the
/// sentinel ends the sequence with no further element and no error; any
/// other payload must be decoded first.
pub fn payload_step(data: &str) -> (r: Option<StreamStep>)
    ensures
        spec_trim(data@) == "[DONE]"@ ==> r == Some(StreamStep::Done),
        spec_trim(data@) != "[DONE]"@ ==> r is None,
{
    if is_terminator(data) {
        Some(StreamStep::Done)
    } else {
        None
    }
}

/// Decides one step of an OpenRouter stream, for events the sentinel test
/// ([`is_terminator`]) has let through. Every decoded chunk yields one
/// normalized element. A broken transport and an undecodable payload are
/// terminal: dropped fragments would corrupt the concatenated answer.
pub fn stream_step(event: StreamEvent<OpenrouterStreamResponse>) -> (r: StreamStep)
    ensures
        event matches StreamEvent::Decoded(c) ==> (r matches StreamStep::Yield(a) && a.text@
            == c.spec_text() && (c.usage matches Some(u) ==> a.token_usage.input_tokens == Some(
            u.prompt_tokens,
        ) && a.token_usage.output_tokens == Some(u.completion_tokens)
            && a.token_usage.total_tokens == Some(u.total_tokens)) && (c.usage is None
            ==> a.token_usage.spec_is_absent())),
        event matches StreamEvent::Undecodable(d) ==> r == StreamStep::Terminal(
            Error::ParseError(d),
        ),
        event matches StreamEvent::Broken(d) ==> (r matches StreamStep::Terminal(
            Error::ProviderError { provider, error },
        ) && provider@ == "OpenRouter"@ && error == d),
{
    match event {
        StreamEvent::Decoded(c) => StreamStep::Yield(c.to_ai_response()),
        StreamEvent::Undecodable(d) => StreamStep::Terminal(Error::ParseError(d)),
        StreamEvent::Broken(d) => StreamStep::Terminal(
            Error::ProviderError { provider: "OpenRouter".to_owned(), error: d },
        ),
    }
}

/// The texts of the elements the decoded sequence yields for `chunks`,
/// in receipt order: every decoded chunk yields exactly one element,
/// carrying that chunk's normalized text.
pub open spec fn spec_yield_texts(chunks: Seq<OpenrouterStreamResponse>) -> Seq<Seq<char>> {
    chunks.map_values(|c: OpenrouterStreamResponse| c.spec_text())
}

/// Round trip between the two exchange styles: when the delta fragments
/// the backend streams, concatenated across all chunks, equal the
/// concatenated message fragments it returns whole in the blocking body,
/// then concatenating every text the decoded sequence yields reproduces
/// exactly the text the blocking normalization produces.
pub proof fn lemma_openrouter_stream_round_trip(
    chunks: Seq<OpenrouterStreamResponse>,
    whole: OpenrouterResponse,
)
    requires
        concat_all(
            concat_all(
                chunks.map_values(
                    |c: OpenrouterStreamResponse| spec_stream_choice_texts(c.choices@),
                ),
            ),
        ) == concat_all(spec_choice_texts(whole.choices@)),
    ensures
        concat_all(spec_yield_texts(chunks)) == whole.spec_text(),
{
    let xss = chunks.map_values(
        |c: OpenrouterStreamResponse| spec_stream_choice_texts(c.choices@),
    );
    lemma_concat_all_nested(xss);
    assert(spec_yield_texts(chunks) =~= xss.map_values(|xs: Seq<Seq<char>>| concat_all(xs)));
}

/// Failures when assembling an OpenRouter client from its configuration.
#[derive(Debug, Clone)]
pub enum OpenrouterError {
    /// No HTTP client was provided.
    MissingClientError,
    /// No API key was provided.
    MissingApiKeyError,
    /// An optional header value could not be encoded as an HTTP header.
    HeaderParseError(String),
}

impl OpenrouterError {
    /// This configuration failure as a value of the shared taxonomy.
    pub fn to_error(&self) -> (r: Error)
        ensures
            r matches Error::ProviderError { provider, error } && provider@ == "OpenRouter"@
                && (match *self {
                OpenrouterError::MissingClientError => error@ == "Missing reqwest::Client"@,
                OpenrouterError::MissingApiKeyError => error@ == "Missing API key"@,
                OpenrouterError::HeaderParseError(detail) => error@ == "Failed to parse header: "@
                    + detail@,
            }),
    {
        match self {
            OpenrouterError::MissingClientError => Error::ProviderError {
                provider: "OpenRouter".to_owned(),
                error: "Missing reqwest::Client".to_owned(),
            },
            OpenrouterError::MissingApiKeyError => Error::ProviderError {
                provider: "OpenRouter".to_owned(),
                error: "Missing API key".to_owned(),
            },
            OpenrouterError::HeaderParseError(detail) => {
                let error = "Failed to parse header: ".to_owned().concat(detail.as_str());
                Error::ProviderError { provider: "OpenRouter".to_owned(), error }
            },
        }
    }
}

} // verus!
