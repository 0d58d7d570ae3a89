//! The OpenAI provider: its fixed model catalog, its configuration errors,
//! its raw response shapes (blocking and streaming) and their normalization
//! into the uniform response type.

use vstd::prelude::*;

use crate::error::Error;
use crate::http::RequestPlan;
use crate::model::{AiModel, ProviderModel};
use crate::stream::{StreamEvent, StreamStep};
use crate::strutil::{concat_all, lemma_concat_all_all_empty, lemma_concat_all_push};
use crate::types::{AiRequest, AiResponse, ModelId, TokenUsage};

verus! {

/// The models of the fixed OpenAI catalog.
#[derive(Debug, Clone, Copy, PartialEq, Eq, Hash, Structural)]
pub enum OpenaiModel {
    Gpto3,
    Gpto3Pro,
    Gpto3Mini,
    Gpto4Mini,
    Gpt5,
    Gpt5Mini,
    Gpt5Nano,
    Gpt5Chat,
    Gpt41,
    Gpt41Mini,
    Gpt41Nano,
    Gpt4o,
    Gpt4oMini,
}

impl OpenaiModel {
    /// The identifier this model is requested under on the wire.
    pub open spec fn spec_wire_id(self) -> Seq<char> {
        match self {
            OpenaiModel::Gpto3 => "o3"@,
            OpenaiModel::Gpto3Pro => "o3-pro"@,
            OpenaiModel::Gpto3Mini => "o3-mini"@,
            OpenaiModel::Gpto4Mini => "o4-mini"@,
            OpenaiModel::Gpt5 => "gpt-5"@,
            OpenaiModel::Gpt5Mini => "gpt-5-mini"@,
            OpenaiModel::Gpt5Nano => "gpt-5-nano"@,
            OpenaiModel::Gpt5Chat => "gpt-5-chat-latest"@,
            OpenaiModel::Gpt41 => "gpt-4.1"@,
            OpenaiModel::Gpt41Mini => "gpt-4.1-mini"@,
            OpenaiModel::Gpt41Nano => "gpt-4.1-nano"@,
            OpenaiModel::Gpt4o => "gpt-4o"@,
            OpenaiModel::Gpt4oMini => "gpt-4o-mini"@,
        }
    }

    /// The human-readable name of this model.
    pub open spec fn spec_display_name(self) -> Seq<char> {
        match self {
            OpenaiModel::Gpto3 => "GPT-o3"@,
            OpenaiModel::Gpto3Pro => "GPT-o3 Pro"@,
            OpenaiModel::Gpto3Mini => "GPT-o3 Mini"@,
            OpenaiModel::Gpto4Mini => "GPT-o4 Mini"@,
            OpenaiModel::Gpt5 => "GPT-5"@,
            OpenaiModel::Gpt5Mini => "GPT-5 Mini"@,
            OpenaiModel::Gpt5Nano => "GPT-5 Nano"@,
            OpenaiModel::Gpt5Chat => "GPT-5 Chat"@,
            OpenaiModel::Gpt41 => "GPT-4.1"@,
            OpenaiModel::Gpt41Mini => "GPT-4.1 Mini"@,
            OpenaiModel::Gpt41Nano => "GPT-4.1 Nano"@,
            OpenaiModel::Gpt4o => "GPT-4o"@,
            OpenaiModel::Gpt4oMini => "GPT-4o Mini"@,
        }
    }

    /// The model that answers to the given wire identifier, if any.
    pub open spec fn spec_of_wire(s: Seq<char>) -> Option<OpenaiModel> {
        if s == "o3"@ {
            Some(OpenaiModel::Gpto3)
        } else if s == "o3-pro"@ {
            Some(OpenaiModel::Gpto3Pro)
        } else if s == "o3-mini"@ {
            Some(OpenaiModel::Gpto3Mini)
        } else if s == "o4-mini"@ {
            Some(OpenaiModel::Gpto4Mini)
        } else if s == "gpt-5"@ {
            Some(OpenaiModel::Gpt5)
        } else if s == "gpt-5-mini"@ {
            Some(OpenaiModel::Gpt5Mini)
        } else if s == "gpt-5-nano"@ {
            Some(OpenaiModel::Gpt5Nano)
        } else if s == "gpt-5-chat-latest"@ {
            Some(OpenaiModel::Gpt5Chat)
        } else if s == "gpt-4.1"@ {
            Some(OpenaiModel::Gpt41)
        } else if s == "gpt-4.1-mini"@ {
            Some(OpenaiModel::Gpt41Mini)
        } else if s == "gpt-4.1-nano"@ {
            Some(OpenaiModel::Gpt41Nano)
        } else if s == "gpt-4o"@ {
            Some(OpenaiModel::Gpt4o)
        } else if s == "gpt-4o-mini"@ {
            Some(OpenaiModel::Gpt4oMini)
        } else {
            None
        }
    }

    /// The wire identifier of this model.
    pub fn as_str(&self) -> (r: &'static str)
        ensures
            r@ == self.spec_wire_id(),
    {
        match self {
            OpenaiModel::Gpto3 => "o3",
            OpenaiModel::Gpto3Pro => "o3-pro",
            OpenaiModel::Gpto3Mini => "o3-mini",
            OpenaiModel::Gpto4Mini => "o4-mini",
            OpenaiModel::Gpt5 => "gpt-5",
            OpenaiModel::Gpt5Mini => "gpt-5-mini",
            OpenaiModel::Gpt5Nano => "gpt-5-nano",
            OpenaiModel::Gpt5Chat => "gpt-5-chat-latest",
            OpenaiModel::Gpt41 => "gpt-4.1",
            OpenaiModel::Gpt41Mini => "gpt-4.1-mini",
            OpenaiModel::Gpt41Nano => "gpt-4.1-nano",
            OpenaiModel::Gpt4o => "gpt-4o",
            OpenaiModel::Gpt4oMini => "gpt-4o-mini",
        }
    }

    /// The identifier record of this model.
    pub fn model_id(&self) -> (r: ModelId)
        ensures
            r.id@ == self.spec_wire_id(),
            r.name@ == self.spec_display_name(),
    {
        let name: &'static str = match self {
            OpenaiModel::Gpto3 => "GPT-o3",
            OpenaiModel::Gpto3Pro => "GPT-o3 Pro",
            OpenaiModel::Gpto3Mini => "GPT-o3 Mini",
            OpenaiModel::Gpto4Mini => "GPT-o4 Mini",
            OpenaiModel::Gpt5 => "GPT-5",
            OpenaiModel::Gpt5Mini => "GPT-5 Mini",
            OpenaiModel::Gpt5Nano => "GPT-5 Nano",
            OpenaiModel::Gpt5Chat => "GPT-5 Chat",
            OpenaiModel::Gpt41 => "GPT-4.1",
            OpenaiModel::Gpt41Mini => "GPT-4.1 Mini",
            OpenaiModel::Gpt41Nano => "GPT-4.1 Nano",
            OpenaiModel::Gpt4o => "GPT-4o",
            OpenaiModel::Gpt4oMini => "GPT-4o Mini",
        };
        ModelId { id: self.as_str().to_owned(), name: name.to_owned() }
    }

    /// The model for a wire identifier, or `InvalidModelError` carrying that
    /// identifier when no model of the catalog answers to it.
    pub fn try_from_str(value: &str) -> (r: Result<OpenaiModel, Error>)
        ensures
            Self::spec_of_wire(value@) matches Some(m) ==> r == Ok::<OpenaiModel, Error>(m),
            Self::spec_of_wire(value@) is None ==> (r matches Err(Error::InvalidModelError(w))
                && w@ == value@),
    {
        if crate::strutil::str_eq(value, "o3") {
            Ok(OpenaiModel::Gpto3)
        } else if crate::strutil::str_eq(value, "o3-pro") {
            Ok(OpenaiModel::Gpto3Pro)
        } else if crate::strutil::str_eq(value, "o3-mini") {
            Ok(OpenaiModel::Gpto3Mini)
        } else if crate::strutil::str_eq(value, "o4-mini") {
            Ok(OpenaiModel::Gpto4Mini)
        } else if crate::strutil::str_eq(value, "gpt-5") {
            Ok(OpenaiModel::Gpt5)
        } else if crate::strutil::str_eq(value, "gpt-5-mini") {
            Ok(OpenaiModel::Gpt5Mini)
        } else if crate::strutil::str_eq(value, "gpt-5-nano") {
            Ok(OpenaiModel::Gpt5Nano)
        } else if crate::strutil::str_eq(value, "gpt-5-chat-latest") {
            Ok(OpenaiModel::Gpt5Chat)
        } else if crate::strutil::str_eq(value, "gpt-4.1") {
            Ok(OpenaiModel::Gpt41)
        } else if crate::strutil::str_eq(value, "gpt-4.1-mini") {
            Ok(OpenaiModel::Gpt41Mini)
        } else if crate::strutil::str_eq(value, "gpt-4.1-nano") {
            Ok(OpenaiModel::Gpt41Nano)
        } else if crate::strutil::str_eq(value, "gpt-4o") {
            Ok(OpenaiModel::Gpt4o)
        } else if crate::strutil::str_eq(value, "gpt-4o-mini") {
            Ok(OpenaiModel::Gpt4oMini)
        } else {
            Err(Error::InvalidModelError(value.to_owned()))
        }
    }

    /// The identifier records of the whole catalog, in declaration order.
    pub fn variants() -> (r: Vec<ModelId>)
        ensures
            r@.len() == 13,
            forall|i: int|
                0 <= i < 13 ==> #[trigger] r@[i].id@ == Self::spec_catalog()[i].spec_wire_id()
                    && r@[i].name@ == Self::spec_catalog()[i].spec_display_name(),
    {
        let mut r: Vec<ModelId> = Vec::new();
        r.push(OpenaiModel::Gpto3.model_id());
        r.push(OpenaiModel::Gpto3Pro.model_id());
        r.push(OpenaiModel::Gpto3Mini.model_id());
        r.push(OpenaiModel::Gpto4Mini.model_id());
        r.push(OpenaiModel::Gpt5.model_id());
        r.push(OpenaiModel::Gpt5Mini.model_id());
        r.push(OpenaiModel::Gpt5Nano.model_id());
        r.push(OpenaiModel::Gpt5Chat.model_id());
        r.push(OpenaiModel::Gpt41.model_id());
        r.push(OpenaiModel::Gpt41Mini.model_id());
        r.push(OpenaiModel::Gpt41Nano.model_id());
        r.push(OpenaiModel::Gpt4o.model_id());
        r.push(OpenaiModel::Gpt4oMini.model_id());
        r
    }

    /// The whole catalog, in declaration order.
    pub open spec fn spec_catalog() -> Seq<OpenaiModel> {
        seq![
            OpenaiModel::Gpto3,
            OpenaiModel::Gpto3Pro,
            OpenaiModel::Gpto3Mini,
            OpenaiModel::Gpto4Mini,
            OpenaiModel::Gpt5,
            OpenaiModel::Gpt5Mini,
            OpenaiModel::Gpt5Nano,
            OpenaiModel::Gpt5Chat,
            OpenaiModel::Gpt41,
            OpenaiModel::Gpt41Mini,
            OpenaiModel::Gpt41Nano,
            OpenaiModel::Gpt4o,
            OpenaiModel::Gpt4oMini,
        ]
    }
}

impl ProviderModel for OpenaiModel {
    open spec fn spec_narrow(m: AiModel) -> Option<OpenaiModel> {
        match m {
            AiModel::Openai(o) => Some(o),
            _ => None,
        }
    }

    fn from_model(m: &AiModel) -> (r: Option<OpenaiModel>) {
        match m {
            AiModel::Openai(o) => Some(*o),
            _ => None,
        }
    }
}

/// Wire identifiers are unique within the OpenAI catalog: two models with
/// the same identifier are the same model.
pub proof fn lemma_openai_ids_unique(a: OpenaiModel, b: OpenaiModel)
    ensures
        a.spec_wire_id() == b.spec_wire_id() ==> a == b,
{
    reveal_strlit("o3");
    reveal_strlit("o3-pro");
    reveal_strlit("o3-mini");
    reveal_strlit("o4-mini");
    reveal_strlit("gpt-5");
    reveal_strlit("gpt-5-mini");
    reveal_strlit("gpt-5-nano");
    reveal_strlit("gpt-5-chat-latest");
    reveal_strlit("gpt-4.1");
    reveal_strlit("gpt-4.1-mini");
    reveal_strlit("gpt-4.1-nano");
    reveal_strlit("gpt-4o");
    reveal_strlit("gpt-4o-mini");
    assert("o3"@.len() == 2);
    assert("o3-pro"@.len() == 6);
    assert("o3-mini"@.len() == 7);
    assert("o4-mini"@.len() == 7);
    assert("gpt-5"@.len() == 5);
    assert("gpt-5-mini"@.len() == 10);
    assert("gpt-5-nano"@.len() == 10);
    assert("gpt-5-chat-latest"@.len() == 17);
    assert("gpt-4.1"@.len() == 7);
    assert("gpt-4.1-mini"@.len() == 12);
    assert("gpt-4.1-nano"@.len() == 12);
    assert("gpt-4o"@.len() == 6);
    assert("gpt-4o-mini"@.len() == 11);
    assert("o3-mini"@[1] == '3');
    assert("o4-mini"@[1] == '4');
    assert("o3-mini"@[0] == 'o');
    assert("o4-mini"@[0] == 'o');
    assert("gpt-4.1"@[0] == 'g');
    assert("gpt-5-mini"@[6] == 'm');
    assert("gpt-5-nano"@[6] == 'n');
    assert("gpt-4.1-mini"@[8] == 'm');
    assert("gpt-4.1-nano"@[8] == 'n');
    assert("o3-pro"@[0] == 'o');
    assert("gpt-4o"@[0] == 'g');
}

/// One content item of an OpenAI output: a textual fragment with its kind
/// tag and annotations.
#[derive(Debug, Clone)]
pub struct Content {
    pub kind: String,
    pub text: String,
    pub annotations: Vec<String>,
}

/// One output item of an OpenAI response: either a content-bearing message
/// or a reasoning summary, which carries no text for normalization.
#[derive(Debug, Clone)]
pub enum Output {
    Content {
        kind: String,
        id: String,
        status: Option<String>,
        role: Option<String>,
        content: Vec<Content>,
    },
    Summary {
        id: String,
        kind: String,
    },
}

impl Default for Output {
    /// An empty content-bearing output item.
    fn default() -> (r: Output)
        ensures
            r matches Output::Content { kind, id, status, role, content } && kind@ == Seq::<
                char,
            >::empty() && id@ == Seq::<char>::empty() && status is None && role is None
                && content@.len() == 0,
    {
        Output::Content {
            kind: String::new(),
            id: String::new(),
            status: None,
            role: None,
            content: Vec::new(),
        }
    }
}

/// The reasoning settings echoed by an OpenAI response.
#[derive(Debug, Clone)]
pub struct Reasoning {
    pub effort: Option<String>,
    pub summary: Option<String>,
}

/// The text format tag of an OpenAI response.
#[derive(Debug, Clone)]
pub struct Format {
    pub kind: String,
}

/// The text settings echoed by an OpenAI response.
#[derive(Debug, Clone)]
pub struct Text {
    pub format: Format,
    pub verbosity: Option<String>,
}

/// Input-side usage detail.
#[derive(Debug, Clone)]
pub struct InputTokensDetails {
    pub cached_tokens: u64,
}

/// Output-side usage detail.
#[derive(Debug, Clone)]
pub struct OutputTokensDetails {
    pub reasoning_tokens: u64,
}

/// The usage block of an OpenAI response.
#[derive(Debug, Clone)]
pub struct Usage {
    pub input_tokens: u64,
    pub input_tokens_details: Option<InputTokensDetails>,
    pub output_tokens: u64,
    pub output_tokens_details: Option<OutputTokensDetails>,
    pub total_tokens: u64,
}

/// An OpenAI success body, reduced to what normalization reads.
#[derive(Debug, Clone)]
pub struct OpenaiResponse {
    pub id: String,
    pub object: String,
    pub created_at: u32,
    pub status: String,
    pub model: String,
    pub output: Vec<Output>,
    pub reasoning: Option<Reasoning>,
    pub text: Text,
    pub usage: Option<Usage>,
}

/// The textual fragments one output item contributes, in document order.
pub open spec fn spec_output_pieces(o: Output) -> Seq<Seq<char>> {
    match o {
        Output::Content { content, .. } => content@.map_values(|c: Content| c.text@),
        Output::Summary { .. } => Seq::<Seq<char>>::empty(),
    }
}

/// The textual fragments of a whole output list, in document order.
pub open spec fn spec_pieces(outs: Seq<Output>) -> Seq<Seq<char>> {
    concat_all(outs.map_values(|o: Output| spec_output_pieces(o)))
}

impl OpenaiResponse {
    /// The fragments of all content-bearing outputs, concatenated in
    /// document order.
    pub open spec fn spec_text(self) -> Seq<char> {
        concat_all(spec_pieces(self.output@))
    }

    /// Concatenates every textual fragment of the content-bearing
    /// outputs, in document order, without reordering, deduplication or
    /// separators; an empty or absent output yields the empty string.
    pub fn extract_text(&self) -> (r: String)
        ensures
            r@ == self.spec_text(),
    {
        let mut pieces: Vec<String> = Vec::new();
        let mut i: usize = 0;
        while i < self.output.len()
            invariant
                i <= self.output@.len(),
                crate::strutil::string_views(pieces@) == spec_pieces(
                    self.output@.subrange(0, i as int),
                ),
            decreases self.output@.len() - i,
        {
            let ghost outs = self.output@;
            let ghost views_before = crate::strutil::string_views(pieces@);
            match &self.output[i] {
                Output::Content { content, .. } => {
                    let mut j: usize = 0;
                    while j < content.len()
                        invariant
                            j <= content@.len(),
                            crate::strutil::string_views(pieces@) == views_before
                                + content@.subrange(0, j as int).map_values(|c: Content| c.text@),
                        decreases content@.len() - j,
                    {
                        let ghost pv = pieces@;
                        pieces.push(content[j].text.clone());
                        proof {
                            assert(content@.subrange(0, j + 1) =~= content@.subrange(
                                0,
                                j as int,
                            ).push(content@[j as int]));
                            assert(content@.subrange(0, j + 1).map_values(|c: Content| c.text@)
                                =~= content@.subrange(0, j as int).map_values(|c: Content| c.text@)
                                .push(content@[j as int].text@));
                            assert(pieces@ =~= pv.push(content@[j as int].text));
                            assert(crate::strutil::string_views(pieces@)
                                =~= crate::strutil::string_views(pv).push(
                                content@[j as int].text@,
                            ));
                            assert(crate::strutil::string_views(pieces@) =~= views_before
                                + content@.subrange(0, j + 1).map_values(|c: Content| c.text@));
                        }
                        j = j + 1;
                    }
                    proof {
                        assert(content@.subrange(0, content@.len() as int) =~= content@);
                        assert(crate::strutil::string_views(pieces@) == views_before
                            + spec_output_pieces(outs[i as int]));
                    }
                },
                Output::Summary { .. } => {
                    proof {
                        assert(spec_output_pieces(outs[i as int]) =~= Seq::<Seq<char>>::empty());
                        assert(crate::strutil::string_views(pieces@) =~= views_before
                            + spec_output_pieces(outs[i as int]));
                    }
                },
            }
            proof {
                assert(outs.subrange(0, i + 1) =~= outs.subrange(0, i as int).push(outs[i as int]));
                assert(outs.subrange(0, i + 1).map_values(|o: Output| spec_output_pieces(o))
                    =~= outs.subrange(0, i as int).map_values(|o: Output| spec_output_pieces(o))
                    .push(spec_output_pieces(outs[i as int])));
                lemma_concat_all_push(
                    outs.subrange(0, i as int).map_values(|o: Output| spec_output_pieces(o)),
                    spec_output_pieces(outs[i as int]),
                );
            }
            i = i + 1;
        }
        proof {
            assert(self.output@.subrange(0, self.output@.len() as int) =~= self.output@);
        }
        let ghost all_views = crate::strutil::string_views(pieces@);
        let mut out = String::new();
        let mut k: usize = 0;
        while k < pieces.len()
            invariant
                k <= pieces@.len(),
                crate::strutil::string_views(pieces@) == all_views,
                out@ == concat_all(all_views.subrange(0, k as int)),
            decreases pieces@.len() - k,
        {
            out.append(pieces[k].as_str());
            proof {
                assert(all_views.subrange(0, k + 1) =~= all_views.subrange(0, k as int).push(
                    all_views[k as int],
                ));
                assert(all_views[k as int] == pieces@[k as int]@);
                lemma_concat_all_push(all_views.subrange(0, k as int), all_views[k as int]);
                assert(out@ =~= concat_all(all_views.subrange(0, k + 1)));
            }
            k = k + 1;
        }
        proof {
            assert(all_views.subrange(0, all_views.len() as int) =~= all_views);
        }
        out
    }

    /// Normalizes this raw response: the concatenated text and the usage,
    /// absent where OpenAI did not report it.
    pub fn to_ai_response(&self) -> (r: AiResponse)
        ensures
            r.text@ == self.spec_text(),
            self.usage matches Some(u) ==> r.token_usage.input_tokens == Some(u.input_tokens)
                && r.token_usage.output_tokens == Some(u.output_tokens)
                && r.token_usage.total_tokens == Some(u.total_tokens),
            self.usage is None ==> r.token_usage.spec_is_absent(),
    {
        let token_usage = match &self.usage {
            Some(u) => TokenUsage {
                input_tokens: Some(u.input_tokens),
                output_tokens: Some(u.output_tokens),
                total_tokens: Some(u.total_tokens),
            },
            None => TokenUsage::absent(),
        };
        AiResponse { text: self.extract_text(), token_usage }
    }
}

/// A well-formed response with zero content fragments normalizes to the
/// empty string, never to an error.
pub proof fn lemma_openai_empty_fragments(r: OpenaiResponse)
    requires
        forall|i: int|
            0 <= i < r.output@.len() ==> #[trigger] spec_output_pieces(r.output@[i]).len() == 0,
    ensures
        r.spec_text() == Seq::<char>::empty(),
{
    let mapped = r.output@.map_values(|o: Output| spec_output_pieces(o));
    assert forall|i: int| 0 <= i < mapped.len() implies #[trigger] mapped[i].len() == 0 by {
        assert(spec_output_pieces(r.output@[i]).len() == 0);
    }
    lemma_concat_all_all_empty(mapped);
    assert(concat_all(Seq::<Seq<char>>::empty()) == Seq::<char>::empty());
}

/// The OpenAI responses endpoint.
pub fn base_url() -> (r: &'static str)
    ensures
        r@ == "https://api.openai.com/v1/responses"@,
{
    "https://api.openai.com/v1/responses"
}

/// Narrows the opaque model and, on success, plans one blocking request.
/// A foreign model fails here, before any network activity, with
/// `InvalidModelError` carrying the caller's wire identifier. OpenAI's
/// endpoint is a single URL, so the plan's path is empty.
pub fn plan_request(model: &AiModel, request: &AiRequest) -> (r: Result<RequestPlan, Error>)
    ensures
        OpenaiModel::spec_narrow(*model) is None ==> (r matches Err(Error::InvalidModelError(w))
            && w@ == model.spec_wire_id()),
        OpenaiModel::spec_narrow(*model) matches Some(m) ==> (r matches Ok(p) && p.path@
            == Seq::<char>::empty() && p.model@ == m.spec_wire_id() && p.text@ == request.text@ && p.stream
            == false),
{
    match model.downcast::<OpenaiModel>() {
        Some(m) => Ok(
            RequestPlan {
                path: String::new(),
                model: m.as_str().to_owned(),
                text: request.text.clone(),
                stream: false,
            },
        ),
        None => Err(Error::InvalidModelError(model.as_str().to_owned())),
    }
}

/// Maps the outcome of decoding one success body: a decoded body is
/// normalized, an undecodable one is a `ParseError` carrying the decoder's
/// detail.
pub fn decode_body(parsed: Result<OpenaiResponse, String>) -> (r: Result<AiResponse, Error>)
    ensures
        parsed matches Ok(o) ==> (r matches Ok(a) && a.text@ == o.spec_text() && (o.usage matches
        Some(u) ==> a.token_usage.input_tokens == Some(u.input_tokens)
            && a.token_usage.output_tokens == Some(u.output_tokens) && a.token_usage.total_tokens
            == Some(u.total_tokens)) && (o.usage is None ==> a.token_usage.spec_is_absent())),
        parsed matches Err(d) ==> r == Err::<AiResponse, Error>(Error::ParseError(d)),
{
    match parsed {
        Ok(o) => Ok(o.to_ai_response()),
        Err(d) => Err(Error::ParseError(d)),
    }
}

/// A streamed fragment of output text: an incremental delta or the
/// completed text of one content item.
#[derive(Debug, Clone)]
pub enum OutputText {
    Delta { kind: String, item_id: String, output_index: u64, content_index: u64, delta: String },
    Done { kind: String, item_id: String, output_index: u64, content_index: u64, text: String },
}

/// One part of a streamed content item.
#[derive(Debug, Clone)]
pub struct Part {
    pub kind: String,
    pub text: String,
}

/// Lifecycle of one content part on the stream.
#[derive(Debug, Clone)]
pub enum ContentPart {
    Added { kind: String, item_id: String, output_index: u64, content_index: u64, part: Part },
    Done { kind: String, item_id: u64, output_index: u64, content_index: u64, part: Part },
}

/// One output item as it appears on the stream.
#[derive(Debug, Clone)]
pub struct Item {
    pub id: String,
    pub kind: String,
    pub status: Option<String>,
    pub role: Option<String>,
    pub content: Option<Vec<Content>>,
}

/// Lifecycle of one output item on the stream.
#[derive(Debug, Clone)]
pub enum OutputItem {
    Added { kind: String, output_index: u64, item: Item },
    Done { kind: String, output_index: u64, item: Item },
}

/// One decoded streaming event of the OpenAI responses API: a
/// discriminated set of lifecycle, content and text-delta events.
#[derive(Debug, Clone)]
pub enum OpenaiStreamResponse {
    ResponseCreated {
        response: OpenaiResponse,
        sequence_number: u64,
    },
    ResponseInProgress {
        response: OpenaiResponse,
        sequence_number: u64,
    },
    ResponseCompleted {
        response: OpenaiResponse,
        sequence_number: u64,
    },
    OutputItemAdded {
        response_id: Option<String>,
        output_index: u64,
        item: Item,
        sequence_number: u64,
    },
    OutputItemDone {
        response_id: Option<String>,
        output_index: u64,
        item: Item,
        sequence_number: u64,
    },
    ContentPartAdded {
        response_id: Option<String>,
        item_id: String,
        output_index: u64,
        content_index: u64,
        sequence_number: u64,
    },
    ContentPartDone {
        response_id: Option<String>,
        item_id: String,
        output_index: u64,
        content_index: u64,
        part: Part,
        sequence_number: u64,
    },
    TextDelta {
        response_id: Option<String>,
        item_id: String,
        output_index: u64,
        content_index: u64,
        delta: String,
        sequence_number: u64,
    },
    TextDone {
        response_id: Option<String>,
        item_id: String,
        output_index: u64,
        content_index: u64,
        text: String,
        sequence_number: u64,
    },
    OutputTextDelta {
        response_id: Option<String>,
        item_id: String,
        output_index: u64,
        content_index: u64,
        delta: String,
        sequence_number: u64,
    },
    OutputTextDone {
        response_id: Option<String>,
        item_id: String,
        output_index: u64,
        content_index: u64,
        text: String,
        sequence_number: u64,
    },
}

/// Whether this event carries an incremental text delta.
pub open spec fn spec_is_delta(e: OpenaiStreamResponse) -> bool {
    ||| e matches OpenaiStreamResponse::TextDelta { .. }
    ||| e matches OpenaiStreamResponse::OutputTextDelta { .. }
}

/// Whether the decoded sequence yields an element for this event. Deltas
/// yield their text; the terminal completed event yields the usage; every
/// other kind is lifecycle bookkeeping and yields nothing.
pub open spec fn spec_event_yields(e: OpenaiStreamResponse) -> bool {
    ||| spec_is_delta(e)
    ||| e matches OpenaiStreamResponse::ResponseCompleted { .. }
}

/// The text the element yielded for this event carries: a delta's own
/// text, and the empty string for the completed event.
pub open spec fn spec_event_text(e: OpenaiStreamResponse) -> Seq<char> {
    match e {
        OpenaiStreamResponse::TextDelta { delta, .. } => delta@,
        OpenaiStreamResponse::OutputTextDelta { delta, .. } => delta@,
        _ => Seq::<char>::empty(),
    }
}

/// What deciding one decoded OpenAI event must produce: a delta yields
/// its fragment with absent usage, the completed event yields empty text
/// with the reported usage, and every other kind is skipped without
/// emitting an empty element.
pub open spec fn spec_step_of_event(e: OpenaiStreamResponse, r: StreamStep) -> bool {
    match e {
        OpenaiStreamResponse::TextDelta { delta, .. } => r matches StreamStep::Yield(a) && a.text@
            == delta@ && a.token_usage.spec_is_absent(),
        OpenaiStreamResponse::OutputTextDelta { delta, .. } => r matches StreamStep::Yield(a)
            && a.text@ == delta@ && a.token_usage.spec_is_absent(),
        OpenaiStreamResponse::ResponseCompleted { response, .. } => r matches StreamStep::Yield(a)
            && a.text@ == Seq::<char>::empty() && (match response.usage {
            Some(u) => a.token_usage.input_tokens == Some(u.input_tokens)
                && a.token_usage.output_tokens == Some(u.output_tokens)
                && a.token_usage.total_tokens == Some(u.total_tokens),
            None => a.token_usage.spec_is_absent(),
        }),
        _ => r is Skip,
    }
}

/// Decides one step of an OpenAI stream. Text deltas yield their fragment
/// with absent usage; the completed event yields empty text with the
/// reported usage; lifecycle events are skipped without emitting an empty
/// element. A broken transport and an undecodable payload are terminal:
/// dropped fragments would corrupt the concatenated answer.
pub fn stream_step(event: StreamEvent<OpenaiStreamResponse>) -> (r: StreamStep)
    ensures
        event matches StreamEvent::Decoded(e) ==> spec_step_of_event(e, r),
        event matches StreamEvent::Undecodable(d) ==> r == StreamStep::Terminal(
            Error::ParseError(d),
        ),
        event matches StreamEvent::Broken(d) ==> (r matches StreamStep::Terminal(
            Error::ProviderError { provider, error },
        ) && provider@ == "OpenAI"@ && error == d),
{
    match event {
        StreamEvent::Decoded(e) => match e {
            OpenaiStreamResponse::TextDelta { delta, .. } => StreamStep::Yield(
                AiResponse { text: delta, token_usage: TokenUsage::absent() },
            ),
            OpenaiStreamResponse::OutputTextDelta { delta, .. } => StreamStep::Yield(
                AiResponse { text: delta, token_usage: TokenUsage::absent() },
            ),
            OpenaiStreamResponse::ResponseCompleted { response, .. } => {
                let token_usage = match &response.usage {
                    Some(u) => TokenUsage {
                        input_tokens: Some(u.input_tokens),
                        output_tokens: Some(u.output_tokens),
                        total_tokens: Some(u.total_tokens),
                    },
                    None => TokenUsage::absent(),
                };
                StreamStep::Yield(AiResponse { text: String::new(), token_usage })
            },
            _ => StreamStep::Skip,
        },
        StreamEvent::Undecodable(d) => StreamStep::Terminal(Error::ParseError(d)),
        StreamEvent::Broken(d) => StreamStep::Terminal(
            Error::ProviderError { provider: "OpenAI".to_owned(), error: d },
        ),
    }
}

/// The texts of the elements the decoded sequence yields for `es`, in
/// receipt order.
pub open spec fn spec_yield_texts(es: Seq<OpenaiStreamResponse>) -> Seq<Seq<char>>
    decreases es.len(),
{
    if es.len() == 0 {
        Seq::<Seq<char>>::empty()
    } else {
        (if spec_event_yields(es.first()) {
            seq![spec_event_text(es.first())]
        } else {
            Seq::<Seq<char>>::empty()
        }) + spec_yield_texts(es.drop_first())
    }
}

/// The texts of the delta events among `es`, in receipt order: the content
/// the backend split across chunks.
pub open spec fn spec_delta_texts(es: Seq<OpenaiStreamResponse>) -> Seq<Seq<char>>
    decreases es.len(),
{
    if es.len() == 0 {
        Seq::<Seq<char>>::empty()
    } else {
        (if spec_is_delta(es.first()) {
            seq![spec_event_text(es.first())]
        } else {
            Seq::<Seq<char>>::empty()
        }) + spec_delta_texts(es.drop_first())
    }
}

/// Only delta events contribute to the concatenation: the completed
/// event's element carries the empty string and every other kind yields
/// nothing.
pub proof fn lemma_yield_concat_is_delta_concat(es: Seq<OpenaiStreamResponse>)
    ensures
        concat_all(spec_yield_texts(es)) == concat_all(spec_delta_texts(es)),
    decreases es.len(),
{
    if es.len() > 0 {
        lemma_yield_concat_is_delta_concat(es.drop_first());
        let hy: Seq<Seq<char>> = if spec_event_yields(es.first()) {
            seq![spec_event_text(es.first())]
        } else {
            Seq::<Seq<char>>::empty()
        };
        let hd: Seq<Seq<char>> = if spec_is_delta(es.first()) {
            seq![spec_event_text(es.first())]
        } else {
            Seq::<Seq<char>>::empty()
        };
        crate::strutil::lemma_concat_all_append(hy, spec_yield_texts(es.drop_first()));
        crate::strutil::lemma_concat_all_append(hd, spec_delta_texts(es.drop_first()));
        if spec_event_yields(es.first()) && !spec_is_delta(es.first()) {
            assert(spec_event_text(es.first()) =~= Seq::<char>::empty());
            assert(seq![spec_event_text(es.first())].drop_first() =~= Seq::<Seq<char>>::empty());
            assert(concat_all(hy) =~= spec_event_text(es.first()));
            assert(concat_all(hy) =~= concat_all(hd));
        } else {
            assert(concat_all(hy) =~= concat_all(hd));
        }
        assert(concat_all(spec_yield_texts(es)) =~= concat_all(spec_delta_texts(es)));
    }
}

/// Round trip between the two exchange styles: when the backend streams
/// the same content split across delta events that it returns whole in the
/// blocking body, concatenating every text the decoded sequence yields
/// reproduces exactly the text the blocking normalization produces.
pub proof fn lemma_openai_stream_round_trip(es: Seq<OpenaiStreamResponse>, whole: OpenaiResponse)
    requires
        concat_all(spec_delta_texts(es)) == whole.spec_text(),
    ensures
        concat_all(spec_yield_texts(es)) == whole.spec_text(),
{
    lemma_yield_concat_is_delta_concat(es);
}

/// Failures when assembling an OpenAI client from its configuration.
#[derive(Debug, Clone, PartialEq, Eq, Structural)]
pub enum OpenaiError {
    /// No HTTP client was provided.
    MissingClientError,
    /// No API key was provided.
    MissingApiKeyError,
}

impl OpenaiError {
    /// This configuration failure as a value of the shared taxonomy.
    pub fn to_error(&self) -> (r: Error)
        ensures
            r matches Error::ProviderError { provider, error } && provider@ == "OpenAI"@ && (match
                *self {
                OpenaiError::MissingApiKeyError => error@ == "Missing API Key"@,
                OpenaiError::MissingClientError => error@ == "Missing request::Client"@,
            }),
    {
        match self {
            OpenaiError::MissingApiKeyError => Error::ProviderError {
                provider: "OpenAI".to_owned(),
                error: "Missing API Key".to_owned(),
            },
            OpenaiError::MissingClientError => Error::ProviderError {
                provider: "OpenAI".to_owned(),
                error: "Missing request::Client".to_owned(),
            },
        }
    }
}

} // verus!
