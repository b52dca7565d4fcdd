//! The completion client: generation parameters, the request they make with
//! a prompt, and the typed result.

use crate::error::ClientError;
use crate::number::{Float64, ONE_BITS, ZERO_BITS};
use crate::steerlm::{SteerLM, SteerLMView};
use crate::transport::API_URL;
use vstd::prelude::*;
use vstd::string::*;

verus! {

/// The parameters of a generation. Their ranges are not checked here: that
/// is left to the service.
#[derive(Debug, Clone, PartialEq, Eq)]
pub struct CompletionConfig {
    pub tokens_to_generate: Option<i64>,
    pub left_space_trim: bool,
    pub logprobs: bool,
    pub temperature: Float64,
    pub top_p: Float64,
    pub top_k: i64,
    pub stop: Vec<String>,
    pub random_seed: i64,
    pub repetition_penalty: Float64,
    pub beam_search_diversity_rate: Float64,
    pub beam_width: i64,
    pub length_penalty: Float64,
    pub guardrail: Option<String>,
    pub steer_lm: Option<SteerLM>,
}

/// The mathematical content of a [`CompletionConfig`]: its texts as sequences.
pub struct CompletionConfigView {
    pub tokens_to_generate: Option<i64>,
    pub left_space_trim: bool,
    pub logprobs: bool,
    pub temperature: Float64,
    pub top_p: Float64,
    pub top_k: i64,
    pub stop: Seq<Seq<char>>,
    pub random_seed: i64,
    pub repetition_penalty: Float64,
    pub beam_search_diversity_rate: Float64,
    pub beam_width: i64,
    pub length_penalty: Float64,
    pub guardrail: Option<Seq<char>>,
    pub steer_lm: Option<SteerLMView>,
}

impl View for CompletionConfig {
    type V = CompletionConfigView;

    open spec fn view(&self) -> CompletionConfigView {
        CompletionConfigView {
            tokens_to_generate: self.tokens_to_generate,
            left_space_trim: self.left_space_trim,
            logprobs: self.logprobs,
            temperature: self.temperature,
            top_p: self.top_p,
            top_k: self.top_k,
            stop: self.stop@.map_values(|s: String| s@),
            random_seed: self.random_seed,
            repetition_penalty: self.repetition_penalty,
            beam_search_diversity_rate: self.beam_search_diversity_rate,
            beam_width: self.beam_width,
            length_penalty: self.length_penalty,
            guardrail: match self.guardrail {
                Some(g) => Some(g@),
                None => None,
            },
            steer_lm: match self.steer_lm {
                Some(s) => Some(s@),
                None => None,
            },
        }
    }
}

/// Greedy, unconstrained generation: temperature, nucleus mass and
/// repetition penalty 1.0, one candidate, one beam, no penalties, no stop
/// sequences, and nothing optional set.
pub open spec fn default_config() -> CompletionConfigView {
    CompletionConfigView {
        tokens_to_generate: None,
        left_space_trim: true,
        logprobs: false,
        temperature: Float64 { bits: ONE_BITS },
        top_p: Float64 { bits: ONE_BITS },
        top_k: 1,
        stop: Seq::empty(),
        random_seed: 0,
        repetition_penalty: Float64 { bits: ONE_BITS },
        beam_search_diversity_rate: Float64 { bits: ZERO_BITS },
        beam_width: 1,
        length_penalty: Float64 { bits: ZERO_BITS },
        guardrail: None,
        steer_lm: None,
    }
}

impl Default for CompletionConfig {
    fn default() -> (config: CompletionConfig)
        ensures
            config@ == default_config(),
    {
        let config = CompletionConfig {
            stop: Vec::new(),
            tokens_to_generate: None,
            temperature: Float64::one(),
            top_k: 1,
            top_p: Float64::one(),
            random_seed: 0,
            beam_search_diversity_rate: Float64::zero(),
            beam_width: 1,
            repetition_penalty: Float64::one(),
            length_penalty: Float64::zero(),
            guardrail: None,
            left_space_trim: true,
            logprobs: false,
            steer_lm: None,
        };
        assert(config@.stop =~= Seq::empty());
        config
    }
}

/// The body of a completion call: a prompt, the generation parameters, and
/// what ties the call to knowledge bases.
#[derive(Debug, Clone, PartialEq, Eq)]
pub struct CompletionRequest {
    pub prompt: String,
    pub config: CompletionConfig,
    pub knowledge_base_ids: Vec<String>,
    pub citation_count: Option<i64>,
}

impl CompletionRequest {
    /// The request for `prompt` under `config`, tied to no knowledge base.
    pub fn new(prompt: String, config: CompletionConfig) -> (request: CompletionRequest)
        ensures
            request.prompt == prompt,
            request.config == config,
            request.knowledge_base_ids@ == Seq::<String>::empty(),
            request.citation_count is None,
    {
        CompletionRequest { prompt, config, knowledge_base_ids: Vec::new(), citation_count: None }
    }
}

/// A generated continuation, with its optional auxiliary scores.
#[derive(Debug, Clone, PartialEq, Eq)]
pub struct CompletionResponse {
    pub text: String,
    pub cumlogprobs: Float64,
    pub logprobs: Option<Vec<Float64>>,
    pub prompt_labels: Vec<ClassificationLabel>,
    pub completion_labels: Vec<ClassificationLabel>,
    pub completions: Option<Vec<_Completion>>,
    pub citations: Option<Vec<Citation>>,
}

/// A class and how strongly a text was found to belong to it.
#[derive(Debug, Clone, PartialEq, Eq)]
pub struct ClassificationLabel {
    pub class_name: String,
    pub score: Float64,
}

/// An alternative completion; the service sends none of its fields.
#[derive(Default, Debug, Clone, Copy, PartialEq, Eq, Structural)]
pub struct _Completion {
}

/// A passage of a knowledge base that a completion drew on.
#[derive(Default, Debug, Clone, PartialEq, Eq)]
pub struct Citation {
    pub chunk_id: String,
    pub feedback: Feedback,
    pub id: String,
    pub text: String,
    pub document_id: String,
    pub document_name: String,
    pub knowledge_base_id: String,
}

/// What a reader said of a citation.
#[derive(Default, Debug, Clone, PartialEq, Eq)]
pub struct Feedback {
    pub category: String,
    pub comment: String,
    pub suggestion: String,
    pub completion_id: String,
    pub citation_id: String,
    pub rating: i64,
    pub type_field: String,
}

/// The address of the completion call for `model`.
pub open spec fn completions_endpoint(model: Seq<char>) -> Seq<char> {
    API_URL@ + "/models/"@ + model + "/completions"@
}

/// A completion call, ready to be authenticated and sent.
#[derive(Debug, Clone, PartialEq, Eq)]
pub struct CompletionCall {
    pub endpoint: String,
    pub body: CompletionRequest,
    pub token: Option<String>,
}

/// A completion client: fixed generation parameters, a model, and
/// optionally the token to call it with.
#[derive(Debug, Clone, PartialEq, Eq)]
pub struct Completion {
    config: CompletionConfig,
    model: String,
    api_token: Option<String>,
}

impl Completion {
    /// The generation parameters this client completes with.
    pub closed spec fn spec_config(&self) -> CompletionConfig {
        self.config
    }

    /// The model this client calls.
    pub closed spec fn spec_model(&self) -> String {
        self.model
    }

    /// The token this client holds.
    pub closed spec fn spec_token(&self) -> Option<String> {
        self.api_token
    }

    /// Makes a client for `model`. This never fails.
    pub fn new(config: CompletionConfig, model: String, token: Option<String>) -> (r: Result<
        Completion,
        ClientError,
    >)
        ensures
            r matches Ok(c) && c.spec_config() == config && c.spec_model() == model
                && c.spec_token() == token,
    {
        Ok(Completion { config, model, api_token: token })
    }

    /// The same client, calling with `token` from now on.
    pub fn set_token(self, token: String) -> (updated: Completion)
        ensures
            updated.spec_config() == self.spec_config(),
            updated.spec_model() == self.spec_model(),
            updated.spec_token() == Some(token),
    {
        Completion { config: self.config, model: self.model, api_token: Some(token) }
    }

    /// The generation parameters this client completes with.
    pub fn config(&self) -> (config: &CompletionConfig)
        ensures
            *config == self.spec_config(),
    {
        &self.config
    }

    /// The model this client calls.
    pub fn model(&self) -> (model: &String)
        ensures
            *model == self.spec_model(),
    {
        &self.model
    }

    /// The token this client holds.
    pub fn token(&self) -> (token: &Option<String>)
        ensures
            *token == self.spec_token(),
    {
        &self.api_token
    }

    /// Merges the client's parameters with `prompt` into the call to make:
    /// where it goes, what it carries, and the token the client holds.
    pub fn prepare(self, prompt: String) -> (call: CompletionCall)
        ensures
            call.endpoint@ == completions_endpoint(self.spec_model()@),
            call.body.prompt == prompt,
            call.body.config == self.spec_config(),
            call.body.knowledge_base_ids@ == Seq::<String>::empty(),
            call.body.citation_count is None,
            call.token == self.spec_token(),
    {
        let mut endpoint = String::from_str(API_URL);
        endpoint.append("/models/");
        endpoint.append(self.model.as_str());
        endpoint.append("/completions");
        CompletionCall {
            endpoint,
            body: CompletionRequest::new(prompt, self.config),
            token: self.api_token,
        }
    }
}

} // verus!
