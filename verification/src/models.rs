//! The model catalog and the token counter: two read operations.

use crate::error::{ClientError, ClientErrorView, ConfigurationFault};
use crate::transport::{get, get_headers, post, post_headers, token_usable};
use crate::transport::{HttpRequest, HttpRequestView, Method, API_URL};
use vstd::prelude::*;
use vstd::string::*;

verus! {

/// The catalog as the service sends it.
#[derive(Default, Debug, Clone, PartialEq, Eq)]
pub struct Models {
    pub models: Vec<Model>,
}

/// What the service tells about one servable model.
#[derive(Default, Debug, Clone, PartialEq, Eq)]
pub struct Model {
    pub name: String,
    pub type_field: Option<String>,
    pub size: Option<i64>,
    pub context_size: i64,
    pub description: Option<String>,
    pub visibility: String,
    pub publisher: Option<String>,
    pub features: Features,
    pub deprecated: Option<Deprecated>,
    pub model_card: Option<bool>,
}

/// What a model can do.
#[derive(Default, Debug, Clone, Copy, PartialEq, Eq, Structural)]
pub struct Features {
    pub support_ptuning: Option<bool>,
    pub support_lora_tuning: Option<bool>,
    pub chat_compatible: Option<bool>,
    pub steer_lm: Option<bool>,
}

/// A deprecation notice: the model to use instead, and since when.
#[derive(Default, Debug, Clone, PartialEq, Eq)]
pub struct Deprecated {
    pub suggested_model: String,
    pub date: String,
}

/// The body of a token-count call.
#[derive(Default, Debug, Clone, PartialEq, Eq)]
pub struct CountPromptTokens {
    pub prompt: String,
    pub knowledge_base_ids: Option<Vec<String>>,
    pub citation_count: Option<i64>,
}

/// The answer to a token-count call.
#[derive(Default, Debug, Clone, Copy, PartialEq, Eq, Structural)]
pub struct CountResponse {
    pub input_length: i32,
}

/// The address of the catalog.
pub open spec fn models_endpoint() -> Seq<char> {
    API_URL@ + "/models"@
}

/// The address of the token counter of `model`.
pub open spec fn count_tokens_endpoint(model: Seq<char>) -> Seq<char> {
    API_URL@ + "/models/"@ + model + "/count_tokens"@
}

/// A token-count call, ready to be sent.
#[derive(Debug, Clone, PartialEq, Eq)]
pub struct CountCall {
    pub request: HttpRequest,
    pub body: CountPromptTokens,
}

impl Models {
    /// The models of the catalog, in the order in which they were listed.
    pub fn into_models(self) -> (models: Vec<Model>)
        ensures
            models == self.models,
    {
        self.models
    }
}

impl CountResponse {
    /// The number of tokens the prompt would consume.
    pub fn tokens(&self) -> (n: i32)
        ensures
            n == self.input_length,
    {
        self.input_length
    }
}

/// Builds the request that fetches the whole catalog, in one page.
pub fn list_models_request(token: &str) -> (r: Result<HttpRequest, ClientError>)
    ensures
        token_usable(token@) ==> (r matches Ok(req) && req@ == (HttpRequestView {
            method: Method::Get,
            url: models_endpoint(),
            headers: get_headers(token@),
        })),
        !token_usable(token@) ==> (r matches Err(e) && e@ == (ClientErrorView::Configuration {
            reason: ConfigurationFault::UnusableToken,
        })),
{
    let mut endpoint = String::from_str(API_URL);
    endpoint.append("/models");
    get(endpoint, token)
}

/// Builds the call that counts the tokens `prompt` would consume for
/// `model`. The prompt, the knowledge bases and the citation count are
/// relayed as they are.
pub fn count_prompt_tokens_request(
    prompt: String,
    model: &str,
    knowledge_base_ids: Option<Vec<String>>,
    citation_count: Option<i64>,
    token: &str,
) -> (r: Result<CountCall, ClientError>)
    ensures
        token_usable(token@) ==> (r matches Ok(call) && call.request@ == (HttpRequestView {
            method: Method::Post,
            url: count_tokens_endpoint(model@),
            headers: post_headers(token@),
        }) && call.body == (CountPromptTokens { prompt, knowledge_base_ids, citation_count })),
        !token_usable(token@) ==> (r matches Err(e) && e@ == (ClientErrorView::Configuration {
            reason: ConfigurationFault::UnusableToken,
        })),
{
    let mut endpoint = String::from_str(API_URL);
    endpoint.append("/models/");
    endpoint.append(model);
    endpoint.append("/count_tokens");
    match post(endpoint, token) {
        Ok(request) => Ok(
            CountCall {
                request,
                body: CountPromptTokens { prompt, knowledge_base_ids, citation_count },
            },
        ),
        Err(e) => Err(e),
    }
}

} // verus!
