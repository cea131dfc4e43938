use vstd::prelude::*;
use vstd::string::StringExecFns;

use crate::embedding::{EmbeddingError, EmbeddingModel};

verus! {

/// The endpoint of a local Ollama instance that computes embeddings.
pub const OLLAMA_EMBEDDINGS_URL: &'static str = "http://localhost:11434/api/embeddings";

/// The endpoint of the OpenAI API that computes embeddings.
pub const OPENAI_EMBEDDINGS_URL: &'static str = "https://api.openai.com/v1/embeddings";

/// The JSON string literal that `serde_json` writes for `s`, quotes and
/// escapes included.
pub uninterp spec fn json_string(s: Seq<char>) -> Seq<char>;

/// Relies on `serde_json::to_string` applied to a `str`: it writes the JSON
/// string literal of its argument. For a `str` the serializer only writes into
/// a `Vec<u8>`, which cannot fail, so the error arm is never taken.
#[verifier::external_body]
fn json_string_literal(s: &str) -> (r: String)
    ensures
        r@ == json_string(s@),
{
    serde_json::to_string(s).unwrap_or_default()
}

/// The JSON body of an embedding request: `{"model":<model>,"prompt":<prompt>}`.
pub open spec fn request_body(model: Seq<char>, prompt: Seq<char>) -> Seq<char> {
    "{\"model\":"@ + json_string(model) + ",\"prompt\":"@ + json_string(prompt) + "}"@
}

fn build_request_body(model: &str, prompt: &str) -> (r: String)
    ensures
        r@ == request_body(model@, prompt@),
{
    let mut body = String::new();
    body.append("{\"model\":");
    let model_literal = json_string_literal(model);
    body.append(model_literal.as_str());
    body.append(",\"prompt\":");
    let prompt_literal = json_string_literal(prompt);
    body.append(prompt_literal.as_str());
    body.append("}");
    body
}

/// What is sent to a provider: a JSON body posted to `url`, with a bearer
/// token where the provider asks for one.
pub struct EmbeddingRequest {
    pub url: String,
    pub authorization: Option<String>,
    pub body: String,
}

/// The name under which Ollama serves a model.
pub open spec fn ollama_model_name(model: EmbeddingModel) -> Seq<char> {
    match model {
        EmbeddingModel::OllamaNomicEmbedText => "nomic-embed-text"@,
        EmbeddingModel::OllamaMxbaiEmbedLarge => "mxbai-embed-large"@,
        _ => Seq::empty(),
    }
}

/// The name under which OpenAI serves a model.
pub open spec fn openai_model_name(model: EmbeddingModel) -> Seq<char> {
    match model {
        EmbeddingModel::OpenaiTextEmbedding3Small => "text-embedding-3-small"@,
        EmbeddingModel::OpenaiTextEmbedding3Large => "text-embedding-3-large"@,
        _ => Seq::empty(),
    }
}

/// Embeddings computed by a local Ollama instance.
pub struct OllamaEmbeddingProvider {
    pub model: EmbeddingModel,
}

impl OllamaEmbeddingProvider {
    pub fn new(model: EmbeddingModel) -> (r: Self)
        ensures
            r.model == model,
    {
        OllamaEmbeddingProvider { model }
    }

    /// The Ollama name of the configured model, or `UnsupportedModel` where
    /// Ollama does not serve it.
    pub fn model_name(&self) -> (r: Result<&'static str, EmbeddingError>)
        ensures
            self.model.is_ollama() ==> (r matches Ok(name) && name@ == ollama_model_name(self.model)),
            !self.model.is_ollama() ==> r == Err::<&'static str, EmbeddingError>(
                EmbeddingError::UnsupportedModel(self.model),
            ),
    {
        match self.model {
            EmbeddingModel::OllamaNomicEmbedText => Ok("nomic-embed-text"),
            EmbeddingModel::OllamaMxbaiEmbedLarge => Ok("mxbai-embed-large"),
            _ => Err(EmbeddingError::UnsupportedModel(self.model)),
        }
    }

    /// The request that asks Ollama to embed `text`. A model that Ollama does
    /// not serve is refused here, before anything is sent.
    pub fn request(&self, text: &str) -> (r: Result<EmbeddingRequest, EmbeddingError>)
        ensures
            self.model.is_ollama() ==> (r matches Ok(req) && req.url@ == OLLAMA_EMBEDDINGS_URL@
                && req.authorization is None && req.body@ == request_body(
                ollama_model_name(self.model),
                text@,
            )),
            !self.model.is_ollama() ==> r == Err::<EmbeddingRequest, EmbeddingError>(
                EmbeddingError::UnsupportedModel(self.model),
            ),
    {
        let name = match self.model_name() {
            Ok(name) => name,
            Err(e) => return Err(e),
        };
        let body = build_request_body(name, text);
        Ok(EmbeddingRequest { url: OLLAMA_EMBEDDINGS_URL.to_owned(), authorization: None, body })
    }
}

/// Embeddings computed by the OpenAI API.
pub struct OpenaiEmbeddingProvider {
    pub model: EmbeddingModel,
    pub api_key: String,
}

impl OpenaiEmbeddingProvider {
    pub fn new(model: EmbeddingModel, api_key: String) -> (r: Self)
        ensures
            r.model == model,
            r.api_key@ == api_key@,
    {
        OpenaiEmbeddingProvider { model, api_key }
    }

    /// The OpenAI name of the configured model, or `UnsupportedModel` where
    /// OpenAI does not serve it.
    pub fn model_name(&self) -> (r: Result<&'static str, EmbeddingError>)
        ensures
            self.model.is_openai() ==> (r matches Ok(name) && name@ == openai_model_name(self.model)),
            !self.model.is_openai() ==> r == Err::<&'static str, EmbeddingError>(
                EmbeddingError::UnsupportedModel(self.model),
            ),
    {
        match self.model {
            EmbeddingModel::OpenaiTextEmbedding3Small => Ok("text-embedding-3-small"),
            EmbeddingModel::OpenaiTextEmbedding3Large => Ok("text-embedding-3-large"),
            _ => Err(EmbeddingError::UnsupportedModel(self.model)),
        }
    }

    /// The API key as a bearer token.
    pub open spec fn bearer_token(&self) -> Seq<char> {
        "Bearer "@ + self.api_key@
    }

    /// The value of the `Authorization` header: the API key as a bearer token.
    pub fn authorization(&self) -> (r: String)
        ensures
            r@ == self.bearer_token(),
    {
        let mut header = String::new();
        header.append("Bearer ");
        header.append(self.api_key.as_str());
        header
    }

    /// The request that asks OpenAI to embed `text`. A model that OpenAI does
    /// not serve is refused here, before anything is sent.
    pub fn request(&self, text: &str) -> (r: Result<EmbeddingRequest, EmbeddingError>)
        ensures
            self.model.is_openai() ==> (r matches Ok(req) && req.url@ == OPENAI_EMBEDDINGS_URL@
                && (req.authorization matches Some(token) && token@ == self.bearer_token()) && req.body@ == request_body(openai_model_name(self.model), text@)),
            !self.model.is_openai() ==> r == Err::<EmbeddingRequest, EmbeddingError>(
                EmbeddingError::UnsupportedModel(self.model),
            ),
    {
        let name = match self.model_name() {
            Ok(name) => name,
            Err(e) => return Err(e),
        };
        let body = build_request_body(name, text);
        Ok(
            EmbeddingRequest {
                url: OPENAI_EMBEDDINGS_URL.to_owned(),
                authorization: Some(self.authorization()),
                body,
            },
        )
    }
}

/// The vector of the first record of an OpenAI response, or `EmptyResponse`
/// where the response holds none.
pub fn first_embedding<T>(data: Vec<Vec<T>>) -> (r: Result<Vec<T>, EmbeddingError>)
    ensures
        data@.len() == 0 ==> r == Err::<Vec<T>, EmbeddingError>(EmbeddingError::EmptyResponse),
        data@.len() > 0 ==> r == Ok::<Vec<T>, EmbeddingError>(data@[0]),
{
    let mut data = data;
    if data.len() == 0 {
        Err(EmbeddingError::EmptyResponse)
    } else {
        Ok(data.swap_remove(0))
    }
}

} // verus!
