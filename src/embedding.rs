use vstd::prelude::*;

verus! {

/// Ollama's embedding via nomic-embed-text is of length 768.
pub const EMBEDDING_SIZE_TINY: usize = 768;

/// Ollama's embedding via mxbai-embed-large is of length 1024.
pub const EMBEDDING_SIZE_XSMALL: usize = 1024;

/// OpenAI's text small embeddings are of length 1536.
pub const EMBEDDING_SIZE_SMALL: usize = 1536;

/// OpenAI's text large embeddings are of length 3072.
pub const EMBEDDING_SIZE_LARGE: usize = 3072;

/// A backend/model combination that produces embeddings of a fixed length.
#[derive(Clone, Copy, Debug, PartialEq, Eq, Structural)]
pub enum EmbeddingModel {
    OllamaNomicEmbedText,
    OllamaMxbaiEmbedLarge,
    OpenaiTextEmbedding3Small,
    OpenaiTextEmbedding3Large,
}

impl EmbeddingModel {
    /// The canonical dimension of the vectors this model produces.
    pub open spec fn spec_dimension(self) -> nat {
        match self {
            EmbeddingModel::OllamaNomicEmbedText => EMBEDDING_SIZE_TINY as nat,
            EmbeddingModel::OllamaMxbaiEmbedLarge => EMBEDDING_SIZE_XSMALL as nat,
            EmbeddingModel::OpenaiTextEmbedding3Small => EMBEDDING_SIZE_SMALL as nat,
            EmbeddingModel::OpenaiTextEmbedding3Large => EMBEDDING_SIZE_LARGE as nat,
        }
    }

    /// Whether the model is served by a local Ollama instance.
    pub open spec fn is_ollama(self) -> bool {
        self is OllamaNomicEmbedText || self is OllamaMxbaiEmbedLarge
    }

    /// Whether the model is served by the OpenAI API.
    pub open spec fn is_openai(self) -> bool {
        self is OpenaiTextEmbedding3Small || self is OpenaiTextEmbedding3Large
    }

    /// The single lookup of the canonical dimension of each model.
    pub fn dimension(self) -> (r: usize)
        ensures
            r == self.spec_dimension(),
    {
        match self {
            EmbeddingModel::OllamaNomicEmbedText => EMBEDDING_SIZE_TINY,
            EmbeddingModel::OllamaMxbaiEmbedLarge => EMBEDDING_SIZE_XSMALL,
            EmbeddingModel::OpenaiTextEmbedding3Small => EMBEDDING_SIZE_SMALL,
            EmbeddingModel::OpenaiTextEmbedding3Large => EMBEDDING_SIZE_LARGE,
        }
    }
}

/// Everything that can go wrong while producing an embedding.
#[derive(Clone, Debug, PartialEq, Eq)]
pub enum EmbeddingError {
    /// The request could not be delivered or its answer could not be read.
    TransportError(String),
    /// The response body was not the JSON document the provider promises.
    DecodeError(String),
    /// The provider does not serve the configured model.
    UnsupportedModel(EmbeddingModel),
    /// The vector's length is not the canonical dimension of its model.
    DimensionMismatch { expected: usize, actual: usize },
    /// The provider answered with no embedding at all.
    EmptyResponse,
}

/// A vector tagged with the model that produced it.
///
/// Its length is always the canonical dimension of its model: the only way to
/// build one is [`Embedding::bind`], which checks it.
#[derive(Debug)]
pub struct Embedding<T> {
    model: EmbeddingModel,
    values: Vec<T>,
}

impl<T> View for Embedding<T> {
    type V = (EmbeddingModel, Seq<T>);

    closed spec fn view(&self) -> (EmbeddingModel, Seq<T>) {
        (self.model, self.values@)
    }
}

impl<T> Embedding<T> {
    #[verifier::type_invariant]
    spec fn inv(self) -> bool {
        self.values@.len() == self.model.spec_dimension()
    }

    /// Tags `values` with `model`, or reports that its length is not the
    /// model's canonical dimension.
    pub fn bind(values: Vec<T>, model: EmbeddingModel) -> (r: Result<Embedding<T>, EmbeddingError>)
        ensures
            values@.len() == model.spec_dimension() ==> (r matches Ok(e) && e@ == (model, values@)),
            values@.len() != model.spec_dimension() ==> r == Err::<Embedding<T>, EmbeddingError>(
                EmbeddingError::DimensionMismatch {
                    expected: model.spec_dimension() as usize,
                    actual: values@.len() as usize,
                },
            ),
    {
        let expected = model.dimension();
        let actual = values.len();
        if actual == expected {
            Ok(Embedding { model, values })
        } else {
            Err(EmbeddingError::DimensionMismatch { expected, actual })
        }
    }

    /// The model that produced the vector.
    pub fn model(&self) -> (r: EmbeddingModel)
        ensures
            r == self@.0,
    {
        self.model
    }

    /// The vector itself, whose length is the model's canonical dimension.
    pub fn values(&self) -> (r: &Vec<T>)
        ensures
            r@ == self@.1,
            r@.len() == self@.0.spec_dimension(),
    {
        proof {
            use_type_invariant(self);
        }
        &self.values
    }

    /// Gives the vector up.
    pub fn into_values(self) -> (r: Vec<T>)
        ensures
            r@ == self@.1,
            r@.len() == self@.0.spec_dimension(),
    {
        proof {
            use_type_invariant(&self);
        }
        self.values
    }
}

} // verus!
