use semantic_index::provider::{
    first_embedding, OllamaEmbeddingProvider, OpenaiEmbeddingProvider, OLLAMA_EMBEDDINGS_URL,
    OPENAI_EMBEDDINGS_URL,
};
use semantic_index::{
    Embedding, EmbeddingError, EmbeddingModel, EMBEDDING_SIZE_LARGE, EMBEDDING_SIZE_SMALL,
    EMBEDDING_SIZE_TINY, EMBEDDING_SIZE_XSMALL,
};

#[test]
fn dimensions_of_models() {
    assert_eq!(EmbeddingModel::OllamaNomicEmbedText.dimension(), 768);
    assert_eq!(EmbeddingModel::OllamaMxbaiEmbedLarge.dimension(), 1024);
    assert_eq!(EmbeddingModel::OpenaiTextEmbedding3Small.dimension(), 1536);
    assert_eq!(EmbeddingModel::OpenaiTextEmbedding3Large.dimension(), 3072);
}

#[test]
fn bind_small_vector_to_small_model() {
    let values = vec![0.5f32; 1536];
    let embedding = Embedding::bind(values, EmbeddingModel::OpenaiTextEmbedding3Small).unwrap();
    assert_eq!(embedding.model(), EmbeddingModel::OpenaiTextEmbedding3Small);
    assert_eq!(embedding.values().len(), EMBEDDING_SIZE_SMALL);
    assert_eq!(embedding.into_values(), vec![0.5f32; 1536]);
}

#[test]
fn bind_small_vector_to_large_model_fails() {
    let values = vec![0.5f32; 1536];
    let err = Embedding::bind(values, EmbeddingModel::OpenaiTextEmbedding3Large).unwrap_err();
    assert_eq!(
        err,
        EmbeddingError::DimensionMismatch { expected: 3072, actual: 1536 }
    );
}

#[test]
fn bind_each_model_at_its_dimension() {
    let cases = [
        (EmbeddingModel::OllamaNomicEmbedText, EMBEDDING_SIZE_TINY),
        (EmbeddingModel::OllamaMxbaiEmbedLarge, EMBEDDING_SIZE_XSMALL),
        (EmbeddingModel::OpenaiTextEmbedding3Small, EMBEDDING_SIZE_SMALL),
        (EmbeddingModel::OpenaiTextEmbedding3Large, EMBEDDING_SIZE_LARGE),
    ];
    for (model, size) in cases {
        let embedding = Embedding::bind(vec![1u8; size], model).unwrap();
        assert_eq!(embedding.model(), model);
        assert_eq!(embedding.values().len(), size);
        let err = Embedding::bind(vec![1u8; size + 1], model).unwrap_err();
        assert_eq!(
            err,
            EmbeddingError::DimensionMismatch { expected: size, actual: size + 1 }
        );
    }
}

#[test]
fn bind_empty_vector_fails() {
    let err = Embedding::<f32>::bind(Vec::new(), EmbeddingModel::OllamaNomicEmbedText).unwrap_err();
    assert_eq!(err, EmbeddingError::DimensionMismatch { expected: 768, actual: 0 });
}

#[test]
fn ollama_refuses_openai_model_before_sending() {
    let provider = OllamaEmbeddingProvider::new(EmbeddingModel::OpenaiTextEmbedding3Small);
    let err = provider.request("Hello, world!").err().unwrap();
    assert_eq!(
        err,
        EmbeddingError::UnsupportedModel(EmbeddingModel::OpenaiTextEmbedding3Small)
    );
    assert_eq!(
        provider.model_name(),
        Err(EmbeddingError::UnsupportedModel(EmbeddingModel::OpenaiTextEmbedding3Small))
    );
}

#[test]
fn ollama_request_for_nomic() {
    let provider = OllamaEmbeddingProvider::new(EmbeddingModel::OllamaNomicEmbedText);
    let request = provider.request("Hello, world!").unwrap();
    assert_eq!(request.url, OLLAMA_EMBEDDINGS_URL);
    assert_eq!(request.url, "http://localhost:11434/api/embeddings");
    assert_eq!(request.authorization, None);
    assert_eq!(
        request.body,
        "{\"model\":\"nomic-embed-text\",\"prompt\":\"Hello, world!\"}"
    );
}

#[test]
fn ollama_request_for_mxbai_escapes_prompt() {
    let provider = OllamaEmbeddingProvider::new(EmbeddingModel::OllamaMxbaiEmbedLarge);
    let request = provider.request("say \"hi\"\n\\").unwrap();
    assert_eq!(
        request.body,
        "{\"model\":\"mxbai-embed-large\",\"prompt\":\"say \\\"hi\\\"\\n\\\\\"}"
    );
}

#[test]
fn openai_request_carries_bearer_token() {
    let provider = OpenaiEmbeddingProvider::new(
        EmbeddingModel::OpenaiTextEmbedding3Large,
        "SECRET-REDACTED".to_string(),
    );
    let request = provider.request("fn main() {}").unwrap();
    assert_eq!(request.url, OPENAI_EMBEDDINGS_URL);
    assert_eq!(request.authorization, Some("Bearer SECRET-REDACTED".to_string()));
    assert_eq!(
        request.body,
        "{\"model\":\"text-embedding-3-large\",\"prompt\":\"fn main() {}\"}"
    );
    assert_eq!(provider.model_name(), Ok("text-embedding-3-large"));
}

#[test]
fn openai_refuses_ollama_model() {
    let provider =
        OpenaiEmbeddingProvider::new(EmbeddingModel::OllamaNomicEmbedText, "key".to_string());
    assert_eq!(
        provider.request("text").err(),
        Some(EmbeddingError::UnsupportedModel(EmbeddingModel::OllamaNomicEmbedText))
    );
}

#[test]
fn first_embedding_of_empty_response() {
    let data: Vec<Vec<f32>> = Vec::new();
    assert_eq!(first_embedding(data), Err(EmbeddingError::EmptyResponse));
}

#[test]
fn first_embedding_takes_first_record() {
    let data = vec![vec![1.0f32, 2.0], vec![3.0f32]];
    assert_eq!(first_embedding(data), Ok(vec![1.0f32, 2.0]));
}
