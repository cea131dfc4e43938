//! Embedding generation support and semantic-search excerpt extraction.
//!
//! The verified core covers the model/dimension binding of embeddings, the
//! request framing of each embedding provider, the character-boundary safe
//! slicing of search hits into excerpts, the textual framing of excerpt
//! batches, and the small value types of the palette and typography views.
pub mod embedding;
pub mod excerpt;
pub mod palette;
pub mod provider;
pub mod typography;

pub use embedding::{
    Embedding, EmbeddingError, EmbeddingModel, EMBEDDING_SIZE_LARGE, EMBEDDING_SIZE_SMALL,
    EMBEDDING_SIZE_TINY, EMBEDDING_SIZE_XSMALL,
};
