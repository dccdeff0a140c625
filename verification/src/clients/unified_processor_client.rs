//! Shapes spoken by the unified processing service.

use vstd::prelude::*;
use vstd::string::StringExecFns;

verus! {

/// Request for processing files.
#[derive(Clone, Debug)]
pub struct ProcessRequest {
    /// The source the files belong to.
    pub source_id: String,
    /// The files to process.
    pub files: Vec<String>,
    /// Inline content to process instead of files.
    pub content: Option<String>,
    /// The content's language, when known.
    pub language: Option<String>,
    /// The kind of source the content comes from.
    pub source_type: String,
    /// The repository the content comes from, when one does.
    pub repository_url: Option<String>,
}

/// The source type processing falls back to when none is given.
pub fn default_source_type() -> (r: String)
    ensures
        r@ == "local"@,
{
    String::from_str("local")
}

/// Request for chunking.
#[derive(Clone, Debug)]
pub struct ChunkRequest {
    /// The content to chunk.
    pub content: String,
    /// The content's language.
    pub language: String,
    /// How large one chunk may be.
    pub chunk_size: u32,
    /// How much neighbouring chunks overlap.
    pub chunk_overlap: u32,
}

/// The language chunking falls back to when none is given.
pub fn default_language() -> (r: String)
    ensures
        r@ == "python"@,
{
    String::from_str("python")
}

/// The chunk size chunking falls back to when none is given.
pub fn default_chunk_size() -> (r: u32)
    ensures
        r == 1000,
{
    1000
}

/// The overlap chunking falls back to when none is given.
pub fn default_chunk_overlap() -> (r: u32)
    ensures
        r == 300,
{
    300
}

/// Request for single text embedding.
#[derive(Clone, Debug)]
pub struct EmbedRequest {
    /// The text to embed.
    pub text: String,
    /// Whether the embedding may be cached.
    pub cache: bool,
}

/// The caching choice embedding falls back to when none is given.
pub fn default_cache() -> (r: bool)
    ensures
        r,
{
    true
}

/// Request for batch embedding.
#[derive(Clone, Debug)]
pub struct BatchEmbedRequest {
    /// The texts to embed.
    pub texts: Vec<String>,
    /// Whether the embeddings may be cached.
    pub cache: bool,
}

/// Request for semantic search.
#[derive(Clone, Debug)]
pub struct SearchRequest {
    /// The query text.
    pub query: String,
    /// How many results to return at most.
    pub top_k: u32,
    /// Result filters, when any apply.
    pub filters: Option<SearchFilters>,
    /// Whether to return the embeddings themselves.
    pub include_embeddings: bool,
}

/// The result count search falls back to when none is given.
pub fn default_top_k() -> (r: u32)
    ensures
        r == 10,
{
    10
}

/// Search filters.
#[derive(Clone, Debug)]
pub struct SearchFilters {
    /// Restrict to this language.
    pub language: Option<String>,
    /// Restrict to this content type.
    pub content_type: Option<String>,
    /// Restrict to this file name.
    pub filename: Option<String>,
    /// Restrict to this source.
    pub source_id: Option<String>,
}

/// Generic service response.
#[derive(Clone, Debug)]
pub struct ServiceResponse<T> {
    /// Whether the call went through.
    pub success: bool,
    /// The service's words about it.
    pub message: String,
    /// The answer, when there is one.
    pub data: Option<T>,
    /// The failure, when there is one.
    pub error: Option<String>,
}

/// Processed response data.
#[derive(Clone, Debug)]
pub struct ProcessedData {
    /// The source that was processed.
    pub source_id: String,
    /// How many files were processed.
    pub files_processed: u32,
    /// How many chunks were created.
    pub chunks_created: u32,
    /// The kind of source processed.
    pub source_type: String,
}

} // verus!
