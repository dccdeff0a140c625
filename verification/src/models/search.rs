//! Search-related models.

use vstd::prelude::*;

verus! {

/// Search request.
#[derive(Clone, Debug)]
pub struct SearchRequest {
    /// The query text.
    pub query: String,
    /// How many results to return at most.
    pub limit: u32,
    /// Result filters, when any apply.
    pub filters: Option<SearchFilters>,
    /// Search options, when any are set.
    pub options: Option<SearchOptions>,
}

/// The limit a search request falls back to when none is given.
pub fn default_limit() -> (r: u32)
    ensures
        r == 10,
{
    10
}

/// Search filters.
#[derive(Clone, Debug)]
pub struct SearchFilters {
    /// Restrict to these sources.
    pub sources: Option<Vec<String>>,
    /// Restrict to these entity types.
    pub types: Option<Vec<String>>,
    /// Restrict to these languages.
    pub languages: Option<Vec<String>>,
}

/// Search options.
#[derive(Clone, Debug)]
pub struct SearchOptions {
    /// Whether to widen results over the knowledge graph.
    pub include_graph: bool,
    /// How many relationship hops to follow.
    pub graph_hops: u32,
    /// Whether to rerank the results.
    pub rerank: bool,
}

/// The hop count graph widening falls back to when none is given.
pub fn default_graph_hops() -> (r: u32)
    ensures
        r == 2,
{
    2
}

/// Search result source info.
#[derive(Clone, Debug)]
pub struct SearchResultSource {
    /// The source's identifier.
    pub id: String,
    /// The source's kind.
    pub source_type: String,
    /// Where in the source the result lives.
    pub path: String,
}

/// Search result metadata.
#[derive(Clone, Debug)]
pub struct SearchResultMetadata {
    /// The language of the matched content.
    pub language: Option<String>,
    /// The kind of entity matched.
    pub entity_type: Option<String>,
    /// The name of the entity matched.
    pub entity_name: Option<String>,
}

/// Related entity in search results.
#[derive(Clone, Debug)]
pub struct RelatedEntity {
    /// The entity's identifier.
    pub id: String,
    /// The entity's kind.
    pub entity_type: String,
    /// The entity's name.
    pub name: String,
    /// The relationships it was reached through.
    pub relationships: Vec<String>,
}

/// Search statistics.
#[derive(Clone, Copy, Debug, PartialEq, Eq, Structural)]
pub struct SearchStats {
    /// How many results matched in all.
    pub total_results: u64,
    /// How long the search took, in milliseconds.
    pub search_time_ms: u64,
}

/// Entity source location.
#[derive(Clone, Debug)]
pub struct EntitySource {
    /// The path of the defining file.
    pub path: String,
    /// The first line of the definition.
    pub start_line: Option<u32>,
    /// The last line of the definition.
    pub end_line: Option<u32>,
}

/// Entity relationships.
#[derive(Clone, Debug)]
pub struct EntityRelationships {
    /// Entities that call this one.
    pub called_by: Option<Vec<String>>,
    /// Entities this one calls.
    pub calls: Option<Vec<String>>,
    /// The entity this one is contained in.
    pub contained_in: Option<String>,
    /// The entities this one contains.
    pub contains: Option<Vec<String>>,
}

} // verus!
