//! Shapes spoken by the temporal knowledge-graph service.

use vstd::prelude::*;
use vstd::string::StringExecFns;

verus! {

/// Request for building relationships.
#[derive(Clone, Debug)]
pub struct BuildRelationshipsRequest {
    /// The source whose relationships to build.
    pub source_id: String,
    /// Whether to rebuild from scratch.
    pub force_rebuild: bool,
}

/// Request for temporal search.
#[derive(Clone, Debug)]
pub struct TemporalSearchRequest {
    /// The query text.
    pub query: String,
    /// The instant to search at, when not now.
    pub timestamp: Option<String>,
    /// How many results to return at most.
    pub limit: u32,
    /// Whether to include nodes in the answer.
    pub include_nodes: bool,
    /// Whether to include edges in the answer.
    pub include_edges: bool,
}

/// The limit a temporal search falls back to when none is given.
pub fn default_limit() -> (r: u32)
    ensures
        r == 10,
{
    10
}

/// The edge inclusion a temporal search falls back to when none is given.
pub fn default_true() -> (r: bool)
    ensures
        r,
{
    true
}

/// Request for entity evolution.
#[derive(Clone, Debug)]
pub struct EntityEvolutionRequest {
    /// The entity whose history to read.
    pub entity_name: String,
    /// The start of the window, when bounded.
    pub start_time: Option<String>,
    /// The end of the window, when bounded.
    pub end_time: Option<String>,
}

/// The episode type an addition falls back to when none is given.
pub fn default_episode_type() -> (r: String)
    ensures
        r@ == "text"@,
{
    String::from_str("text")
}

/// Generic service response.
#[derive(Clone, Debug)]
pub struct GraphServiceResponse<T> {
    /// Whether the call went through.
    pub success: bool,
    /// The service's words about it.
    pub message: String,
    /// The answer, when there is one.
    pub data: Option<T>,
    /// The failure, when there is one.
    pub error: Option<String>,
}

/// Build relationships response data.
#[derive(Clone, Debug)]
pub struct BuildResponseData {
    /// The source whose relationships were built.
    pub source_id: String,
    /// How many chunks were found.
    pub chunks_found: u32,
    /// How many episodes were added.
    pub episodes_added: u32,
    /// What went wrong along the way.
    pub errors: Vec<String>,
}

/// Edge or fact from the graph.
#[derive(Clone, Debug)]
pub struct Edge {
    /// The edge's identifier.
    pub uuid: String,
    /// The fact it states.
    pub fact: String,
    /// Since when it holds.
    pub valid_at: Option<String>,
    /// Until when it held.
    pub invalid_at: Option<String>,
    /// The node it leaves.
    pub source_node_uuid: Option<String>,
    /// The node it reaches.
    pub target_node_uuid: Option<String>,
}

/// Node from the graph.
#[derive(Clone, Debug)]
pub struct Node {
    /// The node's identifier.
    pub uuid: String,
    /// The node's name.
    pub name: String,
    /// A summary of what it stands for.
    pub summary: String,
    /// The labels it carries.
    pub labels: Vec<String>,
    /// When it was created.
    pub created_at: Option<String>,
}

/// Temporal search response data.
#[derive(Clone, Debug)]
pub struct TemporalSearchData {
    /// The query answered.
    pub query: String,
    /// The instant searched at.
    pub timestamp: String,
    /// The matching edges.
    pub edges: Vec<Edge>,
    /// How many edges matched.
    pub edge_count: u32,
    /// The matching nodes.
    pub nodes: Vec<Node>,
    /// How many nodes matched.
    pub node_count: u32,
}

/// Evolution record.
#[derive(Clone, Debug)]
pub struct EvolutionRecord {
    /// The record's identifier.
    pub uuid: String,
    /// The fact it states.
    pub fact: String,
    /// Since when it held.
    pub valid_from: Option<String>,
    /// Until when it held.
    pub valid_until: Option<String>,
    /// Whether it still holds.
    pub is_current: bool,
}

/// Entity evolution response data.
#[derive(Clone, Debug)]
pub struct EntityEvolutionData {
    /// The entity whose history this is.
    pub entity: String,
    /// The facts that hold now.
    pub current_state: Vec<EvolutionRecord>,
    /// The facts that held before.
    pub historical: Vec<EvolutionRecord>,
    /// How many records there are in all.
    pub total_records: u32,
}

/// Episode added response data.
#[derive(Clone, Debug)]
pub struct EpisodeAddedData {
    /// The episode's name.
    pub name: String,
    /// The episode's type.
    pub episode_type: String,
    /// The instant it refers to.
    pub reference_time: String,
}

} // verus!
