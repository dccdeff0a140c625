//! Source-related models.

use vstd::prelude::*;

verus! {

/// Source types supported by the platform.
#[derive(Clone, Copy, Debug, PartialEq, Eq, Structural)]
pub enum SourceType {
    Github,
    Gitlab,
    Bitbucket,
    Gdrive,
    Dropbox,
    LocalFs,
    Notion,
    Confluence,
    Slack,
    Jira,
    Linear,
    Upload,
}

/// Source status.
#[derive(Clone, Copy, Debug, PartialEq, Eq, Structural)]
pub enum SourceStatus {
    Pending,
    Syncing,
    Synced,
    Failed,
    Disconnected,
}

/// Data source representation.
#[derive(Clone, Debug)]
pub struct Source {
    /// The source's identifier.
    pub id: String,
    /// The source's kind.
    pub source_type: SourceType,
    /// The source's display name.
    pub name: String,
    /// Where the source stands in its sync lifecycle.
    pub status: SourceStatus,
    /// When it last synced, if it has.
    pub last_sync: Option<String>,
    /// Its content statistics, when known.
    pub stats: Option<SourceStats>,
}

/// Source statistics.
#[derive(Clone, Copy, Debug, PartialEq, Eq, Structural)]
pub struct SourceStats {
    /// Files the source holds.
    pub files: u64,
    /// Chunks extracted from it.
    pub chunks: u64,
    /// Entities recognised in it.
    pub entities: u64,
}

/// Sync job.
#[derive(Clone, Debug)]
pub struct SyncJob {
    /// The job's identifier.
    pub job_id: String,
    /// Where the job stands.
    pub status: JobStatus,
    /// A rough time estimate, when one is known.
    pub estimated_time: Option<String>,
}

/// Job status.
#[derive(Clone, Copy, Debug, PartialEq, Eq, Structural)]
pub enum JobStatus {
    Queued,
    Running,
    Completed,
    Failed,
    Cancelled,
}

} // verus!
