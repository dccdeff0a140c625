//! Domain events published to the message bus.
//!
//! Every event carries headers for tracing (a correlation identifier that
//! is stable across one logical operation), audit metadata, and its domain
//! payload.

use vstd::prelude::*;
use vstd::string::StringExecFns;

use crate::models::source;

verus! {

/// The topic a requested source sync is announced on.
pub fn topic_source_sync_requested() -> (r: &'static str)
    ensures
        r@ == "source.sync.requested"@,
{
    "source.sync.requested"
}

/// The topic a completed source sync is announced on.
pub fn topic_source_sync_completed() -> (r: &'static str)
    ensures
        r@ == "source.sync.completed"@,
{
    "source.sync.completed"
}

/// The topic a failed source sync is announced on.
pub fn topic_source_sync_failed() -> (r: &'static str)
    ensures
        r@ == "source.sync.failed"@,
{
    "source.sync.failed"
}

/// Relies on uuid::Uuid::new_v4 and its hyphenated text form: a fresh
/// random identifier, written as 36 characters. Nothing else is promised
/// of a random value.
#[verifier::external_body]
pub(crate) fn new_uuid_string() -> (r: String)
    ensures
        r@.len() == 36,
{
    uuid::Uuid::new_v4().to_string()
}

/// Relies on std::time::SystemTime::now: the wall clock, as milliseconds
/// since the epoch. Nothing is promised of the value; a clock before the
/// epoch reads as zero.
#[verifier::external_body]
pub(crate) fn now_epoch_millis() -> u64 {
    std::time::SystemTime::now()
        .duration_since(std::time::UNIX_EPOCH)
        .map(|d| d.as_millis() as u64)
        .unwrap_or(0)
}

/// Source types for ingestion.
#[derive(Clone, Copy, Debug, PartialEq, Eq, Structural)]
pub enum SourceType {
    Github,
    Gitlab,
    Local,
    GoogleDrive,
    Notion,
    FileUpload,
}

/// The ingestion source type a platform source maps to; platform kinds the
/// pipeline has no reader for fall back to the local kind.
pub fn map_source_type(source_type: &source::SourceType) -> (r: SourceType)
    ensures
        r == (match source_type {
            source::SourceType::Github => SourceType::Github,
            source::SourceType::Gitlab => SourceType::Gitlab,
            source::SourceType::Gdrive => SourceType::GoogleDrive,
            source::SourceType::Notion => SourceType::Notion,
            source::SourceType::Upload => SourceType::FileUpload,
            _ => SourceType::Local,
        }),
{
    match source_type {
        source::SourceType::Github => SourceType::Github,
        source::SourceType::Gitlab => SourceType::Gitlab,
        source::SourceType::Gdrive => SourceType::GoogleDrive,
        source::SourceType::Notion => SourceType::Notion,
        source::SourceType::Upload => SourceType::FileUpload,
        _ => SourceType::Local,
    }
}

/// The address a sync event falls back to when the source records no
/// location of its own: a synthetic scheme around the source's identifier.
pub fn fallback_source_url(source_id: &str) -> (r: String)
    ensures
        r@ == "source://"@ + source_id@,
{
    let mut out = String::from_str("source://");
    out.append(source_id);
    out
}

/// Event headers for tracing and routing.
#[derive(Clone, Debug)]
pub struct EventHeaders {
    /// Stable across one logical operation; echoed to the caller.
    pub correlation_id: String,
    /// The event this one was caused by, when known.
    pub causation_id: Option<String>,
    /// The service that published the event.
    pub source_service: String,
    /// What kind of event this is.
    pub event_type: String,
    /// The version of the event shape.
    pub event_version: String,
    /// When the event was made, as epoch milliseconds.
    pub timestamp_ms: u64,
}

impl EventHeaders {
    /// Headers with a freshly coined correlation identifier.
    pub fn new(event_type: &str) -> (r: Self)
        ensures
            r.correlation_id@.len() == 36,
            r.causation_id is None,
            r.source_service@ == "api-backend"@,
            r.event_type@ == event_type@,
            r.event_version@ == "1.0"@,
    {
        EventHeaders {
            correlation_id: new_uuid_string(),
            causation_id: None,
            source_service: String::from_str("api-backend"),
            event_type: String::from_str(event_type),
            event_version: String::from_str("1.0"),
            timestamp_ms: now_epoch_millis(),
        }
    }

    /// Headers that keep the correlation identifier the operation already has.
    pub fn with_correlation(event_type: &str, correlation_id: String) -> (r: Self)
        ensures
            r.correlation_id@ == correlation_id@,
            r.causation_id is None,
            r.source_service@ == "api-backend"@,
            r.event_type@ == event_type@,
            r.event_version@ == "1.0"@,
    {
        EventHeaders {
            correlation_id,
            causation_id: None,
            source_service: String::from_str("api-backend"),
            event_type: String::from_str(event_type),
            event_version: String::from_str("1.0"),
            timestamp_ms: now_epoch_millis(),
        }
    }
}

/// Event metadata for auditing.
#[derive(Clone, Debug)]
pub struct EventMetadata {
    /// The user the operation acts for.
    pub user_id: Option<String>,
    /// The tenant the operation acts in.
    pub tenant_id: Option<String>,
    /// The inbound request the operation answers.
    pub request_id: Option<String>,
}

impl Default for EventMetadata {
    /// Metadata with nothing recorded.
    fn default() -> (r: Self)
        ensures
            r.user_id is None,
            r.tenant_id is None,
            r.request_id is None,
    {
        EventMetadata { user_id: None, tenant_id: None, request_id: None }
    }
}

/// Event published when a source sync is requested.
#[derive(Clone, Debug)]
pub struct SourceSyncRequestedEvent {
    /// Unique event identifier.
    pub event_id: String,
    /// Tracing and routing headers.
    pub headers: EventHeaders,
    /// Audit metadata.
    pub metadata: EventMetadata,
    /// Unique source identifier.
    pub source_id: String,
    /// Type of source.
    pub source_type: SourceType,
    /// URL or path to the source.
    pub source_url: String,
    /// Branch for git sources.
    pub branch: Option<String>,
    /// Access token (encrypted).
    pub access_token: Option<String>,
    /// Whether to force full resync.
    pub full_sync: bool,
}

impl SourceSyncRequestedEvent {
    /// A sync request for one source, with fresh identifiers and nothing
    /// optional set.
    pub fn new(source_id: String, source_type: SourceType, source_url: String) -> (r: Self)
        ensures
            r.event_id@.len() == 36,
            r.headers.event_type@ == "source.sync.requested"@,
            r.headers.correlation_id@.len() == 36,
            r.headers.causation_id is None,
            r.headers.source_service@ == "api-backend"@,
            r.headers.event_version@ == "1.0"@,
            r.metadata.user_id is None,
            r.metadata.tenant_id is None,
            r.metadata.request_id is None,
            r.source_id@ == source_id@,
            r.source_type == source_type,
            r.source_url@ == source_url@,
            r.branch is None,
            r.access_token is None,
            !r.full_sync,
    {
        SourceSyncRequestedEvent {
            event_id: new_uuid_string(),
            headers: EventHeaders::new("source.sync.requested"),
            metadata: EventMetadata::default(),
            source_id,
            source_type,
            source_url,
            branch: None,
            access_token: None,
            full_sync: false,
        }
    }

    /// The same event, attributed to a user.
    pub fn with_user(self, user_id: String) -> (r: Self)
        ensures
            r.metadata.user_id matches Some(u) && u@ == user_id@,
            r.metadata.tenant_id == self.metadata.tenant_id,
            r.metadata.request_id == self.metadata.request_id,
            r.event_id == self.event_id,
            r.headers == self.headers,
            r.source_id == self.source_id,
            r.source_type == self.source_type,
            r.source_url == self.source_url,
            r.branch == self.branch,
            r.access_token == self.access_token,
            r.full_sync == self.full_sync,
    {
        SourceSyncRequestedEvent {
            metadata: EventMetadata { user_id: Some(user_id), ..self.metadata },
            ..self
        }
    }

    /// The same event, for one branch of the source.
    pub fn with_branch(self, branch: String) -> (r: Self)
        ensures
            r.branch matches Some(b) && b@ == branch@,
            r.event_id == self.event_id,
            r.headers == self.headers,
            r.metadata == self.metadata,
            r.source_id == self.source_id,
            r.source_type == self.source_type,
            r.source_url == self.source_url,
            r.access_token == self.access_token,
            r.full_sync == self.full_sync,
    {
        SourceSyncRequestedEvent { branch: Some(branch), ..self }
    }

    /// The same event, carrying the access token the sync needs.
    pub fn with_token(self, token: String) -> (r: Self)
        ensures
            r.access_token matches Some(t) && t@ == token@,
            r.event_id == self.event_id,
            r.headers == self.headers,
            r.metadata == self.metadata,
            r.source_id == self.source_id,
            r.source_type == self.source_type,
            r.source_url == self.source_url,
            r.branch == self.branch,
            r.full_sync == self.full_sync,
    {
        SourceSyncRequestedEvent { access_token: Some(token), ..self }
    }

    /// The same event, asking for a full resync.
    pub fn with_full_sync(self) -> (r: Self)
        ensures
            r.full_sync,
            r.event_id == self.event_id,
            r.headers == self.headers,
            r.metadata == self.metadata,
            r.source_id == self.source_id,
            r.source_type == self.source_type,
            r.source_url == self.source_url,
            r.branch == self.branch,
            r.access_token == self.access_token,
    {
        SourceSyncRequestedEvent { full_sync: true, ..self }
    }

    /// The identifier under which the operation can be followed.
    pub fn correlation_id(&self) -> (r: &str)
        ensures
            r@ == self.headers.correlation_id@,
    {
        self.headers.correlation_id.as_str()
    }
}

/// Response returned to the client after a sync request was published.
#[derive(Clone, Debug)]
pub struct SyncRequestResponse {
    /// The identifier under which the operation can be followed.
    pub correlation_id: String,
    /// The published event's identifier.
    pub event_id: String,
    /// A status word for the caller.
    pub status: String,
    /// When the event was made, as epoch milliseconds.
    pub timestamp_ms: u64,
}

impl SyncRequestResponse {
    /// The response that announces a published sync request, carrying its
    /// correlation identifier so the caller can track the operation.
    pub fn from_event(event: &SourceSyncRequestedEvent) -> (r: Self)
        ensures
            r.correlation_id@ == event.headers.correlation_id@,
            r.event_id@ == event.event_id@,
            r.status@ == "sync_requested"@,
            r.timestamp_ms == event.headers.timestamp_ms,
    {
        SyncRequestResponse {
            correlation_id: event.headers.correlation_id.clone(),
            event_id: event.event_id.clone(),
            status: String::from_str("sync_requested"),
            timestamp_ms: event.headers.timestamp_ms,
        }
    }
}

} // verus!
