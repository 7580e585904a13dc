//! The values that a feeder exchanges with the gateway that calls it.

use crate::text_map::TextMap;
use vstd::prelude::*;

verus! {

/// Why a request could not be answered.
#[derive(Debug, PartialEq, Eq)]
pub enum GatewayError {
    /// The same request may succeed later.
    Transient(String),
    /// The same request will not succeed.
    Permanent(String),
    /// There is no such record.
    NotFound,
    /// The feeder itself is not in order.
    Internal(String),
}

/// What a [`GatewayError`] says.
#[verifier::ext_equal]
pub enum ErrorView {
    Transient(Seq<char>),
    Permanent(Seq<char>),
    NotFound,
    Internal(Seq<char>),
}

impl View for GatewayError {
    type V = ErrorView;

    open spec fn view(&self) -> ErrorView {
        match self {
            GatewayError::Transient(m) => ErrorView::Transient(m@),
            GatewayError::Permanent(m) => ErrorView::Permanent(m@),
            GatewayError::NotFound => ErrorView::NotFound,
            GatewayError::Internal(m) => ErrorView::Internal(m@),
        }
    }
}

/// Why a plugin cannot be started.
#[derive(Debug, Clone, Copy, PartialEq, Eq)]
pub enum ConfigError {
    /// The plugin lacks a setting.
    MissingConfig { plugin: &'static str, what: &'static str },
}

/// How a plugin is doing.
#[derive(Debug, PartialEq, Eq)]
pub enum PluginHealth {
    Healthy,
    Degraded { reason: String },
}

/// What a [`PluginHealth`] says.
#[verifier::ext_equal]
pub enum HealthView {
    Healthy,
    Degraded(Seq<char>),
}

impl View for PluginHealth {
    type V = HealthView;

    open spec fn view(&self) -> HealthView {
        match self {
            PluginHealth::Healthy => HealthView::Healthy,
            PluginHealth::Degraded { reason } => HealthView::Degraded(reason@),
        }
    }
}

/// A search as the gateway states it: the values that each filtered key may have.
pub struct GatewayQuery {
    pub filters: TextMap<Vec<String>>,
}

/// A record of an upstream, with what is known of it.
pub struct DiscoveryRecord {
    pub upstream_id: String,
    pub record_id: String,
    pub fields: TextMap<String>,
}

/// What a [`DiscoveryRecord`] says.
#[verifier::ext_equal]
pub struct RecordView {
    pub upstream_id: Seq<char>,
    pub record_id: Seq<char>,
    pub fields: Map<Seq<char>, Seq<char>>,
}

impl View for DiscoveryRecord {
    type V = RecordView;

    open spec fn view(&self) -> RecordView {
        RecordView {
            upstream_id: self.upstream_id@,
            record_id: self.record_id@,
            fields: self.fields@,
        }
    }
}

/// What each of a list of records says.
pub open spec fn record_views(records: Seq<DiscoveryRecord>) -> Seq<RecordView> {
    records.map_values(|r: DiscoveryRecord| r@)
}

/// The first records, `max_results` at most.
pub open spec fn first_records(records: Seq<RecordView>, max_results: nat) -> Seq<RecordView> {
    if records.len() <= max_results {
        records
    } else {
        records.take(max_results as int)
    }
}

/// What the answer to a search says.
pub open spec fn answer_view(
    answer: Result<Vec<DiscoveryRecord>, GatewayError>,
) -> Result<Seq<RecordView>, ErrorView> {
    match answer {
        Ok(records) => Ok(record_views(records@)),
        Err(e) => Err(e@),
    }
}

/// A record whose bytes were fetched just now, named by the hash of their content.
pub struct FreshOutcome {
    pub hash: String,
    pub bytes: Vec<u8>,
    pub record: DiscoveryRecord,
    pub file_extension: Option<String>,
}

/// What a [`FreshOutcome`] says.
#[verifier::ext_equal]
pub struct FreshView {
    pub hash: Seq<char>,
    pub bytes: Seq<u8>,
    pub record: RecordView,
    pub file_extension: Option<Seq<char>>,
}

impl View for FreshOutcome {
    type V = FreshView;

    open spec fn view(&self) -> FreshView {
        FreshView {
            hash: self.hash@,
            bytes: self.bytes@,
            record: self.record@,
            file_extension: self.file_extension.deep_view(),
        }
    }
}

/// What a record came to.
pub enum HashOutcome {
    /// The cache knows the hash of the content. Nothing was fetched, so there are neither
    /// bytes nor a record.
    Cached { hash: String },
    /// The content was fetched and hashed.
    Fresh(FreshOutcome),
}

/// What a [`HashOutcome`] says.
#[verifier::ext_equal]
pub enum OutcomeView {
    Cached(Seq<char>),
    Fresh(FreshView),
}

impl View for HashOutcome {
    type V = OutcomeView;

    open spec fn view(&self) -> OutcomeView {
        match self {
            HashOutcome::Cached { hash } => OutcomeView::Cached(hash@),
            HashOutcome::Fresh(fresh) => OutcomeView::Fresh(fresh@),
        }
    }
}

impl OutcomeView {
    /// The hash of the content.
    pub open spec fn hash(self) -> Seq<char> {
        match self {
            OutcomeView::Cached(hash) => hash,
            OutcomeView::Fresh(fresh) => fresh.hash,
        }
    }

    /// The bytes of the content, where they were fetched.
    pub open spec fn bytes(self) -> Option<Seq<u8>> {
        match self {
            OutcomeView::Cached(_) => None,
            OutcomeView::Fresh(fresh) => Some(fresh.bytes),
        }
    }

    /// The record, where it was fetched.
    pub open spec fn record(self) -> Option<RecordView> {
        match self {
            OutcomeView::Cached(_) => None,
            OutcomeView::Fresh(fresh) => Some(fresh.record),
        }
    }
}

impl HashOutcome {
    /// The hash of the content.
    pub fn hash(&self) -> (r: &str)
        ensures
            r@ == self@.hash(),
    {
        match self {
            HashOutcome::Cached { hash } => hash.as_str(),
            HashOutcome::Fresh(fresh) => fresh.hash.as_str(),
        }
    }

    /// The bytes of the content, where they were fetched.
    pub fn bytes(&self) -> (r: Option<&Vec<u8>>)
        ensures
            r is Some <==> self@.bytes() is Some,
            r matches Some(bytes) ==> bytes@ == self@.bytes()->0,
    {
        match self {
            HashOutcome::Cached { .. } => None,
            HashOutcome::Fresh(fresh) => Some(&fresh.bytes),
        }
    }

    /// The record, where it was fetched.
    pub fn record(&self) -> (r: Option<&DiscoveryRecord>)
        ensures
            r is Some <==> self@.record() is Some,
            r matches Some(record) ==> record@ == self@.record()->0,
    {
        match self {
            HashOutcome::Cached { .. } => None,
            HashOutcome::Fresh(fresh) => Some(&fresh.record),
        }
    }
}

/// What asking the cache for the hash of a record came to: the hash, where the cache knows
/// one.
pub open spec fn lookup_view(looked_up: Result<Option<String>, GatewayError>) -> Result<
    Option<Seq<char>>,
    ErrorView,
> {
    match looked_up {
        Ok(known) => Ok(known.deep_view()),
        Err(e) => Err(e@),
    }
}

/// The hash that a cache knows of a record. A cache holds the hash of each record for which
/// one was put into it.
pub open spec fn known_hash(cache: Map<Seq<char>, Seq<char>>, record_id: Seq<char>) -> Option<
    Seq<char>,
> {
    if cache.contains_key(record_id) {
        Some(cache[record_id])
    } else {
        None
    }
}

/// What the work on a record came to.
pub open spec fn outcome_view(
    outcome: Result<HashOutcome, GatewayError>,
) -> Result<OutcomeView, ErrorView> {
    match outcome {
        Ok(o) => Ok(o@),
        Err(e) => Err(e@),
    }
}

/// How a request to an upstream went.
pub enum Exchange<T> {
    /// No response came; the text says why.
    SendFailed(String),
    /// The status of the response stands for this error.
    Refused(GatewayError),
    /// The response came, and its body could not be read; the text says why.
    Unreadable(String),
    /// The body of the response.
    Received(T),
}

/// What an [`Exchange`] says.
#[verifier::ext_equal]
pub enum ExchangeView<T> {
    SendFailed(Seq<char>),
    Refused(ErrorView),
    Unreadable(Seq<char>),
    Received(T),
}

impl<T> View for Exchange<T> {
    type V = ExchangeView<T>;

    open spec fn view(&self) -> ExchangeView<T> {
        match self {
            Exchange::SendFailed(cause) => ExchangeView::SendFailed(cause@),
            Exchange::Refused(e) => ExchangeView::Refused(e@),
            Exchange::Unreadable(cause) => ExchangeView::Unreadable(cause@),
            Exchange::Received(body) => ExchangeView::Received(*body),
        }
    }
}

/// The error for a request that got no response.
pub open spec fn send_error(url: Seq<char>, cause: Seq<char>) -> ErrorView {
    ErrorView::Transient("GET "@ + url + ": "@ + cause)
}

/// Makes the error for a request that got no response.
pub fn to_send_error(url: &str, cause: &str) -> (r: GatewayError)
    ensures
        r@ == send_error(url@, cause@),
{
    let mut m: String = "GET ".to_owned();
    m.append(url);
    m.append(": ");
    m.append(cause);
    GatewayError::Transient(m)
}

/// The key under which a record carries its identifier at an upstream: the name of
/// the upstream, then `id`.
pub fn upstream_id_field(upstream_id: &str) -> (r: String)
    ensures
        r@ == upstream_id@ + "id"@,
{
    let mut r: String = upstream_id.to_owned();
    r.append("id");
    r
}

/// The fields with one more of them where `value` is there, and unchanged where it
/// is not.
pub open spec fn with_field(
    fields: Map<Seq<char>, Seq<char>>,
    key: Seq<char>,
    value: Option<Seq<char>>,
) -> Map<Seq<char>, Seq<char>> {
    match value {
        Some(v) => fields.insert(key, v),
        None => fields,
    }
}

/// Adds a field where there is a value for it.
pub fn put_field(fields: &mut TextMap<String>, key: &str, value: Option<String>)
    ensures
        final(fields)@ == with_field(old(fields)@, key@, value.deep_view()),
{
    if let Some(v) = value {
        fields.insert(key.to_owned(), v);
    }
}

} // verus!
