//! What holds of the values that are exchanged with the gateway.

use crate::gateway::{
    answer_view, first_records, lookup_view, outcome_view, record_views, send_error, with_field,
    DiscoveryRecord, ErrorView, Exchange, ExchangeView, FreshOutcome, GatewayError, HashOutcome,
    HealthView, OutcomeView, PluginHealth, RecordView,
};
use vstd::prelude::*;

verus! {

/// Whether fields hold a value under a key, or no value where there is none.
pub open spec fn field_is(
    fields: Map<Seq<char>, Seq<char>>,
    key: Seq<char>,
    value: Option<Seq<char>>,
) -> bool {
    match value {
        Some(v) => fields.contains_key(key) && fields[key] == v,
        None => !fields.contains_key(key),
    }
}

/// A field that is added holds its value, and every other field stays as it was.
pub proof fn added_field_leaves_the_others(
    fields: Map<Seq<char>, Seq<char>>,
    key: Seq<char>,
    value: Option<Seq<char>>,
    other: Seq<char>,
)
    ensures
        value is Some ==> field_is(with_field(fields, key, value), key, value),
        value is None || other != key ==> with_field(fields, key, value).contains_key(other)
            == fields.contains_key(other),
        (value is None || other != key) && fields.contains_key(other) ==> with_field(
            fields,
            key,
            value,
        )[other] == fields[other],
{
}

/// The first records are the beginning of the records: all of them where no more are there
/// than were asked for, and as many as were asked for where more are there.
pub proof fn first_records_are_the_beginning(records: Seq<RecordView>, max_results: nat)
    ensures
        first_records(records, max_results).len() == (if records.len() < max_results {
            records.len()
        } else {
            max_results
        }),
        forall|i: int|
            0 <= i < first_records(records, max_results).len() ==> #[trigger] first_records(
                records,
                max_results,
            )[i] == records[i],
{
}

/// A request that got no response is an error that may pass, and its text names the address
/// and the cause.
pub proof fn failed_request_may_succeed_later(url: Seq<char>, cause: Seq<char>)
    ensures
        send_error(url, cause) == ErrorView::Transient("GET "@ + url + ": "@ + cause),
{
}

/// What an error is seen as is its kind with its text.
pub proof fn errors_are_seen_as_they_are(text: String)
    ensures
        GatewayError::Transient(text)@ == ErrorView::Transient(text@),
        GatewayError::Permanent(text)@ == ErrorView::Permanent(text@),
        GatewayError::NotFound@ == ErrorView::NotFound,
        GatewayError::Internal(text)@ == ErrorView::Internal(text@),
        PluginHealth::Healthy@ == HealthView::Healthy,
        (PluginHealth::Degraded { reason: text })@ == HealthView::Degraded(text@),
{
}

/// What an exchange is seen as is how it went, with all that came of it.
pub proof fn exchanges_are_seen_as_they_are<T>(text: String, error: GatewayError, body: T)
    ensures
        Exchange::<T>::SendFailed(text)@ == ExchangeView::<T>::SendFailed(text@),
        Exchange::<T>::Refused(error)@ == ExchangeView::<T>::Refused(error@),
        Exchange::<T>::Unreadable(text)@ == ExchangeView::<T>::Unreadable(text@),
        Exchange::<T>::Received(body)@ == ExchangeView::<T>::Received(body),
{
}

/// What an answer is seen as is each of its records, in order, with each of their parts, or
/// its error.
pub proof fn answers_are_seen_as_they_are(records: Vec<DiscoveryRecord>, error: GatewayError)
    ensures
        answer_view(Err(error)) == Err::<Seq<RecordView>, ErrorView>(error@),
        answer_view(Ok(records)) matches Ok(seen) && seen.len() == records@.len() && forall|i: int|
            #![trigger seen[i]]
            0 <= i < seen.len() ==> seen[i].upstream_id == records@[i].upstream_id@
                && seen[i].record_id == records@[i].record_id@ && seen[i].fields
                == records@[i].fields@,
        record_views(records@).len() == records@.len(),
{
}

/// What an outcome is seen as is each of its parts, or its error.
pub proof fn outcomes_are_seen_as_they_are(fresh: FreshOutcome, hash: String, error: GatewayError)
    ensures
        outcome_view(Err(error)) == Err::<OutcomeView, ErrorView>(error@),
        outcome_view(Ok(HashOutcome::Cached { hash })) == Ok::<OutcomeView, ErrorView>(
            OutcomeView::Cached(hash@),
        ),
        outcome_view(Ok(HashOutcome::Fresh(fresh))) matches Ok(OutcomeView::Fresh(seen))
            && seen.hash == fresh.hash@ && seen.bytes == fresh.bytes@ && seen.record
            == fresh.record@ && (match fresh.file_extension {
            Some(ext) => seen.file_extension == Some(ext@),
            None => seen.file_extension is None,
        }),
        lookup_view(Err(error)) == Err::<Option<Seq<char>>, ErrorView>(error@),
        lookup_view(Ok(Some(hash))) == Ok::<Option<Seq<char>>, ErrorView>(Some(hash@)),
        lookup_view(Ok(None)) == Ok::<Option<Seq<char>>, ErrorView>(None),
{
}

/// An outcome of the cache is its hash alone, and a fresh one has its hash, its bytes and its
/// record.
pub proof fn outcomes_have_their_parts(outcome: OutcomeView)
    ensures
        outcome matches OutcomeView::Cached(hash) ==> outcome.hash() == hash && outcome.bytes() is None
            && outcome.record() is None,
        outcome matches OutcomeView::Fresh(fresh) ==> outcome.hash() == fresh.hash
            && outcome.bytes() == Some(fresh.bytes) && outcome.record() == Some(fresh.record),
{
}

} // verus!
