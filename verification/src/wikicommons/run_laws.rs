//! What holds of every search of Commons and of all work on its records, whatever
//! comes in from outside.

use crate::gateway::{
    first_records, known_hash, ErrorView, ExchangeView, FreshView, OutcomeView, RecordView,
};
use crate::text::without_trailing;
use crate::wikicommons::compute::{
    compute_next, compute_start, found_page, oversized, ComputeEventView,
    ComputeView,
};
use crate::wikicommons::page_laws::ranked_pages_are_the_pages_by_rank;
use crate::wikicommons::pages::{ordered_pages, rank, MediawikiPage, MediawikiResponse};
use crate::wikicommons::query::{
    query_next, query_start, search_text, QueryEventView, QueryView,
};
use crate::wikicommons::record::{all_search_records, file_info, page_record, search_record};
use crate::wikicommons::record_laws::results_keep_the_order_of_the_pages;
use crate::wikicommons::title::extension;
use crate::wikicommons::{api_address, page_address, search_address, MAX_FILE_BYTES};
use vstd::prelude::*;

verus! {

/// Where a search has come to after a number of events.
pub open spec fn query_run(
    base_url: Seq<char>,
    max_results: nat,
    start: QueryView,
    events: Seq<QueryEventView>,
) -> QueryView
    decreases events.len(),
{
    if events.len() == 0 {
        start
    } else {
        query_next(
            base_url,
            max_results,
            query_run(base_url, max_results, start, events.drop_last()),
            events.last(),
        )
    }
}

/// Where the work on a record has come to after a number of events.
pub open spec fn compute_run(
    base_url: Seq<char>,
    record_id: Seq<char>,
    start: ComputeView,
    events: Seq<ComputeEventView>,
) -> ComputeView
    decreases events.len(),
{
    if events.len() == 0 {
        start
    } else {
        compute_next(
            base_url,
            record_id,
            compute_run(base_url, record_id, start, events.drop_last()),
            events.last(),
        )
    }
}

/// A query that the plugin cannot serve is answered with no records, and nothing is
/// ever asked of Commons for it.
pub proof fn unserved_query_asks_nothing(
    base_url: Seq<char>,
    max_results: nat,
    free_text: Seq<char>,
    filters: Map<Seq<char>, Seq<Seq<char>>>,
    events: Seq<QueryEventView>,
)
    ensures
        query_run(base_url, max_results, query_start(false, free_text, filters), events)
            == QueryView::Done(Ok(seq![])),
    decreases events.len(),
{
    if events.len() > 0 {
        unserved_query_asks_nothing(base_url, max_results, free_text, filters, events.drop_last());
    }
}

/// A served query asks for its text to be encoded, then asks Commons once, and answers
/// with the first records of the pages found, the most relevant first.
pub proof fn served_query_answers_with_the_records_found(
    base_url: Seq<char>,
    max_results: nat,
    free_text: Seq<char>,
    filters: Map<Seq<char>, Seq<Seq<char>>>,
    encoded: Seq<char>,
    response: MediawikiResponse,
)
    ensures
        query_start(true, free_text, filters) == QueryView::Encode(
            search_text(free_text, filters),
        ),
        query_run(
            base_url,
            max_results,
            query_start(true, free_text, filters),
            seq![QueryEventView::Encoded(encoded)],
        ) == QueryView::Search(search_address(base_url, encoded, max_results)),
        query_run(
            base_url,
            max_results,
            query_start(true, free_text, filters),
            seq![
                QueryEventView::Encoded(encoded),
                QueryEventView::Answered(ExchangeView::Received(response)),
            ],
        ) == QueryView::Done(
            Ok(first_records(all_search_records(ordered_pages(response)), max_results)),
        ),
{
    reveal_with_fuel(query_run, 3);
    let e1 = QueryEventView::Encoded(encoded);
    let e2 = QueryEventView::Answered(ExchangeView::Received(response));
    assert(seq![e1].drop_last() =~= seq![]);
    assert(seq![e1, e2].drop_last() =~= seq![e1]);
}

/// The records of an answer come in the order of relevance: of two of them, the page of the
/// first has no worse rank than that of the second.
pub proof fn records_come_in_the_order_of_relevance(
    response: MediawikiResponse,
    max_results: nat,
    i: int,
    j: int,
)
    requires
        0 <= i < j < first_records(
            all_search_records(ordered_pages(response)),
            max_results,
        ).len(),
    ensures
        exists|a: MediawikiPage, b: MediawikiPage|
            rank(a) <= rank(b) && #[trigger] search_record(a) == Some(
                first_records(all_search_records(ordered_pages(response)), max_results)[i],
            ) && #[trigger] search_record(b) == Some(
                first_records(all_search_records(ordered_pages(response)), max_results)[j],
            ),
{
    let pages = ordered_pages(response);
    let out = first_records(all_search_records(pages), max_results);
    results_keep_the_order_of_the_pages(pages, max_results, i, j);
    let (p, q) = choose|p: int, q: int|
        0 <= p < q < pages.len() && search_record(#[trigger] pages[p]) == Some(out[i])
            && search_record(#[trigger] pages[q]) == Some(out[j]);
    ranked_pages_are_the_pages_by_rank(response.query->0.pages@);
    assert(rank(pages[p]) <= rank(pages[q]));
}

/// Once a search is over, nothing that comes in changes its answer.
pub proof fn answer_is_final(
    base_url: Seq<char>,
    max_results: nat,
    answer: Result<Seq<RecordView>, ErrorView>,
    events: Seq<QueryEventView>,
)
    ensures
        query_run(base_url, max_results, QueryView::Done(answer), events) == QueryView::Done(
            answer,
        ),
    decreases events.len(),
{
    if events.len() > 0 {
        answer_is_final(base_url, max_results, answer, events.drop_last());
    }
}

/// Whatever comes in, a search never answers with more records than were asked for.
pub proof fn answers_are_never_too_long(
    base_url: Seq<char>,
    max_results: nat,
    accepted: bool,
    free_text: Seq<char>,
    filters: Map<Seq<char>, Seq<Seq<char>>>,
    events: Seq<QueryEventView>,
)
    ensures
        query_run(base_url, max_results, query_start(accepted, free_text, filters), events) matches QueryView::Done(
            Ok(records),
        ) ==> records.len() <= max_results,
    decreases events.len(),
{
    if events.len() > 0 {
        answers_are_never_too_long(
            base_url,
            max_results,
            accepted,
            free_text,
            filters,
            events.drop_last(),
        );
    }
}

/// What the cache knows is the outcome as the cache gave it, without bytes and record, and
/// nothing is ever asked of Commons for it.
pub proof fn cached_record_asks_nothing(
    base_url: Seq<char>,
    record_id: Seq<char>,
    hash: Seq<char>,
    events: Seq<ComputeEventView>,
)
    ensures
        compute_run(base_url, record_id, compute_start(record_id, Ok(Some(hash))), events)
            == ComputeView::Done(Ok(OutcomeView::Cached(hash))),
        OutcomeView::Cached(hash).hash() == hash,
        OutcomeView::Cached(hash).bytes() is None,
        OutcomeView::Cached(hash).record() is None,
{
    outcome_is_final(base_url, record_id, Ok(OutcomeView::Cached(hash)), events);
}

/// Work that has been under way ends with success in one way alone: its hash was to be put
/// into the cache, was put there, and is the hash of the outcome.
pub proof fn outcome_has_the_stored_hash(
    base_url: Seq<char>,
    record_id: Seq<char>,
    state: ComputeView,
    event: ComputeEventView,
)
    requires
        !(state is Done),
    ensures
        compute_next(base_url, record_id, state, event) matches ComputeView::Done(Ok(outcome))
            ==> event is Stored && (state matches ComputeView::Store(_, body, hash)
            && outcome.hash() == hash && outcome.bytes() == Some(body) && outcome.record() is Some),
{
}

/// What a cache holds after an event: a hash that was to be put into it is there once that
/// has been done.
pub open spec fn cache_next(
    cache: Map<Seq<char>, Seq<char>>,
    record_id: Seq<char>,
    state: ComputeView,
    event: ComputeEventView,
) -> Map<Seq<char>, Seq<char>> {
    match (state, event) {
        (ComputeView::Store(_, _, hash), ComputeEventView::Stored) => cache.insert(
            record_id,
            hash,
        ),
        _ => cache,
    }
}

/// What a cache holds after the work on a record has gone through a number of events.
pub open spec fn cache_run(
    base_url: Seq<char>,
    record_id: Seq<char>,
    cache: Map<Seq<char>, Seq<char>>,
    start: ComputeView,
    events: Seq<ComputeEventView>,
) -> Map<Seq<char>, Seq<char>>
    decreases events.len(),
{
    if events.len() == 0 {
        cache
    } else {
        cache_next(
            cache_run(base_url, record_id, cache, start, events.drop_last()),
            record_id,
            compute_run(base_url, record_id, start, events.drop_last()),
            events.last(),
        )
    }
}

/// Whatever comes in, where the work on a record ends with an outcome, the cache holds the hash
/// of that outcome, and what it holds of every other record is unchanged.
pub proof fn cache_holds_the_hash_of_the_outcome(
    base_url: Seq<char>,
    record_id: Seq<char>,
    cache: Map<Seq<char>, Seq<char>>,
    events: Seq<ComputeEventView>,
)
    ensures
        ({
            let start = compute_start(record_id, Ok(known_hash(cache, record_id)));
            let after = cache_run(base_url, record_id, cache, start, events);
            &&& compute_run(base_url, record_id, start, events) matches ComputeView::Done(Ok(outcome))
                ==> known_hash(after, record_id) == Some(outcome.hash())
            &&& forall|other: Seq<char>|
                other != record_id ==> #[trigger] known_hash(after, other) == known_hash(
                    cache,
                    other,
                )
        }),
    decreases events.len(),
{
    if events.len() > 0 {
        let start = compute_start(record_id, Ok(known_hash(cache, record_id)));
        let state = compute_run(base_url, record_id, start, events.drop_last());
        let before = cache_run(base_url, record_id, cache, start, events.drop_last());
        let after = cache_run(base_url, record_id, cache, start, events);
        cache_holds_the_hash_of_the_outcome(base_url, record_id, cache, events.drop_last());
        if !(state is Done) {
            outcome_has_the_stored_hash(base_url, record_id, state, events.last());
        }
        assert forall|other: Seq<char>| other != record_id implies #[trigger] known_hash(
            after,
            other,
        ) == known_hash(cache, other) by {
            assert(known_hash(before, other) == known_hash(cache, other));
        }
    }
}

/// Where the work on a record has come to an outcome, and the cache keeps what is put into it,
/// working on it again comes to the same hash at once, without bytes and record, and asks
/// nothing of Commons, whatever comes in by then.
pub proof fn second_call_gives_the_same_hash(
    base_url: Seq<char>,
    record_id: Seq<char>,
    cache: Map<Seq<char>, Seq<char>>,
    events: Seq<ComputeEventView>,
    outcome: OutcomeView,
    later: Seq<ComputeEventView>,
)
    requires
        compute_run(
            base_url,
            record_id,
            compute_start(record_id, Ok(known_hash(cache, record_id))),
            events,
        ) == ComputeView::Done(Ok::<OutcomeView, ErrorView>(outcome)),
    ensures
        ({
            let start = compute_start(record_id, Ok(known_hash(cache, record_id)));
            let after = cache_run(base_url, record_id, cache, start, events);
            let again = compute_start(record_id, Ok(known_hash(after, record_id)));
            &&& again is Done
            &&& compute_run(base_url, record_id, again, later) matches ComputeView::Done(Ok(second))
            &&& second.hash() == outcome.hash()
            &&& second.bytes() is None
            &&& second.record() is None
        }),
{
    cache_holds_the_hash_of_the_outcome(base_url, record_id, cache, events);
    cached_record_asks_nothing(base_url, record_id, outcome.hash(), later);
}

/// Where the cache cannot be asked, the work on a record comes to that error, and nothing is
/// ever asked of Commons for it.
pub proof fn failed_lookup_asks_nothing(
    base_url: Seq<char>,
    record_id: Seq<char>,
    error: ErrorView,
    events: Seq<ComputeEventView>,
)
    ensures
        compute_run(base_url, record_id, compute_start(record_id, Err(error)), events)
            == ComputeView::Done(Err(error)),
{
    outcome_is_final(base_url, record_id, Err(error), events);
}

/// Whether a stated size is not above the ceiling.
pub open spec fn size_is_allowed(page: MediawikiPage) -> bool {
    &&& file_info(page) is Some
    &&& file_info(page)->0.size is Some ==> file_info(page)->0.size->0 <= MAX_FILE_BYTES
}

/// What holds of the work on a record at every time: a file is fetched only from where
/// its page says that it is, and only where its size is not known to be above the
/// ceiling; the bytes that are kept are never above it; and a fresh outcome is made of those
/// bytes, the record of such a page and the extension of the name of the record.
pub open spec fn work_is_in_bounds(record_id: Seq<char>, state: ComputeView) -> bool {
    match state {
        ComputeView::Encode(text) => text == record_id,
        ComputeView::File(page, url) => size_is_allowed(page) && url == file_info(page)->0.url@,
        ComputeView::Hash(page, body) => size_is_allowed(page) && body.len() <= MAX_FILE_BYTES,
        ComputeView::Store(page, body, _) => size_is_allowed(page) && body.len()
            <= MAX_FILE_BYTES,
        ComputeView::Done(Ok(OutcomeView::Fresh(outcome))) => {
            &&& outcome.bytes.len() <= MAX_FILE_BYTES
            &&& outcome.file_extension == extension(record_id)
            &&& exists|page: MediawikiPage|
                size_is_allowed(page) && page_record(page) == Some(outcome.record)
        },
        _ => true,
    }
}

/// Whatever comes in, the work on a record stays in bounds: in particular no file above
/// the ceiling is ever asked for that says so, and none is ever handed out.
pub proof fn work_stays_in_bounds(
    base_url: Seq<char>,
    record_id: Seq<char>,
    looked_up: Result<Option<Seq<char>>, ErrorView>,
    events: Seq<ComputeEventView>,
)
    ensures
        work_is_in_bounds(
            record_id,
            compute_run(base_url, record_id, compute_start(record_id, looked_up), events),
        ),
    decreases events.len(),
{
    if events.len() > 0 {
        let start = compute_start(record_id, looked_up);
        let state = compute_run(base_url, record_id, start, events.drop_last());
        let event = events.last();
        work_stays_in_bounds(base_url, record_id, looked_up, events.drop_last());
        match (state, event) {
            (ComputeView::Store(page, body, hash), ComputeEventView::Stored) => {
                if let Some(record) = page_record(page) {
                    assert(size_is_allowed(page) && page_record(page) == Some(record));
                }
            },
            _ => {},
        }
    }
}

/// A record whose file says that it is above the ceiling is refused for good, and its
/// file is not asked for.
pub proof fn oversized_record_is_refused(
    base_url: Seq<char>,
    record_id: Seq<char>,
    url: Seq<char>,
    response: MediawikiResponse,
    page: MediawikiPage,
)
    requires
        found_page(ordered_pages(response)) == Ok::<MediawikiPage, ErrorView>(page),
        file_info(page) is Some,
        file_info(page)->0.size is Some,
        file_info(page)->0.size->0 > MAX_FILE_BYTES,
    ensures
        compute_next(
            base_url,
            record_id,
            ComputeView::Page(url),
            ComputeEventView::Answered(ExchangeView::Received(response)),
        ) == ComputeView::Done(Err(oversized(record_id, file_info(page)->0.size->0 as nat))),
{
}

/// An error that the status of a response stands for is the outcome, as it is.
pub proof fn refusal_is_passed_on(
    base_url: Seq<char>,
    record_id: Seq<char>,
    max_results: nat,
    url: Seq<char>,
    error: ErrorView,
)
    ensures
        compute_next(
            base_url,
            record_id,
            ComputeView::Page(url),
            ComputeEventView::Answered(ExchangeView::Refused(error)),
        ) == ComputeView::Done(Err(error)),
        query_next(
            base_url,
            max_results,
            QueryView::Search(url),
            QueryEventView::Answered(ExchangeView::Refused(error)),
        ) == QueryView::Done(Err(error)),
{
}

/// Once the work on a record is over, nothing that comes in changes what it came to.
pub proof fn outcome_is_final(
    base_url: Seq<char>,
    record_id: Seq<char>,
    outcome: Result<OutcomeView, ErrorView>,
    events: Seq<ComputeEventView>,
)
    ensures
        compute_run(base_url, record_id, ComputeView::Done(outcome), events) == ComputeView::Done(
            outcome,
        ),
    decreases events.len(),
{
    if events.len() > 0 {
        outcome_is_final(base_url, record_id, outcome, events.drop_last());
    }
}

/// One more event takes the work one step further.
proof fn lemma_compute_step(
    base_url: Seq<char>,
    record_id: Seq<char>,
    start: ComputeView,
    events: Seq<ComputeEventView>,
    event: ComputeEventView,
)
    ensures
        compute_run(base_url, record_id, start, events.push(event)) == compute_next(
            base_url,
            record_id,
            compute_run(base_url, record_id, start, events),
            event,
        ),
        compute_run(base_url, record_id, start, seq![]) == start,
{
    assert(events.push(event).drop_last() =~= events);
}

/// A record that the cache does not know is looked up, fetched, hashed and stored, in
/// this order, and the outcome holds the hash, the bytes, the record of the page and the
/// extension of its name.
pub proof fn fresh_record_comes_to_its_outcome(
    base_url: Seq<char>,
    record_id: Seq<char>,
    encoded: Seq<char>,
    response: MediawikiResponse,
    page: MediawikiPage,
    body: Seq<u8>,
    hash: Seq<char>,
)
    requires
        found_page(ordered_pages(response)) == Ok::<MediawikiPage, ErrorView>(page),
        page.title is Some,
        size_is_allowed(page),
        body.len() <= MAX_FILE_BYTES,
    ensures
        ({
            let start = compute_start(record_id, Ok(None));
            let e1 = ComputeEventView::Encoded(encoded);
            let e2 = ComputeEventView::Answered(ExchangeView::Received(response));
            let e3 = ComputeEventView::Downloaded(Ok(body));
            let e4 = ComputeEventView::Hashed(hash);
            let e5 = ComputeEventView::Stored;
            &&& start == ComputeView::Encode(record_id)
            &&& compute_run(base_url, record_id, start, seq![e1]) == ComputeView::Page(
                page_address(base_url, encoded),
            )
            &&& compute_run(base_url, record_id, start, seq![e1, e2]) == ComputeView::File(
                page,
                file_info(page)->0.url@,
            )
            &&& compute_run(base_url, record_id, start, seq![e1, e2, e3]) == ComputeView::Hash(
                page,
                body,
            )
            &&& compute_run(base_url, record_id, start, seq![e1, e2, e3, e4])
                == ComputeView::Store(page, body, hash)
            &&& compute_run(base_url, record_id, start, seq![e1, e2, e3, e4, e5])
                == ComputeView::Done(
                Ok(
                    OutcomeView::Fresh(
                        FreshView {
                            hash,
                            bytes: body,
                            record: page_record(page)->0,
                            file_extension: extension(record_id),
                        },
                    ),
                ),
            )
        }),
{
    let e1 = ComputeEventView::Encoded(encoded);
    let e2 = ComputeEventView::Answered(ExchangeView::Received(response));
    let e3 = ComputeEventView::Downloaded(Ok(body));
    let e4 = ComputeEventView::Hashed(hash);
    let e5 = ComputeEventView::Stored;
    let start = compute_start(record_id, Ok(None));
    lemma_compute_step(base_url, record_id, start, seq![], e1);
    lemma_compute_step(base_url, record_id, start, seq![e1], e2);
    lemma_compute_step(base_url, record_id, start, seq![e1, e2], e3);
    lemma_compute_step(base_url, record_id, start, seq![e1, e2, e3], e4);
    lemma_compute_step(base_url, record_id, start, seq![e1, e2, e3, e4], e5);
    assert(seq![].push(e1) =~= seq![e1]);
    assert(seq![e1].push(e2) =~= seq![e1, e2]);
    assert(seq![e1, e2].push(e3) =~= seq![e1, e2, e3]);
    assert(seq![e1, e2, e3].push(e4) =~= seq![e1, e2, e3, e4]);
    assert(seq![e1, e2, e3, e4].push(e5) =~= seq![e1, e2, e3, e4, e5]);
}

/// Slashes at the end of the address of the API make no difference.
pub proof fn trailing_slash_makes_no_difference(base_url: Seq<char>, extra: Seq<char>)
    ensures
        api_address(base_url.push('/'), extra) == api_address(base_url, extra),
{
    assert(base_url.push('/').drop_last() =~= base_url);
    assert(without_trailing(base_url.push('/'), '/') == without_trailing(base_url, '/'));
}

} // verus!
