//! What each step of a search of Commons, and of the work on a record, comes to.

use crate::gateway::{
    answer_view, first_records, outcome_view, DiscoveryRecord, ErrorView, Exchange, ExchangeView,
    FreshView, GatewayError, HashOutcome, OutcomeView,
};
use crate::text::decimal;
use crate::text_laws::dropping_undoes_appending;
use crate::wikicommons::compute::{
    compute_next, compute_start, ComputeEvent, ComputeEventView, ComputeState, ComputeView,
};
use crate::wikicommons::field_laws::has_file;
use crate::wikicommons::filetype::filetype_clause;
use crate::wikicommons::pages::{ordered_pages, MediawikiPage, MediawikiResponse};
use crate::wikicommons::query::{
    query_next, query_start, QueryEvent, QueryEventView, QueryState, QueryView,
};
use crate::wikicommons::record::{all_search_records, page_record};
use crate::wikicommons::title::extension;
use crate::wikicommons::{
    api_address, page_address, search_address, DEFAULT_BASE_URL, HTTP_TIMEOUT_SECS, MAX_FILE_BYTES,
    PREVIEW_WIDTH_PX,
};
use vstd::prelude::*;

verus! {

/// The limits and the address that the feeder keeps to.
pub proof fn commons_is_used_within_these_limits()
    ensures
        DEFAULT_BASE_URL@ == "https://commons.wikimedia.org"@,
        HTTP_TIMEOUT_SECS == 60,
        MAX_FILE_BYTES == 52428800,
        PREVIEW_WIDTH_PX == 400,
{
}

/// A served query searches for its whole free text: for nothing else where no file type is
/// asked for that Commons has a word for, and otherwise with a space and the clause behind it. A
/// query that is not served is answered with nothing.
pub proof fn search_is_for_the_whole_free_text(
    free_text: Seq<char>,
    filters: Map<Seq<char>, Seq<Seq<char>>>,
)
    ensures
        query_start(true, free_text, filters) matches QueryView::Encode(text)
            && free_text.is_prefix_of(text),
        filetype_clause(filters) is None ==> query_start(true, free_text, filters)
            == QueryView::Encode(free_text),
        filetype_clause(filters) matches Some(clause) ==> query_start(true, free_text, filters)
            == QueryView::Encode(free_text + " "@ + clause),
        query_start(false, free_text, filters) matches QueryView::Done(Ok(records))
            && records.len() == 0,
{
    match filetype_clause(filters) {
        Some(clause) => {
            let text = free_text + " "@ + clause;
            assert(text.subrange(0, free_text.len() as int) =~= free_text);
        },
        None => {
            assert(free_text.subrange(0, free_text.len() as int) =~= free_text);
        },
    }
}

/// Whether an address is that of a site, with any number of slashes behind it.
pub open spec fn is_site(base_url: Seq<char>, site: Seq<char>) -> bool {
    &&& site.is_prefix_of(base_url)
    &&& site.len() > 0 ==> site.last() != '/'
    &&& forall|i: int| site.len() <= i < base_url.len() ==> #[trigger] base_url[i] == '/'
}

/// Every query asks for the file of each page with its address, MIME type, size and metadata,
/// and for a small picture, in JSON, whatever slashes stand behind the address of the site.
pub proof fn query_is_asked_at_its_address(
    base_url: Seq<char>,
    site: Seq<char>,
    extra: Seq<char>,
)
    requires
        is_site(base_url, site),
    ensures
        api_address(base_url, extra) == site
            + "/w/api.php?action=query&prop=imageinfo&iiprop=url%7Cmime%7Csize%7Cextmetadata&iiurlwidth="@
            + "400"@ + "&format=json&formatversion=1&"@ + extra,
{
    let slashes = base_url.skip(site.len() as int);
    assert(base_url =~= site + slashes);
    dropping_undoes_appending(site, '/', slashes);
    lemma_four_hundred();
}

proof fn lemma_four_hundred()
    ensures
        decimal(400) == "400"@,
{
    reveal_strlit("400");
    reveal_with_fuel(decimal, 4);
    assert(decimal(400) =~= "400"@);
}

/// The encoded text is searched for among files, with as many hits as were asked for, and the
/// encoded name of a record is looked up behind `File:`.
pub proof fn encoded_text_is_asked_for(
    base_url: Seq<char>,
    site: Seq<char>,
    max_results: nat,
    record_id: Seq<char>,
    text: Seq<char>,
    encoded: Seq<char>,
)
    requires
        is_site(base_url, site),
    ensures
        query_next(
            base_url,
            max_results,
            QueryView::Encode(text),
            QueryEventView::Encoded(encoded),
        ) == QueryView::Search(
            site
                + "/w/api.php?action=query&prop=imageinfo&iiprop=url%7Cmime%7Csize%7Cextmetadata&iiurlwidth="@
                + "400"@ + "&format=json&formatversion=1&"@ + ("generator=search&gsrsearch="@
                + encoded + "&gsrnamespace=6&gsrlimit="@ + decimal(max_results)),
        ),
        compute_next(
            base_url,
            record_id,
            ComputeView::Encode(text),
            ComputeEventView::Encoded(encoded),
        ) == ComputeView::Page(
            site
                + "/w/api.php?action=query&prop=imageinfo&iiprop=url%7Cmime%7Csize%7Cextmetadata&iiurlwidth="@
                + "400"@ + "&format=json&formatversion=1&"@ + ("titles=File:"@ + encoded),
        ),
        search_address(base_url, encoded, max_results) == site
            + "/w/api.php?action=query&prop=imageinfo&iiprop=url%7Cmime%7Csize%7Cextmetadata&iiurlwidth="@
            + "400"@ + "&format=json&formatversion=1&"@ + ("generator=search&gsrsearch="@ + encoded
            + "&gsrnamespace=6&gsrlimit="@ + decimal(max_results)),
        page_address(base_url, encoded) == site
            + "/w/api.php?action=query&prop=imageinfo&iiprop=url%7Cmime%7Csize%7Cextmetadata&iiurlwidth="@
            + "400"@ + "&format=json&formatversion=1&"@ + ("titles=File:"@ + encoded),
{
    query_is_asked_at_its_address(
        base_url,
        site,
        "generator=search&gsrsearch="@ + encoded + "&gsrnamespace=6&gsrlimit="@ + decimal(
            max_results,
        ),
    );
    query_is_asked_at_its_address(base_url, site, "titles=File:"@ + encoded);
}

/// What the error is for a request to the API that did not come to a response.
pub open spec fn failure(
    url: Seq<char>,
    exchange: ExchangeView<MediawikiResponse>,
    error: ErrorView,
) -> bool {
    match exchange {
        ExchangeView::SendFailed(cause) => error == ErrorView::Transient(
            "GET "@ + url + ": "@ + cause,
        ),
        ExchangeView::Refused(e) => error == e,
        ExchangeView::Unreadable(cause) => error == ErrorView::Permanent(
            "decode mediawiki response: "@ + cause,
        ),
        ExchangeView::Received(_) => false,
    }
}

/// A search answers with the first records of the pages found, in their order, where a response
/// came, and else with the error for what went wrong.
pub proof fn search_ends_with_its_answer(
    base_url: Seq<char>,
    max_results: nat,
    url: Seq<char>,
    exchange: ExchangeView<MediawikiResponse>,
)
    ensures
        exchange matches ExchangeView::Received(response) ==> query_next(
            base_url,
            max_results,
            QueryView::Search(url),
            QueryEventView::Answered(exchange),
        ) == QueryView::Done(
            Ok(first_records(all_search_records(ordered_pages(response)), max_results)),
        ),
        !(exchange is Received) ==> (query_next(
            base_url,
            max_results,
            QueryView::Search(url),
            QueryEventView::Answered(exchange),
        ) matches QueryView::Done(Err(error)) && failure(url, exchange, error)),
{
}

/// The work on a record begins with what the cache says: its hash is the outcome, why it could
/// not be asked is the error, and where it knows nothing the name of the record is looked up.
pub proof fn work_begins_with_the_cache(
    record_id: Seq<char>,
    hash: Seq<char>,
    error: ErrorView,
)
    ensures
        compute_start(record_id, Ok(Some(hash))) == ComputeView::Done(
            Ok(OutcomeView::Cached(hash)),
        ),
        compute_start(record_id, Ok(None)) == ComputeView::Encode(record_id),
        compute_start(record_id, Err(error)) == ComputeView::Done(Err(error)),
{
}

/// Where the lookup of a record goes from the pages found, the first of which is the page of the
/// record. There is no such record exactly where there is no page, or the page has neither a
/// number nor a file. A page without a file is refused, and so is one whose file says that it has
/// more than 52428800 bytes. Any other file is fetched from where the page says that it is,
/// whatever else is known of it.
pub proof fn lookup_goes_by_the_first_page(
    base_url: Seq<char>,
    record_id: Seq<char>,
    url: Seq<char>,
    response: MediawikiResponse,
)
    ensures
        ({
            let pages = ordered_pages(response);
            let page = pages[0];
            let info = page.imageinfo->0@[0];
            let next = compute_next(
                base_url,
                record_id,
                ComputeView::Page(url),
                ComputeEventView::Answered(ExchangeView::Received(response)),
            );
            &&& next == ComputeView::Done(Err(ErrorView::NotFound)) <==> pages.len() == 0 || (
            !has_file(page) && page.pageid is None)
            &&& pages.len() > 0 && !has_file(page) && page.pageid is Some ==> next
                == ComputeView::Done(
                Err(
                    ErrorView::Permanent(
                        "wikicommons record `"@ + record_id + "`"@ + " has no imageinfo"@,
                    ),
                ),
            )
            &&& pages.len() > 0 && has_file(page) && info.size is Some && info.size->0
                > 52428800 ==> next == ComputeView::Done(
                Err(
                    ErrorView::Permanent(
                        "wikicommons record `"@ + record_id + "`"@ + " is "@ + decimal(
                            info.size->0 as nat,
                        ) + " bytes — exceeds gateway plugin's "@ + decimal(52428800)
                            + "-byte ceiling. Streaming auto-store would lift this; not in v0."@,
                    ),
                ),
            )
            &&& pages.len() > 0 && has_file(page) && (info.size is None || info.size->0
                <= 52428800) ==> next == ComputeView::File(page, info.url@)
        }),
{
}

/// A lookup that did not come to a response ends with the error for what went wrong.
pub proof fn failed_lookup_ends_with_its_error(
    base_url: Seq<char>,
    record_id: Seq<char>,
    url: Seq<char>,
    exchange: ExchangeView<MediawikiResponse>,
)
    requires
        !(exchange is Received),
    ensures
        compute_next(
            base_url,
            record_id,
            ComputeView::Page(url),
            ComputeEventView::Answered(exchange),
        ) matches ComputeView::Done(Err(error)) && failure(url, exchange, error),
{
}

/// Bytes that came are hashed as they came, where they are 52428800 at most, and refused where
/// they are more. Where none came, the reason for that is the error.
pub proof fn download_is_kept_below_the_ceiling(
    base_url: Seq<char>,
    record_id: Seq<char>,
    page: MediawikiPage,
    url: Seq<char>,
    body: Seq<u8>,
    error: ErrorView,
)
    ensures
        ({
            let next = compute_next(
                base_url,
                record_id,
                ComputeView::File(page, url),
                ComputeEventView::Downloaded(Ok(body)),
            );
            &&& body.len() <= 52428800 ==> next == ComputeView::Hash(page, body)
            &&& body.len() > 52428800 ==> next == ComputeView::Done(
                Err(
                    ErrorView::Permanent(
                        "wikicommons record `"@ + record_id + "`"@ + " body was "@ + decimal(
                            body.len(),
                        ) + " bytes — exceeds "@ + decimal(52428800) + " ceiling"@,
                    ),
                ),
            )
        }),
        compute_next(
            base_url,
            record_id,
            ComputeView::File(page, url),
            ComputeEventView::Downloaded(Err(error)),
        ) == ComputeView::Done(Err(error)),
{
}

/// The hash of the bytes is stored, and then the record is handed out with the hash, the bytes,
/// and the extension of its name, where its page has a title and a file.
pub proof fn stored_hash_is_handed_out(
    base_url: Seq<char>,
    record_id: Seq<char>,
    page: MediawikiPage,
    body: Seq<u8>,
    hash: Seq<char>,
)
    ensures
        compute_next(
            base_url,
            record_id,
            ComputeView::Hash(page, body),
            ComputeEventView::Hashed(hash),
        ) == ComputeView::Store(page, body, hash),
        ({
            let next = compute_next(
                base_url,
                record_id,
                ComputeView::Store(page, body, hash),
                ComputeEventView::Stored,
            );
            &&& page.title is Some && has_file(page) ==> next == ComputeView::Done(
                Ok(
                    OutcomeView::Fresh(
                        FreshView {
                            hash,
                            bytes: body,
                            record: page_record(page)->0,
                            file_extension: extension(record_id),
                        },
                    ),
                ),
            )
            &&& !(page.title is Some && has_file(page)) ==> next == ComputeView::Done(
                Err(
                    ErrorView::Permanent(
                        "wikicommons record `"@ + record_id + "`"@
                            + " lost imageinfo between calls"@,
                    ),
                ),
            )
        }),
{
}

/// An event that does not answer what a state asks for leaves the state as it is.
pub proof fn unasked_events_change_nothing(
    base_url: Seq<char>,
    max_results: nat,
    record_id: Seq<char>,
    query: QueryView,
    query_event: QueryEventView,
    state: ComputeView,
    event: ComputeEventView,
)
    ensures
        !(query is Encode && query_event is Encoded) && !(query is Search
            && query_event is Answered) ==> query_next(base_url, max_results, query, query_event)
            == query,
        !(state is Encode && event is Encoded) && !(state is Page && event is Answered) && !(
        state is File && event is Downloaded) && !(state is Hash && event is Hashed) && !(
        state is Store && event is Stored) ==> compute_next(base_url, record_id, state, event)
            == state,
{
}

/// What a state and an event of a search are seen as is what they hold.
pub proof fn searches_are_seen_as_they_are(
    text: String,
    exchange: Exchange<MediawikiResponse>,
    answer: Result<Vec<DiscoveryRecord>, GatewayError>,
)
    ensures
        QueryState::Done(answer)@ == QueryView::Done(answer_view(answer)),
        (QueryState::Encode { text })@ == QueryView::Encode(text@),
        (QueryState::Search { url: text })@ == QueryView::Search(text@),
        QueryEvent::Encoded(text)@ == QueryEventView::Encoded(text@),
        QueryEvent::Answered(exchange)@ == QueryEventView::Answered(exchange@),
{
}

/// What a state and an event of the work on a record are seen as is what they hold.
pub proof fn work_is_seen_as_it_is(
    text: String,
    page: MediawikiPage,
    body: Vec<u8>,
    error: GatewayError,
    exchange: Exchange<MediawikiResponse>,
    outcome: Result<HashOutcome, GatewayError>,
)
    ensures
        (ComputeState::Encode { text })@ == ComputeView::Encode(text@),
        (ComputeState::Page { url: text })@ == ComputeView::Page(text@),
        (ComputeState::File { page, url: text })@ == ComputeView::File(page, text@),
        (ComputeState::Hash { page, body })@ == ComputeView::Hash(page, body@),
        (ComputeState::Store { page, body, hash: text })@ == ComputeView::Store(
            page,
            body@,
            text@,
        ),
        ComputeState::Done(outcome)@ == ComputeView::Done(outcome_view(outcome)),
        ComputeEvent::Encoded(text)@ == ComputeEventView::Encoded(text@),
        ComputeEvent::Answered(exchange)@ == ComputeEventView::Answered(exchange@),
        ComputeEvent::Downloaded(Ok(body))@ == ComputeEventView::Downloaded(Ok(body@)),
        ComputeEvent::Downloaded(Err(error))@ == ComputeEventView::Downloaded(Err(error@)),
        ComputeEvent::Hashed(text)@ == ComputeEventView::Hashed(text@),
        ComputeEvent::Stored@ == ComputeEventView::Stored,
{
}

} // verus!
