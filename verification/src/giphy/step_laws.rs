//! What each step of a search of Giphy, and of the work on a picture, comes to.

use crate::gateway::{
    answer_view, first_records, outcome_view, DiscoveryRecord, ErrorView, Exchange, ExchangeView,
    FreshView, GatewayError, HashOutcome, HealthView, OutcomeView,
};
use crate::giphy::compute::{
    compute_next, compute_start, ComputeEvent, ComputeEventView, ComputeState, ComputeView,
};
use crate::giphy::gifs::{
    all_search_records, gif_record, GiphyGif, GiphyResponse, GiphySingleResponse,
};
use crate::giphy::laws::compute_run;
use crate::giphy::query::{
    query_next, query_start, QueryEvent, QueryEventView, QueryState, QueryView,
};
use crate::giphy::{
    api_address, auth_error, detail_address, health_of, is_blank, is_white_space, missing_key,
    search_address, GiphyView, DEFAULT_BASE_URL, HTTP_TIMEOUT_SECS,
};
use crate::text::decimal;
use crate::text_laws::dropping_undoes_appending;
use vstd::prelude::*;
use vstd::utf8::encode_utf8;

verus! {

/// The limit and the address that the feeder keeps to.
pub proof fn giphy_is_used_within_these_limits()
    ensures
        DEFAULT_BASE_URL@ == "https://api.giphy.com"@,
        HTTP_TIMEOUT_SECS == 30,
{
}

/// A status that refuses the key is an error that stays, and its text names the status and what
/// to look at.
pub proof fn refused_key_is_named()
    ensures
        auth_error(401) == ErrorView::Permanent(
            "giphy auth failed ("@ + "401 Unauthorized"@ + ") — check the GIPHY_API_KEY"@,
        ),
        auth_error(403) == ErrorView::Permanent(
            "giphy auth failed ("@ + "403 Forbidden"@ + ") — check the GIPHY_API_KEY"@,
        ),
        missing_key() == ErrorView::Internal(
            "giphy plugin api_key missing (configure() never called)"@,
        ),
{
}

/// A plugin is in order exactly where its cache is open and it has a key, and says what it lacks
/// where it is not.
pub proof fn health_names_what_is_lacking(plugin: GiphyView)
    ensures
        health_of(plugin) == HealthView::Healthy <==> plugin.configured && plugin.api_key is Some,
        !plugin.configured ==> health_of(plugin) == HealthView::Degraded(
            "configure() not yet called"@,
        ),
        plugin.configured && plugin.api_key is None ==> health_of(plugin) == HealthView::Degraded(
            "no api key — set GIPHY_API_KEY"@,
        ),
{
}

/// The characters that are white space, by their numbers.
pub proof fn white_space_is_this(c: char)
    ensures
        is_white_space(c) <==> (9 <= c as int <= 13 || c as int == 32 || c as int == 133 || c as int
            == 160 || c as int == 5760 || 8192 <= c as int <= 8202 || c as int == 8232 || c as int
            == 8233 || c as int == 8239 || c as int == 8287 || c as int == 12288),
{
}

/// A text is blank exactly where it has no character that is not white space: of two texts one
/// behind the other, both have to be blank for the whole to be.
pub proof fn blank_texts_are_all_white_space(a: Seq<char>, b: Seq<char>, c: char)
    ensures
        is_blank(seq![]),
        is_blank(seq![c]) <==> is_white_space(c),
        is_blank(a + b) <==> is_blank(a) && is_blank(b),
{
    assert(seq![c][0] == c);
    if is_blank(a + b) {
        assert forall|i: int| 0 <= i < a.len() implies is_white_space(#[trigger] a[i]) by {
            assert((a + b)[i] == a[i]);
        }
        assert forall|i: int| 0 <= i < b.len() implies is_white_space(#[trigger] b[i]) by {
            assert((a + b)[a.len() + i] == b[i]);
        }
    }
    if is_blank(a) && is_blank(b) {
        assert forall|i: int| 0 <= i < (a + b).len() implies is_white_space(
            #[trigger] (a + b)[i],
        ) by {
            if i < a.len() {
                assert(is_white_space(a[i]));
            } else {
                assert(is_white_space(b[i - a.len()]));
            }
        }
    }
}

/// Whether an address is that of a site, with any number of slashes behind it.
pub open spec fn is_site(base_url: Seq<char>, site: Seq<char>) -> bool {
    &&& site.is_prefix_of(base_url)
    &&& site.len() > 0 ==> site.last() != '/'
    &&& forall|i: int| site.len() <= i < base_url.len() ==> #[trigger] base_url[i] == '/'
}

/// Every request goes to a path of the site with the encoded key, and with what is asked for
/// behind it where there is any, whatever slashes stand behind the address of the site.
pub proof fn request_is_made_at_its_address(
    base_url: Seq<char>,
    site: Seq<char>,
    path: Seq<char>,
    key: Seq<char>,
    extra: Seq<char>,
)
    requires
        is_site(base_url, site),
    ensures
        extra.len() == 0 ==> api_address(base_url, path, key, extra) == site + path
            + "?api_key="@ + key,
        extra.len() > 0 ==> api_address(base_url, path, key, extra) == site + path
            + "?api_key="@ + key + "&"@ + extra,
{
    let slashes = base_url.skip(site.len() as int);
    assert(base_url =~= site + slashes);
    dropping_undoes_appending(site, '/', slashes);
}

/// A served query searches for its whole free text with the whole key. Without a key it comes to
/// the error for that, and a query that is not served is answered with nothing.
pub proof fn search_is_for_the_whole_free_text(
    plugin: GiphyView,
    free_text: Seq<char>,
)
    ensures
        plugin.api_key matches Some(key) ==> query_start(plugin, true, free_text)
            == QueryView::Encode(key, free_text),
        plugin.api_key is None ==> query_start(plugin, true, free_text) == QueryView::Done(
            Err(
                ErrorView::Internal("giphy plugin api_key missing (configure() never called)"@),
            ),
        ),
        query_start(plugin, false, free_text) matches QueryView::Done(Ok(records))
            && records.len() == 0,
{
}

/// The encoded text is searched for with as many hits as were asked for, the encoded identifier
/// of a picture is looked up, and both go with the encoded key.
pub proof fn encoded_text_is_asked_for(
    plugin: GiphyView,
    site: Seq<char>,
    max_results: nat,
    record_id: Seq<char>,
    old_key: Seq<char>,
    old_text: Seq<char>,
    key: Seq<char>,
    text: Seq<char>,
)
    requires
        is_site(plugin.base_url, site),
        plugin.api_key is Some,
    ensures
        query_next(
            plugin,
            max_results,
            QueryView::Encode(old_key, old_text),
            QueryEventView::Encoded(key, text),
        ) == QueryView::Search(
            site + "/v1/gifs/search"@ + "?api_key="@ + key + "&"@ + ("q="@ + text + "&limit="@
                + decimal(max_results)),
        ),
        compute_next(
            plugin,
            record_id,
            ComputeView::Encode(old_key, old_text),
            ComputeEventView::Encoded(key, text),
        ) == ComputeView::Detail(site + ("/v1/gifs/"@ + text) + "?api_key="@ + key),
        search_address(plugin.base_url, key, text, max_results) == site + "/v1/gifs/search"@
            + "?api_key="@ + key + "&"@ + ("q="@ + text + "&limit="@ + decimal(max_results)),
        detail_address(plugin.base_url, key, text) == site + ("/v1/gifs/"@ + text) + "?api_key="@
            + key,
{
    let extra = "q="@ + text + "&limit="@ + decimal(max_results);
    reveal_strlit("q=");
    assert(extra.len() > 0);
    request_is_made_at_its_address(plugin.base_url, site, "/v1/gifs/search"@, key, extra);
    request_is_made_at_its_address(
        plugin.base_url,
        site,
        "/v1/gifs/"@ + text,
        key,
        Seq::empty(),
    );
}

/// Whether an error is the one for a request to the API that did not come to a response, of a
/// kind that `decoding` names.
pub open spec fn failure<T>(
    url: Seq<char>,
    exchange: ExchangeView<T>,
    decoding: Seq<char>,
    error: ErrorView,
) -> bool {
    match exchange {
        ExchangeView::SendFailed(cause) => error == ErrorView::Transient(
            "GET "@ + url + ": "@ + cause,
        ),
        ExchangeView::Refused(e) => error == e,
        ExchangeView::Unreadable(cause) => error == ErrorView::Permanent(decoding + cause),
        ExchangeView::Received(_) => false,
    }
}

/// A search answers with the first records of the pictures found, in their order, where a
/// response came, and else with the error for what went wrong.
pub proof fn search_ends_with_its_answer(
    plugin: GiphyView,
    max_results: nat,
    url: Seq<char>,
    exchange: ExchangeView<GiphyResponse>,
)
    ensures
        exchange matches ExchangeView::Received(response) ==> query_next(
            plugin,
            max_results,
            QueryView::Search(url),
            QueryEventView::Answered(exchange),
        ) == QueryView::Done(Ok(first_records(all_search_records(response.data@), max_results))),
        !(exchange is Received) ==> (query_next(
            plugin,
            max_results,
            QueryView::Search(url),
            QueryEventView::Answered(exchange),
        ) matches QueryView::Done(Err(error)) && failure(
            url,
            exchange,
            "decode giphy search response: "@,
            error,
        )),
{
}

/// The work on a picture begins with what the cache says: its hash is the outcome, why it could
/// not be asked is the error, and where it knows nothing the identifier of the picture is looked
/// up, if there is a key to do so.
pub proof fn work_begins_with_the_cache(
    plugin: GiphyView,
    record_id: Seq<char>,
    hash: Seq<char>,
    error: ErrorView,
)
    ensures
        compute_start(plugin, record_id, Ok(Some(hash))) == ComputeView::Done(
            Ok(OutcomeView::Cached(hash)),
        ),
        compute_start(plugin, record_id, Err(error)) == ComputeView::Done(Err(error)),
        plugin.api_key matches Some(key) ==> compute_start(plugin, record_id, Ok(None))
            == ComputeView::Encode(key, record_id),
        plugin.api_key is None ==> compute_start(plugin, record_id, Ok(None))
            == ComputeView::Done(
            Err(
                ErrorView::Internal("giphy plugin api_key missing (configure() never called)"@),
            ),
        ),
{
}

/// Where the lookup of a picture goes from the response. There is no such picture exactly where
/// the response has none. One without an original form is refused, and any other is fetched from
/// the address of that form, whatever else is known of it.
pub proof fn lookup_goes_by_the_original_form(
    plugin: GiphyView,
    record_id: Seq<char>,
    url: Seq<char>,
    response: GiphySingleResponse,
)
    ensures
        ({
            let next = compute_next(
                plugin,
                record_id,
                ComputeView::Detail(url),
                ComputeEventView::Answered(ExchangeView::Received(response)),
            );
            let gif = response.data->0;
            let has_form = gif.images is Some && gif.images->0.original is Some;
            &&& next == ComputeView::Done(Err(ErrorView::NotFound)) <==> response.data is None
            &&& response.data is Some && !has_form ==> next == ComputeView::Done(
                Err(
                    ErrorView::Permanent(
                        "giphy record `"@ + record_id + "`"@ + " has no images.original.url"@,
                    ),
                ),
            )
            &&& response.data is Some && has_form ==> next == ComputeView::File(
                gif,
                gif.images->0.original->0.url@,
            )
        }),
{
}

/// A lookup that did not come to a response ends with the error for what went wrong.
pub proof fn failed_lookup_ends_with_its_error(
    plugin: GiphyView,
    record_id: Seq<char>,
    url: Seq<char>,
    exchange: ExchangeView<GiphySingleResponse>,
)
    requires
        !(exchange is Received),
    ensures
        compute_next(
            plugin,
            record_id,
            ComputeView::Detail(url),
            ComputeEventView::Answered(exchange),
        ) matches ComputeView::Done(Err(error)) && failure(
            url,
            exchange,
            "decode giphy detail response: "@,
            error,
        ),
{
}

/// Whether bytes begin with those of the text `GIF8`.
pub open spec fn begins_as_a_gif(body: Seq<u8>) -> bool {
    encode_utf8("GIF8"@).is_prefix_of(body)
}

/// The text `GIF8` is four bytes: those of its four characters.
pub proof fn gif_mark_is_four_bytes()
    ensures
        encode_utf8("GIF8"@) == seq![0x47u8, 0x49u8, 0x46u8, 0x38u8],
{
    reveal_strlit("GIF8");
    let s = "GIF8"@;
    reveal_with_fuel(encode_utf8, 5);
    lemma_ascii(s[0]);
    lemma_ascii(s[1]);
    lemma_ascii(s[2]);
    lemma_ascii(s[3]);
    let s1 = s.drop_first();
    let s2 = s1.drop_first();
    let s3 = s2.drop_first();
    assert(s1[0] == 'I' && s2[0] == 'F' && s3[0] == '8');
    assert(s3.drop_first() =~= seq![]);
    assert(encode_utf8(s3) =~= seq![0x38u8]);
    assert(encode_utf8(s2) =~= seq![0x46u8, 0x38u8]);
    assert(encode_utf8(s1) =~= seq![0x49u8, 0x46u8, 0x38u8]);
    assert(encode_utf8(s) =~= seq![0x47u8, 0x49u8, 0x46u8, 0x38u8]);
}

proof fn lemma_ascii(c: char)
    requires
        c as int <= 127,
    ensures
        vstd::utf8::encode_scalar(c as u32) == seq![c as u8],
{
    let v = c as u32;
    assert(v <= 0x7f ==> (v & 0x7f) as u8 == v) by (bit_vector);
}

proof fn lemma_gif_mark(body: Seq<u8>)
    ensures
        begins_as_a_gif(body) <==> body.len() >= 4 && body[0] == 0x47 && body[1] == 0x49 && body[2]
            == 0x46 && body[3] == 0x38,
{
    gif_mark_is_four_bytes();
    let mark = seq![0x47u8, 0x49u8, 0x46u8, 0x38u8];
    if begins_as_a_gif(body) {
        assert(body.subrange(0, 4)[0] == mark[0]);
        assert(body.subrange(0, 4)[1] == mark[1]);
        assert(body.subrange(0, 4)[2] == mark[2]);
        assert(body.subrange(0, 4)[3] == mark[3]);
    }
    if body.len() >= 4 && body[0] == 0x47 && body[1] == 0x49 && body[2] == 0x46 && body[3] == 0x38 {
        assert(body.subrange(0, 4) =~= mark);
    }
}

/// Bytes that came are hashed as they came exactly where they begin with `GIF8`, and are refused
/// for good where they do not. Where none came, the error is the one for what went wrong.
pub proof fn download_is_kept_where_it_is_a_gif(
    plugin: GiphyView,
    record_id: Seq<char>,
    gif: GiphyGif,
    url: Seq<char>,
    body: Vec<u8>,
    exchange: ExchangeView<Vec<u8>>,
)
    ensures
        ({
            let next = compute_next(
                plugin,
                record_id,
                ComputeView::File(gif, url),
                ComputeEventView::Downloaded(ExchangeView::Received(body)),
            );
            &&& begins_as_a_gif(body@) ==> next == ComputeView::Hash(gif, body@)
            &&& !begins_as_a_gif(body@) ==> next == ComputeView::Done(
                Err(
                    ErrorView::Permanent(
                        "giphy returned non-GIF body for "@ + url
                            + " (CDN may have replaced the file)"@,
                    ),
                ),
            )
        }),
        ({
            let next = compute_next(
                plugin,
                record_id,
                ComputeView::File(gif, url),
                ComputeEventView::Downloaded(exchange),
            );
            &&& exchange matches ExchangeView::SendFailed(cause) ==> next == ComputeView::Done(
                Err(ErrorView::Transient("GET "@ + url + ": "@ + cause)),
            )
            &&& exchange matches ExchangeView::Refused(e) ==> next == ComputeView::Done(Err(e))
            &&& exchange matches ExchangeView::Unreadable(cause) ==> next == ComputeView::Done(
                Err(ErrorView::Transient("read body "@ + url + ": "@ + cause)),
            )
        }),
{
    lemma_gif_mark(body@);
}

/// Whether the bytes that a state of the work holds begin with `GIF8`, where it holds any.
pub open spec fn holds_a_gif(state: ComputeView) -> bool {
    match state {
        ComputeView::Hash(_, body) => begins_as_a_gif(body),
        ComputeView::Store(_, body, _) => begins_as_a_gif(body),
        ComputeView::Done(Ok(outcome)) => outcome matches OutcomeView::Fresh(fresh)
            ==> begins_as_a_gif(fresh.bytes),
        _ => true,
    }
}

/// Whatever comes in, bytes that are hashed, stored or handed out begin with `GIF8`.
pub proof fn only_gifs_are_kept(
    plugin: GiphyView,
    record_id: Seq<char>,
    looked_up: Result<Option<Seq<char>>, ErrorView>,
    events: Seq<ComputeEventView>,
)
    ensures
        holds_a_gif(
            compute_run(plugin, record_id, compute_start(plugin, record_id, looked_up), events),
        ),
    decreases events.len(),
{
    if events.len() > 0 {
        let start = compute_start(plugin, record_id, looked_up);
        only_gifs_are_kept(plugin, record_id, looked_up, events.drop_last());
        let state = compute_run(plugin, record_id, start, events.drop_last());
        match (state, events.last()) {
            (
                ComputeView::File(_, _),
                ComputeEventView::Downloaded(ExchangeView::Received(body)),
            ) => {
                lemma_gif_mark(body@);
            },
            _ => {},
        }
    }
}

/// The hash of the bytes is stored, and then the record of the picture is handed out with the
/// hash and the bytes, where the picture has an identifier.
pub proof fn stored_hash_is_handed_out(
    plugin: GiphyView,
    record_id: Seq<char>,
    gif: GiphyGif,
    body: Seq<u8>,
    hash: Seq<char>,
)
    ensures
        compute_next(
            plugin,
            record_id,
            ComputeView::Hash(gif, body),
            ComputeEventView::Hashed(hash),
        ) == ComputeView::Store(gif, body, hash),
        ({
            let next = compute_next(
                plugin,
                record_id,
                ComputeView::Store(gif, body, hash),
                ComputeEventView::Stored,
            );
            &&& gif.id is Some ==> next == ComputeView::Done(
                Ok(
                    OutcomeView::Fresh(
                        FreshView {
                            hash,
                            bytes: body,
                            record: gif_record(gif)->0,
                            file_extension: Some("gif"@),
                        },
                    ),
                ),
            )
            &&& gif.id is None ==> next == ComputeView::Done(
                Err(
                    ErrorView::Permanent(
                        "giphy record `"@ + record_id + "`"@ + " lost fields between calls"@,
                    ),
                ),
            )
        }),
{
}

/// An event that does not answer what a state asks for leaves the state as it is.
pub proof fn unasked_events_change_nothing(
    plugin: GiphyView,
    max_results: nat,
    record_id: Seq<char>,
    query: QueryView,
    query_event: QueryEventView,
    state: ComputeView,
    event: ComputeEventView,
)
    ensures
        !(query is Encode && query_event is Encoded) && !(query is Search
            && query_event is Answered) ==> query_next(plugin, max_results, query, query_event)
            == query,
        !(state is Encode && event is Encoded) && !(state is Detail && event is Answered) && !(
        state is File && event is Downloaded) && !(state is Hash && event is Hashed) && !(
        state is Store && event is Stored) ==> compute_next(plugin, record_id, state, event)
            == state,
{
}

/// What a state and an event of a search are seen as is what they hold.
pub proof fn searches_are_seen_as_they_are(
    key: String,
    text: String,
    exchange: Exchange<GiphyResponse>,
    answer: Result<Vec<DiscoveryRecord>, GatewayError>,
)
    ensures
        QueryState::Done(answer)@ == QueryView::Done(answer_view(answer)),
        (QueryState::Encode { key, text })@ == QueryView::Encode(key@, text@),
        (QueryState::Search { url: text })@ == QueryView::Search(text@),
        (QueryEvent::Encoded { key, text })@ == QueryEventView::Encoded(key@, text@),
        QueryEvent::Answered(exchange)@ == QueryEventView::Answered(exchange@),
{
}

/// What a state and an event of the work on a picture are seen as is what they hold.
pub proof fn work_is_seen_as_it_is(
    key: String,
    text: String,
    gif: GiphyGif,
    body: Vec<u8>,
    exchange: Exchange<GiphySingleResponse>,
    download: Exchange<Vec<u8>>,
    outcome: Result<HashOutcome, GatewayError>,
)
    ensures
        (ComputeState::Encode { key, text })@ == ComputeView::Encode(key@, text@),
        (ComputeState::Detail { url: text })@ == ComputeView::Detail(text@),
        (ComputeState::File { gif, url: text })@ == ComputeView::File(gif, text@),
        (ComputeState::Hash { gif, body })@ == ComputeView::Hash(gif, body@),
        (ComputeState::Store { gif, body, hash: text })@ == ComputeView::Store(
            gif,
            body@,
            text@,
        ),
        ComputeState::Done(outcome)@ == ComputeView::Done(outcome_view(outcome)),
        (ComputeEvent::Encoded { key, text })@ == ComputeEventView::Encoded(key@, text@),
        ComputeEvent::Answered(exchange)@ == ComputeEventView::Answered(exchange@),
        ComputeEvent::Downloaded(download)@ == ComputeEventView::Downloaded(download@),
        ComputeEvent::Hashed(text)@ == ComputeEventView::Hashed(text@),
        ComputeEvent::Stored@ == ComputeEventView::Stored,
{
}

} // verus!
