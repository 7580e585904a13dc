//! What holds of every picture of Giphy, of every search and of all work on a picture,
//! whatever comes in from outside.

use crate::gateway::{
    first_records, known_hash, ErrorView, ExchangeView, FreshView, HealthView, OutcomeView,
    RecordView,
};
use crate::giphy::compute::{
    compute_next, compute_start, is_gif, ComputeEventView, ComputeView,
};
use crate::giphy::gifs::{
    all_search_records, gif_record, original_form, preview_url, record_title, search_record,
    source_url, year, GiphyGif, GiphyResponse, GiphySingleResponse,
};
use crate::giphy::query::{query_next, query_start, QueryEventView, QueryView};
use crate::giphy::{
    api_address, detail_address, health_of, missing_key, search_address, GiphyView,
};
use crate::text::{is_digit, without_trailing};
use vstd::prelude::*;
use vstd::utf8::{encode_scalar, encode_utf8};

verus! {

/// The keys of the fields of a record are different texts.
proof fn lemma_keys_differ()
    ensures
        is_basic_key("title"@),
        is_basic_key("fileType"@),
        is_basic_key("contentKind"@),
        is_basic_key("sourceUrl"@),
        is_basic_key("fileName"@),
        is_basic_key("giphy"@ + "id"@),
        is_basic_key("format"@),
        is_basic_key("mime"@),
        forall|k: Seq<char>|
            #![trigger is_basic_key(k)]
            is_basic_key(k) ==> k != "uploader"@ && k != "rating"@ && k != "imported"@ && k
                != "year"@ && k != "size"@ && k != "width"@ && k != "height"@ && k
                != "preview_url"@,
        "title"@ != "fileType"@,
        "title"@ != "contentKind"@,
        "title"@ != "sourceUrl"@,
        "title"@ != "fileName"@,
        "title"@ != "giphy"@ + "id"@,
        "title"@ != "format"@,
        "title"@ != "mime"@,
        "fileType"@ != "contentKind"@,
        "fileType"@ != "sourceUrl"@,
        "fileType"@ != "fileName"@,
        "fileType"@ != "giphy"@ + "id"@,
        "fileType"@ != "format"@,
        "fileType"@ != "mime"@,
        "contentKind"@ != "sourceUrl"@,
        "contentKind"@ != "fileName"@,
        "contentKind"@ != "giphy"@ + "id"@,
        "contentKind"@ != "format"@,
        "contentKind"@ != "mime"@,
        "sourceUrl"@ != "fileName"@,
        "sourceUrl"@ != "giphy"@ + "id"@,
        "sourceUrl"@ != "format"@,
        "sourceUrl"@ != "mime"@,
        "fileName"@ != "giphy"@ + "id"@,
        "fileName"@ != "format"@,
        "fileName"@ != "mime"@,
        "giphy"@ + "id"@ != "format"@,
        "giphy"@ + "id"@ != "mime"@,
        "format"@ != "mime"@,
        "preview_url"@ != "uploader"@,
        "preview_url"@ != "rating"@,
        "preview_url"@ != "imported"@,
        "preview_url"@ != "year"@,
        "preview_url"@ != "size"@,
        "preview_url"@ != "width"@,
        "preview_url"@ != "height"@,
{
    reveal_strlit("title");
    reveal_strlit("fileType");
    reveal_strlit("contentKind");
    reveal_strlit("sourceUrl");
    reveal_strlit("fileName");
    reveal_strlit("giphy");
    reveal_strlit("id");
    reveal_strlit("format");
    reveal_strlit("mime");
    reveal_strlit("uploader");
    reveal_strlit("rating");
    reveal_strlit("imported");
    reveal_strlit("year");
    reveal_strlit("size");
    reveal_strlit("width");
    reveal_strlit("height");
    reveal_strlit("preview_url");
    assert("title"@.len() == 5);
    assert("fileType"@.len() == 8);
    assert("contentKind"@.len() == 11);
    assert("sourceUrl"@.len() == 9);
    assert("fileName"@.len() == 8);
    assert("giphy"@.len() == 5);
    assert("id"@.len() == 2);
    assert("format"@.len() == 6);
    assert("mime"@.len() == 4);
    assert("uploader"@.len() == 8);
    assert("rating"@.len() == 6);
    assert("imported"@.len() == 8);
    assert("year"@.len() == 4);
    assert("size"@.len() == 4);
    assert("width"@.len() == 5);
    assert("height"@.len() == 6);
    assert("preview_url"@.len() == 11);
    assert(("giphy"@ + "id"@).len() == 7);
    assert("fileType"@[4] == 'T' && "fileName"@[4] == 'N');
    assert("uploader"@[0] == 'u' && "imported"@[0] == 'i' && "fileType"@[0] == 'f'
        && "fileName"@[0] == 'f');
    assert("contentKind"@[0] == 'c' && "preview_url"@[0] == 'p');
    assert("format"@[0] == 'f' && "rating"@[0] == 'r' && "height"@[0] == 'h');
    assert("title"@[0] == 't' && "width"@[0] == 'w');
    assert("mime"@[0] == 'm' && "year"@[0] == 'y' && "size"@[0] == 's');
}

spec fn is_basic_key(k: Seq<char>) -> bool {
    k == "title"@ || k == "fileType"@ || k == "contentKind"@ || k == "sourceUrl"@ || k
        == "fileName"@ || k == "giphy"@ + "id"@ || k == "format"@ || k == "mime"@
}

/// Whether the fields of a record say what it is: a GIF, under the title and address of
/// the picture or those made of its identifier.
pub open spec fn says_what_it_is(record: RecordView, gif: GiphyGif) -> bool {
    &&& gif.id is Some
    &&& record.upstream_id == "giphy"@
    &&& record.record_id == gif.id->0@
    &&& record.fields.contains_pair("giphy"@ + "id"@, record.record_id)
    &&& record.fields.contains_pair(
        "title"@,
        record_title(record.record_id, gif.title.deep_view()),
    )
    &&& record.fields.contains_pair(
        "sourceUrl"@,
        source_url(record.record_id, gif.url.deep_view()),
    )
    &&& record.fields.contains_pair("fileName"@, "giphy-"@ + record.record_id + ".gif"@)
    &&& record.fields.contains_pair("fileType"@, "image"@)
    &&& record.fields.contains_pair("contentKind"@, "gif"@)
    &&& record.fields.contains_pair("format"@, "gif"@)
    &&& record.fields.contains_pair("mime"@, "image/gif"@)
}

/// Every record of Giphy says what it is, whatever else is known of the picture: in
/// particular it is of the kinds that the plugin serves.
pub proof fn every_record_says_what_it_is(gif: GiphyGif)
    ensures
        gif_record(gif) matches Some(record) ==> says_what_it_is(record, gif),
        search_record(gif) matches Some(record) ==> says_what_it_is(record, gif),
{
    lemma_keys_differ();
}

/// A record of a search result carries a preview exactly where the picture has a small
/// form with an address, and a record that was looked up carries none.
pub proof fn preview_is_that_of_the_picture(gif: GiphyGif)
    ensures
        gif_record(gif) matches Some(record) ==> !record.fields.contains_key("preview_url"@),
        search_record(gif) matches Some(record) ==> match preview_url(gif) {
            Some(url) => record.fields.contains_pair("preview_url"@, url),
            None => !record.fields.contains_key("preview_url"@),
        },
{
    lemma_keys_differ();
}

/// The results of a search are no more than were asked for, and each is the record of one
/// of the pictures found.
pub proof fn results_are_records_of_the_pictures(gifs: Seq<GiphyGif>, max_results: nat)
    ensures
        first_records(all_search_records(gifs), max_results).len() <= max_results,
        forall|i: int|
            0 <= i < first_records(all_search_records(gifs), max_results).len() ==> exists|p: int|
                0 <= p < gifs.len() && search_record(#[trigger] gifs[p]) == Some(
                    #[trigger] first_records(all_search_records(gifs), max_results)[i],
                ),
{
    let all = all_search_records(gifs);
    let out = first_records(all, max_results);
    assert forall|i: int| 0 <= i < out.len() implies exists|p: int|
        0 <= p < gifs.len() && search_record(#[trigger] gifs[p]) == Some(#[trigger] out[i]) by {
        assert(out[i] == all[i]);
        lemma_source_picture(gifs, i);
    }
}

proof fn lemma_source_picture(gifs: Seq<GiphyGif>, i: int)
    requires
        0 <= i < all_search_records(gifs).len(),
    ensures
        exists|p: int|
            0 <= p < gifs.len() && search_record(#[trigger] gifs[p]) == Some(
                all_search_records(gifs)[i],
            ),
    decreases gifs.len(),
{
    let front = gifs.drop_last();
    if i < all_search_records(front).len() {
        lemma_source_picture(front, i);
        let p = choose|p: int|
            0 <= p < front.len() && search_record(#[trigger] front[p]) == Some(
                all_search_records(front)[i],
            );
        assert(gifs[p] == front[p]);
    } else {
        assert(search_record(gifs[gifs.len() - 1]) == Some(all_search_records(gifs)[i]));
    }
}

/// The results of a search stand in the order of the pictures that they are records of.
pub proof fn results_keep_the_order_of_the_pictures(
    gifs: Seq<GiphyGif>,
    max_results: nat,
    i: int,
    j: int,
)
    requires
        0 <= i < j < first_records(all_search_records(gifs), max_results).len(),
    ensures
        exists|p: int, q: int|
            0 <= p < q < gifs.len() && search_record(#[trigger] gifs[p]) == Some(
                first_records(all_search_records(gifs), max_results)[i],
            ) && search_record(#[trigger] gifs[q]) == Some(
                first_records(all_search_records(gifs), max_results)[j],
            ),
{
    lemma_sources_in_order(gifs, i, j);
}

proof fn lemma_sources_in_order(gifs: Seq<GiphyGif>, i: int, j: int)
    requires
        0 <= i < j < all_search_records(gifs).len(),
    ensures
        exists|p: int, q: int|
            0 <= p < q < gifs.len() && search_record(#[trigger] gifs[p]) == Some(
                all_search_records(gifs)[i],
            ) && search_record(#[trigger] gifs[q]) == Some(all_search_records(gifs)[j]),
    decreases gifs.len(),
{
    let front = gifs.drop_last();
    if j < all_search_records(front).len() {
        lemma_sources_in_order(front, i, j);
        let (p, q) = choose|p: int, q: int|
            0 <= p < q < front.len() && search_record(#[trigger] front[p]) == Some(
                all_search_records(front)[i],
            ) && search_record(#[trigger] front[q]) == Some(all_search_records(front)[j]);
        assert(gifs[p] == front[p] && gifs[q] == front[q]);
    } else {
        lemma_source_picture(front, i);
        let p = choose|p: int|
            0 <= p < front.len() && search_record(#[trigger] front[p]) == Some(
                all_search_records(front)[i],
            );
        assert(gifs[p] == front[p]);
        assert(search_record(gifs[gifs.len() - 1]) == Some(all_search_records(gifs)[j]));
    }
}

/// Where no more records are found than were asked for, no picture that has a record is left
/// out of the results.
pub proof fn no_result_is_left_out(gifs: Seq<GiphyGif>, max_results: nat, p: int)
    requires
        all_search_records(gifs).len() <= max_results,
        0 <= p < gifs.len(),
    ensures
        search_record(gifs[p]) matches Some(record) ==> first_records(
            all_search_records(gifs),
            max_results,
        ).contains(record),
    decreases gifs.len(),
{
    let all = all_search_records(gifs);
    let front = gifs.drop_last();
    if let Some(record) = search_record(gifs[p]) {
        if p < front.len() {
            no_result_is_left_out(front, max_results, p);
            assert(front[p] == gifs[p]);
            let i = choose|i: int|
                0 <= i < all_search_records(front).len() && all_search_records(front)[i] == record;
            assert(all[i] == record);
        } else {
            assert(all[all.len() - 1] == record);
        }
    }
}

/// Whether a byte is that of an ASCII digit.
pub open spec fn is_digit_byte(b: u8) -> bool {
    0x30 <= b <= 0x39
}

proof fn lemma_leading_byte(c: char)
    ensures
        encode_scalar(c as u32).len() >= 1,
        is_digit(c) <==> is_digit_byte(encode_scalar(c as u32)[0]),
        is_digit(c) ==> encode_scalar(c as u32).len() == 1,
{
    let v = c as u32;
    assert(v <= 0x7f ==> (v & 0x7f) as u8 == v) by (bit_vector);
    assert(0xc0u8 | ((v >> 6) & 0x1f) as u8 >= 0xc0) by (bit_vector);
    assert(0xe0u8 | ((v >> 12) & 0x0f) as u8 >= 0xe0) by (bit_vector);
    assert(0xf0u8 | ((v >> 18) & 0x7) as u8 >= 0xf0) by (bit_vector);
}

proof fn lemma_leading_digits(date: Seq<char>, n: nat)
    ensures
        (date.len() >= n && forall|i: int| 0 <= i < n ==> is_digit(#[trigger] date[i])) <==> (
        encode_utf8(date).len() >= n && forall|i: int|
            0 <= i < n ==> is_digit_byte(#[trigger] encode_utf8(date)[i])),
        date.len() >= n && (forall|i: int| 0 <= i < n ==> is_digit(#[trigger] date[i]))
            ==> encode_utf8(date.take(n as int)) == encode_utf8(date).take(n as int),
    decreases n,
{
    let bytes = encode_utf8(date);
    if n == 0 {
        assert(encode_utf8(date.take(0)) =~= bytes.take(0));
    } else if date.len() > 0 {
        let m = (n - 1) as nat;
        let rest = date.drop_first();
        let head = encode_scalar(date[0] as u32);
        lemma_leading_byte(date[0]);
        lemma_leading_digits(rest, m);
        assert(bytes == head + encode_utf8(rest));
        if is_digit(date[0]) {
            assert forall|i: int| 0 <= i < encode_utf8(rest).len() implies #[trigger] bytes[i + 1]
                == encode_utf8(rest)[i] by {}
            if date.len() >= n && forall|i: int| 0 <= i < n ==> is_digit(#[trigger] date[i]) {
                assert forall|i: int| 0 <= i < m implies is_digit(#[trigger] rest[i]) by {
                    assert(rest[i] == date[i + 1]);
                }
                assert forall|i: int| 0 <= i < n implies is_digit_byte(#[trigger] bytes[i]) by {
                    if i > 0 {
                        assert(bytes[i] == encode_utf8(rest)[i - 1]);
                    }
                }
                assert(date.take(n as int).drop_first() =~= rest.take(m as int));
                assert(bytes.take(n as int) =~= head + encode_utf8(rest).take(m as int));
            }
            if bytes.len() >= n && forall|i: int| 0 <= i < n ==> is_digit_byte(#[trigger] bytes[i]) {
                assert forall|i: int| 0 <= i < m implies is_digit_byte(
                    #[trigger] encode_utf8(rest)[i],
                ) by {
                    assert(encode_utf8(rest)[i] == bytes[i + 1]);
                }
                assert forall|i: int| 0 <= i < n implies is_digit(#[trigger] date[i]) by {
                    if i > 0 {
                        assert(date[i] == rest[i - 1]);
                    }
                }
            }
        } else {
            assert(!is_digit_byte(bytes[0]));
        }
    }
}

/// A date has a year exactly where its first four bytes are digits, and the year is those
/// four bytes.
pub proof fn year_is_the_first_four_bytes(date: Seq<char>)
    ensures
        year(date) is Some <==> encode_utf8(date).len() >= 4 && forall|i: int|
            0 <= i < 4 ==> is_digit_byte(#[trigger] encode_utf8(date)[i]),
        year(date) matches Some(y) ==> encode_utf8(y) == encode_utf8(date).take(4),
{
    lemma_leading_digits(date, 4);
    if year(date) is Some {
        assert forall|i: int| 0 <= i < 4 implies is_digit(#[trigger] date[i]) by {}
    }
}

/// A plugin that has a key and whose cache has been opened is in order, and one without
/// a key never is.
pub proof fn plugin_with_key_and_cache_is_healthy(plugin: GiphyView)
    ensures
        plugin.api_key is Some ==> health_of(GiphyView { configured: true, ..plugin })
            == HealthView::Healthy,
        plugin.api_key is None ==> health_of(plugin) != HealthView::Healthy,
{
}

/// Where a search has come to after a number of events.
pub open spec fn query_run(
    plugin: GiphyView,
    max_results: nat,
    start: QueryView,
    events: Seq<QueryEventView>,
) -> QueryView
    decreases events.len(),
{
    if events.len() == 0 {
        start
    } else {
        query_next(
            plugin,
            max_results,
            query_run(plugin, max_results, start, events.drop_last()),
            events.last(),
        )
    }
}

/// Where the work on a picture has come to after a number of events.
pub open spec fn compute_run(
    plugin: GiphyView,
    record_id: Seq<char>,
    start: ComputeView,
    events: Seq<ComputeEventView>,
) -> ComputeView
    decreases events.len(),
{
    if events.len() == 0 {
        start
    } else {
        compute_next(
            plugin,
            record_id,
            compute_run(plugin, record_id, start, events.drop_last()),
            events.last(),
        )
    }
}

/// A query that the plugin cannot serve is answered with no records, and nothing is ever
/// asked of Giphy for it, with or without a key.
pub proof fn unserved_query_asks_nothing(
    plugin: GiphyView,
    max_results: nat,
    free_text: Seq<char>,
    events: Seq<QueryEventView>,
)
    ensures
        query_run(plugin, max_results, query_start(plugin, false, free_text), events)
            == QueryView::Done(Ok(seq![])),
    decreases events.len(),
{
    if events.len() > 0 {
        unserved_query_asks_nothing(plugin, max_results, free_text, events.drop_last());
    }
}

/// Without a key, a served query and a picture that the cache does not know come to an
/// error, and nothing is ever asked of Giphy for them.
pub proof fn plugin_without_key_asks_nothing(
    plugin: GiphyView,
    max_results: nat,
    free_text: Seq<char>,
    query_events: Seq<QueryEventView>,
    record_id: Seq<char>,
    compute_events: Seq<ComputeEventView>,
)
    requires
        plugin.api_key is None,
    ensures
        query_run(plugin, max_results, query_start(plugin, true, free_text), query_events)
            == QueryView::Done(Err(missing_key())),
        compute_run(plugin, record_id, compute_start(plugin, record_id, Ok(None)), compute_events)
            == ComputeView::Done(Err(missing_key())),
    decreases query_events.len() + compute_events.len(),
{
    if query_events.len() > 0 {
        plugin_without_key_asks_nothing(
            plugin,
            max_results,
            free_text,
            query_events.drop_last(),
            record_id,
            compute_events,
        );
    }
    if compute_events.len() > 0 {
        plugin_without_key_asks_nothing(
            plugin,
            max_results,
            free_text,
            query_events,
            record_id,
            compute_events.drop_last(),
        );
    }
}

/// A served query asks for the key and its text to be encoded, then asks Giphy once, and
/// answers with the first records of the pictures found.
pub proof fn served_query_answers_with_the_records_found(
    plugin: GiphyView,
    max_results: nat,
    free_text: Seq<char>,
    key: Seq<char>,
    text: Seq<char>,
    response: GiphyResponse,
)
    requires
        plugin.api_key is Some,
    ensures
        query_start(plugin, true, free_text) == QueryView::Encode(plugin.api_key->0, free_text),
        query_run(
            plugin,
            max_results,
            query_start(plugin, true, free_text),
            seq![QueryEventView::Encoded(key, text)],
        ) == QueryView::Search(search_address(plugin.base_url, key, text, max_results)),
        query_run(
            plugin,
            max_results,
            query_start(plugin, true, free_text),
            seq![
                QueryEventView::Encoded(key, text),
                QueryEventView::Answered(ExchangeView::Received(response)),
            ],
        ) == QueryView::Done(Ok(first_records(all_search_records(response.data@), max_results))),
{
    reveal_with_fuel(query_run, 3);
    let e1 = QueryEventView::Encoded(key, text);
    let e2 = QueryEventView::Answered(ExchangeView::Received(response));
    assert(seq![e1].drop_last() =~= seq![]);
    assert(seq![e1, e2].drop_last() =~= seq![e1]);
}

/// Once a search is over, nothing that comes in changes its answer.
pub proof fn answer_is_final(
    plugin: GiphyView,
    max_results: nat,
    answer: Result<Seq<RecordView>, ErrorView>,
    events: Seq<QueryEventView>,
)
    ensures
        query_run(plugin, max_results, QueryView::Done(answer), events) == QueryView::Done(
            answer,
        ),
    decreases events.len(),
{
    if events.len() > 0 {
        answer_is_final(plugin, max_results, answer, events.drop_last());
    }
}

/// Whatever comes in, a search never answers with more records than were asked for.
pub proof fn answers_are_never_too_long(
    plugin: GiphyView,
    max_results: nat,
    accepted: bool,
    free_text: Seq<char>,
    events: Seq<QueryEventView>,
)
    ensures
        query_run(plugin, max_results, query_start(plugin, accepted, free_text), events) matches QueryView::Done(
            Ok(records),
        ) ==> records.len() <= max_results,
    decreases events.len(),
{
    if events.len() > 0 {
        answers_are_never_too_long(plugin, max_results, accepted, free_text, events.drop_last());
    }
}

/// What the cache knows is the outcome as the cache gave it, without bytes and record, and
/// nothing is ever asked of Giphy for it, with or without a key.
pub proof fn cached_picture_asks_nothing(
    plugin: GiphyView,
    record_id: Seq<char>,
    hash: Seq<char>,
    events: Seq<ComputeEventView>,
)
    ensures
        compute_run(plugin, record_id, compute_start(plugin, record_id, Ok(Some(hash))), events)
            == ComputeView::Done(Ok(OutcomeView::Cached(hash))),
        OutcomeView::Cached(hash).hash() == hash,
        OutcomeView::Cached(hash).bytes() is None,
        OutcomeView::Cached(hash).record() is None,
{
    outcome_is_final(plugin, record_id, Ok(OutcomeView::Cached(hash)), events);
}

/// Work that has been under way ends with success in one way alone: its hash was to be put
/// into the cache, was put there, and is the hash of the outcome.
pub proof fn outcome_has_the_stored_hash(
    plugin: GiphyView,
    record_id: Seq<char>,
    state: ComputeView,
    event: ComputeEventView,
)
    requires
        !(state is Done),
    ensures
        compute_next(plugin, record_id, state, event) matches ComputeView::Done(Ok(outcome))
            ==> event is Stored && (state matches ComputeView::Store(_, body, hash)
            && outcome.hash() == hash && outcome.bytes() == Some(body) && outcome.record() is Some),
{
}

/// What a cache holds after an event: a hash that was to be put into it is there once that
/// has been done.
pub open spec fn cache_next(
    cache: Map<Seq<char>, Seq<char>>,
    record_id: Seq<char>,
    state: ComputeView,
    event: ComputeEventView,
) -> Map<Seq<char>, Seq<char>> {
    match (state, event) {
        (ComputeView::Store(_, _, hash), ComputeEventView::Stored) => cache.insert(
            record_id,
            hash,
        ),
        _ => cache,
    }
}

/// What a cache holds after the work on a picture has gone through a number of events.
pub open spec fn cache_run(
    plugin: GiphyView,
    record_id: Seq<char>,
    cache: Map<Seq<char>, Seq<char>>,
    start: ComputeView,
    events: Seq<ComputeEventView>,
) -> Map<Seq<char>, Seq<char>>
    decreases events.len(),
{
    if events.len() == 0 {
        cache
    } else {
        cache_next(
            cache_run(plugin, record_id, cache, start, events.drop_last()),
            record_id,
            compute_run(plugin, record_id, start, events.drop_last()),
            events.last(),
        )
    }
}

/// Whatever comes in, where the work on a picture ends with an outcome, the cache holds the hash
/// of that outcome, and what it holds of every other picture is unchanged.
pub proof fn cache_holds_the_hash_of_the_outcome(
    plugin: GiphyView,
    record_id: Seq<char>,
    cache: Map<Seq<char>, Seq<char>>,
    events: Seq<ComputeEventView>,
)
    ensures
        ({
            let start = compute_start(plugin, record_id, Ok(known_hash(cache, record_id)));
            let after = cache_run(plugin, record_id, cache, start, events);
            &&& compute_run(plugin, record_id, start, events) matches ComputeView::Done(Ok(outcome))
                ==> known_hash(after, record_id) == Some(outcome.hash())
            &&& forall|other: Seq<char>|
                other != record_id ==> #[trigger] known_hash(after, other) == known_hash(
                    cache,
                    other,
                )
        }),
    decreases events.len(),
{
    if events.len() > 0 {
        let start = compute_start(plugin, record_id, Ok(known_hash(cache, record_id)));
        let state = compute_run(plugin, record_id, start, events.drop_last());
        let before = cache_run(plugin, record_id, cache, start, events.drop_last());
        let after = cache_run(plugin, record_id, cache, start, events);
        cache_holds_the_hash_of_the_outcome(plugin, record_id, cache, events.drop_last());
        if !(state is Done) {
            outcome_has_the_stored_hash(plugin, record_id, state, events.last());
        }
        assert forall|other: Seq<char>| other != record_id implies #[trigger] known_hash(
            after,
            other,
        ) == known_hash(cache, other) by {
            assert(known_hash(before, other) == known_hash(cache, other));
        }
    }
}

/// Where the work on a picture has come to an outcome, and the cache keeps what is put into it,
/// working on it again comes to the same hash at once, without bytes and record, and asks
/// nothing of Giphy, whatever comes in by then.
pub proof fn second_call_gives_the_same_hash(
    plugin: GiphyView,
    record_id: Seq<char>,
    cache: Map<Seq<char>, Seq<char>>,
    events: Seq<ComputeEventView>,
    outcome: OutcomeView,
    later: Seq<ComputeEventView>,
)
    requires
        compute_run(
            plugin,
            record_id,
            compute_start(plugin, record_id, Ok(known_hash(cache, record_id))),
            events,
        ) == ComputeView::Done(Ok::<OutcomeView, ErrorView>(outcome)),
    ensures
        ({
            let start = compute_start(plugin, record_id, Ok(known_hash(cache, record_id)));
            let after = cache_run(plugin, record_id, cache, start, events);
            let again = compute_start(plugin, record_id, Ok(known_hash(after, record_id)));
            &&& again is Done
            &&& compute_run(plugin, record_id, again, later) matches ComputeView::Done(Ok(second))
            &&& second.hash() == outcome.hash()
            &&& second.bytes() is None
            &&& second.record() is None
        }),
{
    cache_holds_the_hash_of_the_outcome(plugin, record_id, cache, events);
    cached_picture_asks_nothing(plugin, record_id, outcome.hash(), later);
}

/// Where the cache cannot be asked, the work on a picture comes to that error, and nothing is
/// ever asked of Giphy for it, with or without a key.
pub proof fn failed_lookup_asks_nothing(
    plugin: GiphyView,
    record_id: Seq<char>,
    error: ErrorView,
    events: Seq<ComputeEventView>,
)
    ensures
        compute_run(plugin, record_id, compute_start(plugin, record_id, Err(error)), events)
            == ComputeView::Done(Err(error)),
{
    outcome_is_final(plugin, record_id, Err(error), events);
}

/// What holds of the work on a picture at every time: the picture is fetched only from
/// the address of its original form, the bytes that are kept begin as those of a GIF, and
/// a fresh outcome is made of such bytes and the record of a picture.
pub open spec fn work_is_in_bounds(record_id: Seq<char>, state: ComputeView) -> bool {
    match state {
        ComputeView::Encode(_, text) => text == record_id,
        ComputeView::File(gif, url) => original_form(gif) is Some && url
            == original_form(gif)->0.url@,
        ComputeView::Hash(_, body) => is_gif(body),
        ComputeView::Store(_, body, _) => is_gif(body),
        ComputeView::Done(Ok(OutcomeView::Fresh(outcome))) => {
            &&& is_gif(outcome.bytes)
            &&& outcome.file_extension == Some("gif"@)
            &&& exists|gif: GiphyGif| gif_record(gif) == Some(outcome.record)
        },
        _ => true,
    }
}

/// Whatever comes in, the work on a picture stays in bounds: in particular no bytes that
/// are not those of a GIF are ever hashed, stored or handed out.
pub proof fn work_stays_in_bounds(
    plugin: GiphyView,
    record_id: Seq<char>,
    looked_up: Result<Option<Seq<char>>, ErrorView>,
    events: Seq<ComputeEventView>,
)
    ensures
        work_is_in_bounds(
            record_id,
            compute_run(plugin, record_id, compute_start(plugin, record_id, looked_up), events),
        ),
    decreases events.len(),
{
    if events.len() > 0 {
        let start = compute_start(plugin, record_id, looked_up);
        let state = compute_run(plugin, record_id, start, events.drop_last());
        let event = events.last();
        work_stays_in_bounds(plugin, record_id, looked_up, events.drop_last());
        match (state, event) {
            (ComputeView::Store(gif, body, hash), ComputeEventView::Stored) => {
                if let Some(record) = gif_record(gif) {
                    assert(gif_record(gif) == Some(record));
                }
            },
            _ => {},
        }
    }
}

/// An error that the status of a response stands for is the outcome, as it is.
pub proof fn refusal_is_passed_on(
    plugin: GiphyView,
    record_id: Seq<char>,
    max_results: nat,
    url: Seq<char>,
    gif: GiphyGif,
    error: ErrorView,
)
    ensures
        compute_next(
            plugin,
            record_id,
            ComputeView::Detail(url),
            ComputeEventView::Answered(ExchangeView::Refused(error)),
        ) == ComputeView::Done(Err(error)),
        compute_next(
            plugin,
            record_id,
            ComputeView::File(gif, url),
            ComputeEventView::Downloaded(ExchangeView::Refused(error)),
        ) == ComputeView::Done(Err(error)),
        query_next(
            plugin,
            max_results,
            QueryView::Search(url),
            QueryEventView::Answered(ExchangeView::Refused(error)),
        ) == QueryView::Done(Err(error)),
{
}

/// Once the work on a picture is over, nothing that comes in changes what it came to.
pub proof fn outcome_is_final(
    plugin: GiphyView,
    record_id: Seq<char>,
    outcome: Result<OutcomeView, ErrorView>,
    events: Seq<ComputeEventView>,
)
    ensures
        compute_run(plugin, record_id, ComputeView::Done(outcome), events) == ComputeView::Done(
            outcome,
        ),
    decreases events.len(),
{
    if events.len() > 0 {
        outcome_is_final(plugin, record_id, outcome, events.drop_last());
    }
}

/// One more event takes the work one step further.
proof fn lemma_compute_step(
    plugin: GiphyView,
    record_id: Seq<char>,
    start: ComputeView,
    events: Seq<ComputeEventView>,
    event: ComputeEventView,
)
    ensures
        compute_run(plugin, record_id, start, events.push(event)) == compute_next(
            plugin,
            record_id,
            compute_run(plugin, record_id, start, events),
            event,
        ),
        compute_run(plugin, record_id, start, seq![]) == start,
{
    assert(events.push(event).drop_last() =~= events);
}

/// A picture that the cache does not know is looked up, fetched, hashed and stored, in this
/// order, and the outcome holds the hash, the bytes and the record of the picture.
pub proof fn fresh_picture_comes_to_its_outcome(
    plugin: GiphyView,
    record_id: Seq<char>,
    key: Seq<char>,
    text: Seq<char>,
    response: GiphySingleResponse,
    body: Vec<u8>,
    hash: Seq<char>,
)
    requires
        plugin.api_key is Some,
        response.data is Some,
        response.data->0.id is Some,
        original_form(response.data->0) is Some,
        is_gif(body@),
    ensures
        ({
            let gif = response.data->0;
            let start = compute_start(plugin, record_id, Ok(None));
            let e1 = ComputeEventView::Encoded(key, text);
            let e2 = ComputeEventView::Answered(ExchangeView::Received(response));
            let e3 = ComputeEventView::Downloaded(ExchangeView::Received(body));
            let e4 = ComputeEventView::Hashed(hash);
            let e5 = ComputeEventView::Stored;
            &&& start == ComputeView::Encode(plugin.api_key->0, record_id)
            &&& compute_run(plugin, record_id, start, seq![e1]) == ComputeView::Detail(
                detail_address(plugin.base_url, key, text),
            )
            &&& compute_run(plugin, record_id, start, seq![e1, e2]) == ComputeView::File(
                gif,
                original_form(gif)->0.url@,
            )
            &&& compute_run(plugin, record_id, start, seq![e1, e2, e3]) == ComputeView::Hash(
                gif,
                body@,
            )
            &&& compute_run(plugin, record_id, start, seq![e1, e2, e3, e4]) == ComputeView::Store(
                gif,
                body@,
                hash,
            )
            &&& compute_run(plugin, record_id, start, seq![e1, e2, e3, e4, e5])
                == ComputeView::Done(
                Ok(
                    OutcomeView::Fresh(
                        FreshView {
                            hash,
                            bytes: body@,
                            record: gif_record(gif)->0,
                            file_extension: Some("gif"@),
                        },
                    ),
                ),
            )
        }),
{
    let e1 = ComputeEventView::Encoded(key, text);
    let e2 = ComputeEventView::Answered(ExchangeView::Received(response));
    let e3 = ComputeEventView::Downloaded(ExchangeView::Received(body));
    let e4 = ComputeEventView::Hashed(hash);
    let e5 = ComputeEventView::Stored;
    let start = compute_start(plugin, record_id, Ok(None));
    lemma_compute_step(plugin, record_id, start, seq![], e1);
    lemma_compute_step(plugin, record_id, start, seq![e1], e2);
    lemma_compute_step(plugin, record_id, start, seq![e1, e2], e3);
    lemma_compute_step(plugin, record_id, start, seq![e1, e2, e3], e4);
    lemma_compute_step(plugin, record_id, start, seq![e1, e2, e3, e4], e5);
    assert(seq![].push(e1) =~= seq![e1]);
    assert(seq![e1].push(e2) =~= seq![e1, e2]);
    assert(seq![e1, e2].push(e3) =~= seq![e1, e2, e3]);
    assert(seq![e1, e2, e3].push(e4) =~= seq![e1, e2, e3, e4]);
    assert(seq![e1, e2, e3, e4].push(e5) =~= seq![e1, e2, e3, e4, e5]);
}

/// Slashes at the end of the address of the API make no difference.
pub proof fn trailing_slash_makes_no_difference(
    base_url: Seq<char>,
    path: Seq<char>,
    key: Seq<char>,
    extra: Seq<char>,
)
    ensures
        api_address(base_url.push('/'), path, key, extra) == api_address(
            base_url,
            path,
            key,
            extra,
        ),
{
    assert(base_url.push('/').drop_last() =~= base_url);
    assert(without_trailing(base_url.push('/'), '/') == without_trailing(base_url, '/'));
}

} // verus!
