//! What holds of every record of Commons.

use crate::gateway::{first_records, RecordView};
use crate::wikicommons::file_types;
use crate::wikicommons::pages::MediawikiPage;
use crate::wikicommons::record::{
    all_search_records, file_info, page_record, record_name, search_record,
};
use crate::wikicommons::title::{encode_title, media_type};
use crate::wikicommons::title_laws::media_type_is_a_known_kind;
use vstd::prelude::*;

verus! {

/// The name of a record with `File:` in front of it is the title of its page.
pub proof fn name_gives_back_the_title(title: Seq<char>)
    requires
        "File:"@.is_prefix_of(title),
    ensures
        "File:"@ + record_name(title) == title,
{
    assert("File:"@ + record_name(title) =~= title);
}

/// The keys of the fields of a record are different texts.
proof fn lemma_keys_differ()
    ensures
        forall|k: Seq<char>|
            #![trigger is_later_key(k)]
            is_later_key(k) ==> k != "title"@ && k != "fileType"@ && k != "sourceUrl"@ && k
                != "fileName"@ && k != "wikicommons"@ + "id"@ && k != "contentKind"@,
        is_later_key("mime"@),
        is_later_key("format"@),
        is_later_key("size"@),
        is_later_key("artist"@),
        is_later_key("license"@),
        is_later_key("description"@),
        is_later_key("dateOriginal"@),
        is_later_key("credit"@),
        is_later_key("preview_url"@),
        "title"@ != "fileType"@,
        "title"@ != "sourceUrl"@,
        "title"@ != "fileName"@,
        "title"@ != "wikicommons"@ + "id"@,
        "title"@ != "contentKind"@,
        "fileType"@ != "sourceUrl"@,
        "fileType"@ != "fileName"@,
        "fileType"@ != "wikicommons"@ + "id"@,
        "fileType"@ != "contentKind"@,
        "sourceUrl"@ != "fileName"@,
        "sourceUrl"@ != "wikicommons"@ + "id"@,
        "sourceUrl"@ != "contentKind"@,
        "fileName"@ != "wikicommons"@ + "id"@,
        "fileName"@ != "contentKind"@,
        "wikicommons"@ + "id"@ != "contentKind"@,
        "preview_url"@ != "title"@,
        "preview_url"@ != "mime"@,
        "preview_url"@ != "format"@,
        "preview_url"@ != "size"@,
        "preview_url"@ != "artist"@,
        "preview_url"@ != "license"@,
        "preview_url"@ != "description"@,
        "preview_url"@ != "dateOriginal"@,
        "preview_url"@ != "credit"@,
{
    reveal_strlit("title");
    reveal_strlit("fileType");
    reveal_strlit("sourceUrl");
    reveal_strlit("fileName");
    reveal_strlit("wikicommons");
    reveal_strlit("id");
    reveal_strlit("contentKind");
    reveal_strlit("mime");
    reveal_strlit("format");
    reveal_strlit("size");
    reveal_strlit("artist");
    reveal_strlit("license");
    reveal_strlit("description");
    reveal_strlit("dateOriginal");
    reveal_strlit("credit");
    reveal_strlit("preview_url");
    assert("title"@.len() == 5);
    assert("fileType"@.len() == 8);
    assert("sourceUrl"@.len() == 9);
    assert("fileName"@.len() == 8);
    assert("wikicommons"@.len() == 11);
    assert("id"@.len() == 2);
    assert("contentKind"@.len() == 11);
    assert("mime"@.len() == 4);
    assert("format"@.len() == 6);
    assert("size"@.len() == 4);
    assert("artist"@.len() == 6);
    assert("license"@.len() == 7);
    assert("description"@.len() == 11);
    assert("dateOriginal"@.len() == 12);
    assert("credit"@.len() == 6);
    assert("preview_url"@.len() == 11);
    assert(("wikicommons"@ + "id"@).len() == 13);
    assert("fileType"@[4] == 'T' && "fileName"@[4] == 'N');
    assert("description"@[0] == 'd' && "preview_url"@[0] == 'p' && "contentKind"@[0] == 'c');
}

spec fn is_later_key(k: Seq<char>) -> bool {
    k == "mime"@ || k == "format"@ || k == "size"@ || k == "artist"@ || k == "license"@ || k
        == "description"@ || k == "dateOriginal"@ || k == "credit"@ || k == "preview_url"@
}

/// Whether the fields of a record say what it is: its title, its file name and its
/// identifier are its name, it says what kind of medium it is and where its page is,
/// and it tells no finer kinds of content apart.
pub open spec fn says_what_it_is(record: RecordView, page: MediawikiPage) -> bool {
    &&& page.title is Some
    &&& file_info(page) is Some
    &&& record.upstream_id == "wikicommons"@
    &&& record.record_id == record_name(page.title->0@)
    &&& record.fields.contains_pair("title"@, record.record_id)
    &&& record.fields.contains_pair("fileName"@, record.record_id)
    &&& record.fields.contains_pair("wikicommons"@ + "id"@, record.record_id)
    &&& record.fields.contains_pair(
        "fileType"@,
        media_type(file_info(page)->0.mime.deep_view()),
    )
    &&& record.fields.contains_pair(
        "sourceUrl"@,
        "https://commons.wikimedia.org/wiki/"@ + encode_title(page.title->0@),
    )
    &&& !record.fields.contains_key("contentKind"@)
}

/// Every record of Commons says what it is, whatever else is known of its file.
pub proof fn every_record_says_what_it_is(page: MediawikiPage)
    ensures
        page_record(page) matches Some(record) ==> says_what_it_is(record, page),
        search_record(page) matches Some(record) ==> says_what_it_is(record, page),
{
    lemma_keys_differ();
}

/// Every record of Commons is of one of the kinds that the plugin serves.
pub proof fn every_record_is_of_a_served_kind(page: MediawikiPage)
    ensures
        search_record(page) matches Some(record) ==> file_types().contains(
            record.fields["fileType"@],
        ),
{
    every_record_says_what_it_is(page);
    media_type_is_a_known_kind(file_info(page)->0.mime.deep_view());
}

/// A record of a search result carries a preview exactly where the file has a small
/// picture, and a record that was looked up carries none.
pub proof fn preview_is_that_of_the_file(page: MediawikiPage)
    ensures
        page_record(page) matches Some(record) ==> !record.fields.contains_key("preview_url"@),
        search_record(page) matches Some(record) ==> match file_info(page)->0.thumburl {
            Some(url) => record.fields.contains_pair("preview_url"@, url@),
            None => !record.fields.contains_key("preview_url"@),
        },
{
    lemma_keys_differ();
}

/// The results of a search are no more than were asked for, and each is the record of
/// one of the pages found.
pub proof fn results_are_records_of_the_pages(pages: Seq<MediawikiPage>, max_results: nat)
    ensures
        first_records(all_search_records(pages), max_results).len() <= max_results,
        forall|i: int|
            0 <= i < first_records(all_search_records(pages), max_results).len() ==> exists|p: int|
                0 <= p < pages.len() && search_record(#[trigger] pages[p]) == Some(
                    #[trigger] first_records(all_search_records(pages), max_results)[i],
                ),
{
    let all = all_search_records(pages);
    let out = first_records(all, max_results);
    assert forall|i: int| 0 <= i < out.len() implies exists|p: int|
        0 <= p < pages.len() && search_record(#[trigger] pages[p]) == Some(#[trigger] out[i]) by {
        assert(out[i] == all[i]);
        lemma_source_page(pages, i);
    }
}

proof fn lemma_source_page(pages: Seq<MediawikiPage>, i: int)
    requires
        0 <= i < all_search_records(pages).len(),
    ensures
        exists|p: int|
            0 <= p < pages.len() && search_record(#[trigger] pages[p]) == Some(
                all_search_records(pages)[i],
            ),
    decreases pages.len(),
{
    let front = pages.drop_last();
    if i < all_search_records(front).len() {
        lemma_source_page(front, i);
        let p = choose|p: int|
            0 <= p < front.len() && search_record(#[trigger] front[p]) == Some(
                all_search_records(front)[i],
            );
        assert(pages[p] == front[p]);
    } else {
        assert(search_record(pages[pages.len() - 1]) == Some(all_search_records(pages)[i]));
    }
}

/// The results of a search stand in the order of the pages that they are records of.
pub proof fn results_keep_the_order_of_the_pages(
    pages: Seq<MediawikiPage>,
    max_results: nat,
    i: int,
    j: int,
)
    requires
        0 <= i < j < first_records(all_search_records(pages), max_results).len(),
    ensures
        exists|p: int, q: int|
            0 <= p < q < pages.len() && search_record(#[trigger] pages[p]) == Some(
                first_records(all_search_records(pages), max_results)[i],
            ) && search_record(#[trigger] pages[q]) == Some(
                first_records(all_search_records(pages), max_results)[j],
            ),
{
    lemma_sources_in_order(pages, i, j);
}

proof fn lemma_sources_in_order(pages: Seq<MediawikiPage>, i: int, j: int)
    requires
        0 <= i < j < all_search_records(pages).len(),
    ensures
        exists|p: int, q: int|
            0 <= p < q < pages.len() && search_record(#[trigger] pages[p]) == Some(
                all_search_records(pages)[i],
            ) && search_record(#[trigger] pages[q]) == Some(all_search_records(pages)[j]),
    decreases pages.len(),
{
    let front = pages.drop_last();
    if j < all_search_records(front).len() {
        lemma_sources_in_order(front, i, j);
        let (p, q) = choose|p: int, q: int|
            0 <= p < q < front.len() && search_record(#[trigger] front[p]) == Some(
                all_search_records(front)[i],
            ) && search_record(#[trigger] front[q]) == Some(all_search_records(front)[j]);
        assert(pages[p] == front[p] && pages[q] == front[q]);
    } else {
        lemma_source_page(front, i);
        let p = choose|p: int|
            0 <= p < front.len() && search_record(#[trigger] front[p]) == Some(
                all_search_records(front)[i],
            );
        assert(pages[p] == front[p]);
        assert(search_record(pages[pages.len() - 1]) == Some(all_search_records(pages)[j]));
    }
}

/// Where no more records are found than were asked for, no page that has a record is left
/// out of the results.
pub proof fn no_result_is_left_out(pages: Seq<MediawikiPage>, max_results: nat, p: int)
    requires
        all_search_records(pages).len() <= max_results,
        0 <= p < pages.len(),
    ensures
        search_record(pages[p]) matches Some(record) ==> first_records(
            all_search_records(pages),
            max_results,
        ).contains(record),
    decreases pages.len(),
{
    let all = all_search_records(pages);
    let front = pages.drop_last();
    if let Some(record) = search_record(pages[p]) {
        if p < front.len() {
            no_result_is_left_out(front, max_results, p);
            assert(front[p] == pages[p]);
            let i = choose|i: int|
                0 <= i < all_search_records(front).len() && all_search_records(front)[i] == record;
            assert(all[i] == record);
        } else {
            assert(all[all.len() - 1] == record);
        }
    }
}

} // verus!
