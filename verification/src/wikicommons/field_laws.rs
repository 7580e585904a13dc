//! What each field of a record of Commons holds.

use crate::gateway::RecordView;
use crate::gateway_laws::field_is;
use crate::text::decimal;
use crate::wikicommons::pages::{ExtValue, MediawikiImageInfo, MediawikiPage};
use crate::wikicommons::record::{all_search_records, file_info, page_record, search_record};
use crate::wikicommons::title::{encode_title, extension, media_type};
use vstd::prelude::*;

verus! {

/// Tells the keys of the fields apart: by their length, their first and their fifth character.
spec fn tag(key: Seq<char>) -> int {
    key.len() * 1000000 + key[0] as int * 1000 + (if key.len() > 4 {
        key[4] as int
    } else {
        0
    })
}

proof fn lemma_tags()
    ensures
        tag("title"@) == 5116101,
        tag("fileType"@) == 8102084,
        tag("sourceUrl"@) == 9115099,
        tag("fileName"@) == 8102078,
        tag("wikicommonsid"@) == 13119099,
        tag("mime"@) == 4109000,
        tag("format"@) == 6102097,
        tag("size"@) == 4115000,
        tag("artist"@) == 6097115,
        tag("license"@) == 7108110,
        tag("description"@) == 11100114,
        tag("dateOriginal"@) == 12100079,
        tag("credit"@) == 6099105,
        tag("preview_url"@) == 11112105,
        "wikicommons"@ + "id"@ == "wikicommonsid"@,
{
    reveal_strlit("title");
    reveal_strlit("fileType");
    reveal_strlit("sourceUrl");
    reveal_strlit("fileName");
    reveal_strlit("wikicommons");
    reveal_strlit("id");
    reveal_strlit("wikicommonsid");
    reveal_strlit("mime");
    reveal_strlit("format");
    reveal_strlit("size");
    reveal_strlit("artist");
    reveal_strlit("license");
    reveal_strlit("description");
    reveal_strlit("dateOriginal");
    reveal_strlit("credit");
    reveal_strlit("preview_url");
    assert("wikicommons"@ + "id"@ =~= "wikicommonsid"@);
}

/// Whether a page has a file.
pub open spec fn has_file(page: MediawikiPage) -> bool {
    page.imageinfo is Some && page.imageinfo->0@.len() > 0
}

/// Whether a field holds the text of an entry of the metadata exactly where the entry is
/// there.
pub open spec fn entry_is(
    fields: Map<Seq<char>, Seq<char>>,
    key: Seq<char>,
    entry: Option<ExtValue>,
) -> bool {
    match entry {
        Some(e) => field_is(fields, key, Some(e.value@)),
        None => field_is(fields, key, None),
    }
}

/// Whether a record names its page: by the title without a `File:` in front, in four places.
pub open spec fn names_its_page(record: RecordView, title: Seq<char>) -> bool {
    &&& record.upstream_id == "wikicommons"@
    &&& if "File:"@.is_prefix_of(title) {
        "File:"@ + record.record_id == title
    } else {
        record.record_id == title
    }
    &&& field_is(record.fields, "title"@, Some(record.record_id))
    &&& field_is(record.fields, "fileName"@, Some(record.record_id))
    &&& field_is(record.fields, "wikicommonsid"@, Some(record.record_id))
    &&& field_is(
        record.fields,
        "sourceUrl"@,
        Some("https://commons.wikimedia.org/wiki/"@ + encode_title(title)),
    )
}

/// Whether the fields of a record tell of its file what is known of it, each thing on its own.
pub open spec fn tells_of_its_file(record: RecordView, info: MediawikiImageInfo) -> bool {
    let fields = record.fields;
    &&& match info.mime {
        Some(mime) => field_is(fields, "mime"@, Some(mime@)) && field_is(
            fields,
            "fileType"@,
            Some(media_type(Some(mime@))),
        ),
        None => field_is(fields, "mime"@, None) && field_is(
            fields,
            "fileType"@,
            Some(media_type(None)),
        ),
    }
    &&& field_is(fields, "format"@, extension(record.record_id))
    &&& match info.size {
        Some(size) => field_is(fields, "size"@, Some(decimal(size as nat))),
        None => field_is(fields, "size"@, None),
    }
    &&& match info.extmetadata {
        Some(metadata) => {
            &&& entry_is(fields, "artist"@, metadata.artist)
            &&& entry_is(fields, "license"@, metadata.license_short_name)
            &&& entry_is(fields, "description"@, metadata.image_description)
            &&& entry_is(fields, "dateOriginal"@, metadata.date_time_original)
            &&& entry_is(fields, "credit"@, metadata.credit)
        },
        None => {
            &&& field_is(fields, "artist"@, None)
            &&& field_is(fields, "license"@, None)
            &&& field_is(fields, "description"@, None)
            &&& field_is(fields, "dateOriginal"@, None)
            &&& field_is(fields, "credit"@, None)
        },
    }
}

/// Whether a key is one of those that a record of Commons may have.
pub open spec fn is_a_key(key: Seq<char>) -> bool {
    ||| key == "title"@
    ||| key == "fileType"@
    ||| key == "sourceUrl"@
    ||| key == "fileName"@
    ||| key == "wikicommonsid"@
    ||| key == "mime"@
    ||| key == "format"@
    ||| key == "size"@
    ||| key == "artist"@
    ||| key == "license"@
    ||| key == "description"@
    ||| key == "dateOriginal"@
    ||| key == "credit"@
}

/// A page makes a record exactly where it has a title and a file. The record names the page and
/// tells of the first file what is known of it: each field stands there exactly where there is
/// something for it to hold, whatever else is known. It has no other fields.
#[verifier::spinoff_prover]
pub proof fn record_has_its_fields(page: MediawikiPage)
    ensures
        page_record(page) is Some <==> page.title is Some && has_file(page),
        page_record(page) matches Some(record) ==> {
            &&& names_its_page(record, page.title->0@)
            &&& tells_of_its_file(record, page.imageinfo->0@[0])
            &&& forall|key: Seq<char>| #[trigger]
                record.fields.contains_key(key) ==> is_a_key(key)
        },
{
    lemma_tags();
    if page_record(page) is Some {
        let title = page.title->0@;
        assert(file_info(page) == Some(page.imageinfo->0@[0]));
        if "File:"@.is_prefix_of(title) {
            assert("File:"@ + page_record(page)->0.record_id =~= title);
        }
    }
}

/// The record of a search result is that of its page, and has the address of the small picture
/// of the first file exactly where there is one.
pub proof fn search_result_adds_a_preview(page: MediawikiPage)
    ensures
        search_record(page) is Some <==> page_record(page) is Some,
        search_record(page) matches Some(record) ==> {
            &&& record.upstream_id == page_record(page)->0.upstream_id
            &&& record.record_id == page_record(page)->0.record_id
            &&& record.fields.remove("preview_url"@) == page_record(page)->0.fields
            &&& match page.imageinfo->0@[0].thumburl {
                Some(url) => field_is(record.fields, "preview_url"@, Some(url@)),
                None => field_is(record.fields, "preview_url"@, None),
            }
        },
{
    lemma_tags();
    record_has_its_fields(page);
    if let Some(record) = search_record(page) {
        let plain = page_record(page)->0.fields;
        assert(!plain.contains_key("preview_url"@)) by {
            if plain.contains_key("preview_url"@) {
                assert(is_a_key("preview_url"@));
            }
        }
        assert(record.fields.remove("preview_url"@) =~= plain);
    }
}

/// Whether `order` lists, one behind the other, the positions of the pages that make a record.
pub open spec fn lists_the_recorded(pages: Seq<MediawikiPage>, order: Seq<int>) -> bool {
    &&& forall|i: int| 0 <= i < order.len() ==> 0 <= #[trigger] order[i] < pages.len()
    &&& forall|i: int, j: int|
        0 <= i < j < order.len() ==> #[trigger] order[i] < #[trigger] order[j]
    &&& forall|p: int|
        0 <= p < pages.len() ==> (search_record(#[trigger] pages[p]) is Some <==> order.contains(
            p,
        ))
}

/// The records of pages are those of the pages that make one, each once, in the order of the
/// pages.
pub proof fn records_are_those_of_the_pages_in_order(pages: Seq<MediawikiPage>) -> (order: Seq<int>)
    ensures
        lists_the_recorded(pages, order),
        all_search_records(pages).len() == order.len(),
        forall|i: int|
            0 <= i < order.len() ==> search_record(pages[#[trigger] order[i]]) == Some(
                all_search_records(pages)[i],
            ),
    decreases pages.len(),
{
    if pages.len() == 0 {
        seq![]
    } else {
        let front = pages.drop_last();
        let n = front.len() as int;
        let before = records_are_those_of_the_pages_in_order(front);
        let order = if search_record(pages[n]) is Some {
            before.push(n)
        } else {
            before
        };
        assert forall|p: int| 0 <= p < pages.len() implies (search_record(
            #[trigger] pages[p],
        ) is Some <==> order.contains(p)) by {
            if p < n {
                assert(front[p] == pages[p]);
                assert(search_record(front[p]) is Some <==> before.contains(p));
                if before.contains(p) {
                    let i = choose|i: int| 0 <= i < before.len() && before[i] == p;
                    assert(order[i] == p);
                }
            } else if search_record(pages[n]) is Some {
                assert(order[before.len() as int] == n);
            }
        }
        assert forall|i: int| 0 <= i < order.len() implies search_record(
            pages[#[trigger] order[i]],
        ) == Some(all_search_records(pages)[i]) by {
            if i < before.len() {
                assert(order[i] == before[i]);
                assert(front[before[i]] == pages[order[i]]);
            }
        }
        order
    }
}

} // verus!
