//! What each field of a record of Giphy holds.

use crate::gateway::RecordView;
use crate::gateway_laws::field_is;
use crate::giphy::gifs::{all_search_records, gif_record, search_record, year, GiphyGif};
use crate::text::is_digit;
use vstd::prelude::*;

verus! {

/// Tells the keys of the fields apart: by their length, their first and their fifth character.
spec fn tag(key: Seq<char>) -> int {
    key.len() * 1000000 + key[0] as int * 1000 + (if key.len() > 4 {
        key[4] as int
    } else {
        0
    })
}

proof fn lemma_tags()
    ensures
        tag("title"@) == 5116101,
        tag("fileType"@) == 8102084,
        tag("contentKind"@) == 11099101,
        tag("sourceUrl"@) == 9115099,
        tag("fileName"@) == 8102078,
        tag("giphyid"@) == 7103121,
        tag("format"@) == 6102097,
        tag("mime"@) == 4109000,
        tag("uploader"@) == 8117097,
        tag("rating"@) == 6114110,
        tag("imported"@) == 8105114,
        tag("year"@) == 4121000,
        tag("size"@) == 4115000,
        tag("width"@) == 5119104,
        tag("height"@) == 6104104,
        tag("preview_url"@) == 11112105,
        "giphy"@ + "id"@ == "giphyid"@,
{
    reveal_strlit("title");
    reveal_strlit("fileType");
    reveal_strlit("contentKind");
    reveal_strlit("sourceUrl");
    reveal_strlit("fileName");
    reveal_strlit("giphy");
    reveal_strlit("id");
    reveal_strlit("giphyid");
    reveal_strlit("format");
    reveal_strlit("mime");
    reveal_strlit("uploader");
    reveal_strlit("rating");
    reveal_strlit("imported");
    reveal_strlit("year");
    reveal_strlit("size");
    reveal_strlit("width");
    reveal_strlit("height");
    reveal_strlit("preview_url");
    assert("giphy"@ + "id"@ =~= "giphyid"@);
}

/// Whether a field holds a text exactly where the text is there and not empty.
pub open spec fn text_is(
    fields: Map<Seq<char>, Seq<char>>,
    key: Seq<char>,
    text: Option<String>,
) -> bool {
    if text is Some && text->0@.len() > 0 {
        field_is(fields, key, Some(text->0@))
    } else {
        field_is(fields, key, None)
    }
}

/// Whether a date begins with four digits.
pub open spec fn begins_with_a_year(date: Seq<char>) -> bool {
    date.len() >= 4 && forall|i: int| 0 <= i < 4 ==> 48 <= #[trigger] date[i] as int <= 57
}

/// Whether a record names its picture: by its identifier, under the title and the address that
/// the picture came with, or else under those made of the identifier.
pub open spec fn names_its_picture(record: RecordView, gif: GiphyGif) -> bool {
    let id = gif.id->0@;
    &&& record.upstream_id == "giphy"@
    &&& record.record_id == id
    &&& field_is(record.fields, "giphyid"@, Some(id))
    &&& field_is(record.fields, "fileName"@, Some("giphy-"@ + id + ".gif"@))
    &&& if gif.title is Some && gif.title->0@.len() > 0 {
        field_is(record.fields, "title"@, Some(gif.title->0@))
    } else {
        field_is(record.fields, "title"@, Some("giphy/"@ + id))
    }
    &&& match gif.url {
        Some(url) => field_is(record.fields, "sourceUrl"@, Some(url@)),
        None => field_is(record.fields, "sourceUrl"@, Some("https://giphy.com/gifs/"@ + id)),
    }
}

/// Whether a record says that it is a GIF.
pub open spec fn is_marked_as_gif(record: RecordView) -> bool {
    &&& field_is(record.fields, "fileType"@, Some("image"@))
    &&& field_is(record.fields, "contentKind"@, Some("gif"@))
    &&& field_is(record.fields, "format"@, Some("gif"@))
    &&& field_is(record.fields, "mime"@, Some("image/gif"@))
}

/// Whether the fields of a record tell of its picture what is known of it, each thing on its
/// own.
pub open spec fn tells_of_its_picture(record: RecordView, gif: GiphyGif) -> bool {
    let fields = record.fields;
    &&& text_is(fields, "uploader"@, gif.username)
    &&& text_is(fields, "rating"@, gif.rating)
    &&& text_is(fields, "imported"@, gif.import_datetime)
    &&& if gif.import_datetime is Some && begins_with_a_year(gif.import_datetime->0@) {
        field_is(fields, "year"@, Some(gif.import_datetime->0@.take(4)))
    } else {
        field_is(fields, "year"@, None)
    }
    &&& if gif.images is Some && gif.images->0.original is Some {
        let form = gif.images->0.original->0;
        &&& text_is(fields, "size"@, form.size)
        &&& text_is(fields, "width"@, form.width)
        &&& text_is(fields, "height"@, form.height)
    } else {
        &&& field_is(fields, "size"@, None)
        &&& field_is(fields, "width"@, None)
        &&& field_is(fields, "height"@, None)
    }
}

/// Whether a key is one of those that a record of Giphy may have.
pub open spec fn is_a_key(key: Seq<char>) -> bool {
    ||| key == "title"@
    ||| key == "fileType"@
    ||| key == "contentKind"@
    ||| key == "sourceUrl"@
    ||| key == "fileName"@
    ||| key == "giphyid"@
    ||| key == "format"@
    ||| key == "mime"@
    ||| key == "uploader"@
    ||| key == "rating"@
    ||| key == "imported"@
    ||| key == "year"@
    ||| key == "size"@
    ||| key == "width"@
    ||| key == "height"@
}

/// A date has a year exactly where it begins with four digits, and the year is those digits.
pub proof fn year_is_four_leading_digits(date: Seq<char>)
    ensures
        year(date) is Some <==> begins_with_a_year(date),
        year(date) matches Some(y) ==> y == date.take(4),
{
    if begins_with_a_year(date) {
        assert(48 <= date[0] as int <= 57 && 48 <= date[1] as int <= 57 && 48 <= date[2] as int
            <= 57 && 48 <= date[3] as int <= 57);
    }
    if year(date) is Some {
        assert forall|i: int| 0 <= i < 4 implies 48 <= #[trigger] date[i] as int <= 57 by {
            assert(is_digit(date[0]) && is_digit(date[1]) && is_digit(date[2]) && is_digit(date[3]));
        }
    }
}

/// A picture makes a record exactly where it has an identifier. The record names the picture,
/// says that it is a GIF, and tells of the picture what is known of it: each field stands there
/// exactly where there is something for it to hold, whatever else is known. It has no other
/// fields.
#[verifier::spinoff_prover]
pub proof fn record_has_its_fields(gif: GiphyGif)
    ensures
        gif_record(gif) is Some <==> gif.id is Some,
        gif_record(gif) matches Some(record) ==> {
            &&& names_its_picture(record, gif)
            &&& is_marked_as_gif(record)
            &&& tells_of_its_picture(record, gif)
            &&& forall|key: Seq<char>| #[trigger]
                record.fields.contains_key(key) ==> is_a_key(key)
        },
{
    lemma_tags();
    if gif.import_datetime is Some {
        year_is_four_leading_digits(gif.import_datetime->0@);
    }
}

/// The record of a search result is that of its picture, and has the address of the small form
/// of the picture exactly where there is one that is not empty.
pub proof fn search_result_adds_a_preview(gif: GiphyGif)
    ensures
        search_record(gif) is Some <==> gif.id is Some,
        search_record(gif) matches Some(record) ==> {
            &&& record.upstream_id == gif_record(gif)->0.upstream_id
            &&& record.record_id == gif_record(gif)->0.record_id
            &&& record.fields.remove("preview_url"@) == gif_record(gif)->0.fields
            &&& if gif.images is Some && gif.images->0.preview_gif is Some
                && gif.images->0.preview_gif->0.url@.len() > 0 {
                field_is(
                    record.fields,
                    "preview_url"@,
                    Some(gif.images->0.preview_gif->0.url@),
                )
            } else {
                field_is(record.fields, "preview_url"@, None)
            }
        },
{
    lemma_tags();
    record_has_its_fields(gif);
    if let Some(record) = search_record(gif) {
        let plain = gif_record(gif)->0.fields;
        assert(!plain.contains_key("preview_url"@)) by {
            if plain.contains_key("preview_url"@) {
                assert(is_a_key("preview_url"@));
            }
        }
        assert(record.fields.remove("preview_url"@) =~= plain);
    }
}

/// Whether `order` lists, one behind the other, the positions of the pictures that have an
/// identifier.
pub open spec fn lists_the_identified(gifs: Seq<GiphyGif>, order: Seq<int>) -> bool {
    &&& forall|i: int| 0 <= i < order.len() ==> 0 <= #[trigger] order[i] < gifs.len()
    &&& forall|i: int, j: int|
        0 <= i < j < order.len() ==> #[trigger] order[i] < #[trigger] order[j]
    &&& forall|p: int|
        0 <= p < gifs.len() ==> ((#[trigger] gifs[p]).id is Some <==> order.contains(p))
}

/// The records of pictures are those of the pictures that have an identifier, each once, in the
/// order of the pictures.
pub proof fn records_are_those_of_the_pictures_in_order(gifs: Seq<GiphyGif>) -> (order: Seq<int>)
    ensures
        lists_the_identified(gifs, order),
        all_search_records(gifs).len() == order.len(),
        forall|i: int|
            0 <= i < order.len() ==> search_record(gifs[#[trigger] order[i]]) == Some(
                all_search_records(gifs)[i],
            ),
    decreases gifs.len(),
{
    if gifs.len() == 0 {
        seq![]
    } else {
        let front = gifs.drop_last();
        let n = front.len() as int;
        let before = records_are_those_of_the_pictures_in_order(front);
        search_result_adds_a_preview(gifs[n]);
        let order = if gifs[n].id is Some {
            before.push(n)
        } else {
            before
        };
        assert forall|p: int| 0 <= p < gifs.len() implies ((#[trigger] gifs[p]).id is Some
            <==> order.contains(p)) by {
            if p < n {
                assert(front[p] == gifs[p]);
                assert(front[p].id is Some <==> before.contains(p));
                if before.contains(p) {
                    let i = choose|i: int| 0 <= i < before.len() && before[i] == p;
                    assert(order[i] == p);
                }
            } else if gifs[n].id is Some {
                assert(order[before.len() as int] == n);
            }
        }
        assert forall|i: int| 0 <= i < order.len() implies search_record(
            gifs[#[trigger] order[i]],
        ) == Some(all_search_records(gifs)[i]) by {
            if i < before.len() {
                assert(order[i] == before[i]);
                assert(front[before[i]] == gifs[order[i]]);
            }
        }
        order
    }
}

} // verus!
