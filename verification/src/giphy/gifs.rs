//! The responses of the Giphy API, as far as the feeder reads them, and the records
//! that they make.

use crate::gateway::{
    first_records, put_field, record_views, upstream_id_field, with_field, DiscoveryRecord,
    RecordView,
};
use crate::text::{chars_of, is_digit, text_between};
use crate::text_map::TextMap;
use vstd::prelude::*;

verus! {

/// The answer to a search.
pub struct GiphyResponse {
    pub data: Vec<GiphyGif>,
}

/// The answer to the lookup of one picture.
pub struct GiphySingleResponse {
    pub data: Option<GiphyGif>,
}

/// What is known of a picture.
pub struct GiphyGif {
    pub id: Option<String>,
    pub title: Option<String>,
    pub url: Option<String>,
    pub username: Option<String>,
    pub rating: Option<String>,
    pub import_datetime: Option<String>,
    pub images: Option<GiphyImages>,
}

/// The forms in which a picture can be had.
pub struct GiphyImages {
    pub original: Option<GiphyImageVariant>,
    /// A small form of the picture.
    pub preview_gif: Option<GiphyImageVariant>,
}

/// One form of a picture.
pub struct GiphyImageVariant {
    pub url: String,
    pub width: Option<String>,
    pub height: Option<String>,
    pub size: Option<String>,
}

/// A text, where it is there and not empty.
pub open spec fn nonempty(text: Option<Seq<char>>) -> Option<Seq<char>> {
    match text {
        Some(t) => if t.len() > 0 {
            Some(t)
        } else {
            None
        },
        None => None,
    }
}

fn to_nonempty(text: Option<String>) -> (r: Option<String>)
    ensures
        r.deep_view() == nonempty(text.deep_view()),
{
    match text {
        Some(t) => if t.as_str().is_empty() {
            None
        } else {
            Some(t)
        },
        None => None,
    }
}

/// The original form of a picture, where there is one.
pub open spec fn original_form(gif: GiphyGif) -> Option<GiphyImageVariant> {
    match gif.images {
        Some(images) => images.original,
        None => None,
    }
}

/// The year that a date begins with: its first four characters, where they are
/// digits.
pub open spec fn year(date: Seq<char>) -> Option<Seq<char>> {
    if date.len() >= 4 && is_digit(date[0]) && is_digit(date[1]) && is_digit(date[2]) && is_digit(
        date[3],
    ) {
        Some(date.take(4))
    } else {
        None
    }
}

fn year_of(date: &str) -> (r: Option<String>)
    ensures
        r.deep_view() == year(date@),
{
    let chars: Vec<char> = chars_of(date);
    if chars.len() < 4 {
        return None;
    }
    let mut i: usize = 0;
    while i < 4
        invariant
            i <= 4 <= chars@.len(),
            chars@ == date@,
            forall|k: int| 0 <= k < i ==> is_digit(#[trigger] chars@[k]),
        decreases 4 - i,
    {
        if !('0' <= chars[i] && chars[i] <= '9') {
            assert(!is_digit(date@[i as int]));
            return None;
        }
        i += 1;
    }
    Some(text_between(&chars, 0, 4))
}

/// The title of a record: that of the picture, or else one made of its identifier.
pub open spec fn record_title(id: Seq<char>, title: Option<Seq<char>>) -> Seq<char> {
    match nonempty(title) {
        Some(t) => t,
        None => "giphy/"@ + id,
    }
}

/// Where a picture can be looked at: the address that it came with, or else the one
/// made of its identifier.
pub open spec fn source_url(id: Seq<char>, url: Option<Seq<char>>) -> Seq<char> {
    match url {
        Some(u) => u,
        None => "https://giphy.com/gifs/"@ + id,
    }
}

/// The fields that every record has.
pub open spec fn basic_fields(id: Seq<char>, gif: GiphyGif) -> Map<Seq<char>, Seq<char>> {
    Map::empty().insert("title"@, record_title(id, gif.title.deep_view())).insert(
        "fileType"@,
        "image"@,
    ).insert("contentKind"@, "gif"@).insert("sourceUrl"@, source_url(id, gif.url.deep_view())).insert(
        "fileName"@,
        "giphy-"@ + id + ".gif"@,
    ).insert("giphy"@ + "id"@, id).insert("format"@, "gif"@).insert("mime"@, "image/gif"@)
}

/// The fields with the date of the picture and its year.
pub open spec fn with_date(
    fields: Map<Seq<char>, Seq<char>>,
    date: Option<Seq<char>>,
) -> Map<Seq<char>, Seq<char>> {
    match nonempty(date) {
        None => fields,
        Some(d) => with_field(fields.insert("imported"@, d), "year"@, year(d)),
    }
}

/// The fields with the measures of the original form of the picture.
pub open spec fn with_measures(
    fields: Map<Seq<char>, Seq<char>>,
    original: Option<GiphyImageVariant>,
) -> Map<Seq<char>, Seq<char>> {
    match original {
        None => fields,
        Some(form) => {
            let f1 = with_field(fields, "size"@, nonempty(form.size.deep_view()));
            let f2 = with_field(f1, "width"@, nonempty(form.width.deep_view()));
            with_field(f2, "height"@, nonempty(form.height.deep_view()))
        },
    }
}

/// All fields of the record of a picture.
pub open spec fn record_fields(id: Seq<char>, gif: GiphyGif) -> Map<Seq<char>, Seq<char>> {
    let f1 = with_field(
        basic_fields(id, gif),
        "uploader"@,
        nonempty(gif.username.deep_view()),
    );
    let f2 = with_field(f1, "rating"@, nonempty(gif.rating.deep_view()));
    let f3 = with_date(f2, gif.import_datetime.deep_view());
    with_measures(f3, original_form(gif))
}

/// The record of a picture; there is none where it has no identifier.
pub open spec fn gif_record(gif: GiphyGif) -> Option<RecordView> {
    match gif.id {
        Some(id) => Some(
            RecordView {
                upstream_id: "giphy"@,
                record_id: id@,
                fields: record_fields(id@, gif),
            },
        ),
        None => None,
    }
}

fn put_date(fields: &mut TextMap<String>, date: Option<String>)
    ensures
        final(fields)@ == with_date(old(fields)@, date.deep_view()),
{
    if let Some(d) = to_nonempty(date) {
        let y: Option<String> = year_of(d.as_str());
        fields.insert("imported".to_owned(), d);
        put_field(fields, "year", y);
    }
}

fn put_measures(fields: &mut TextMap<String>, original: Option<GiphyImageVariant>)
    ensures
        final(fields)@ == with_measures(old(fields)@, original),
{
    if let Some(form) = original {
        put_field(fields, "size", to_nonempty(form.size));
        put_field(fields, "width", to_nonempty(form.width));
        put_field(fields, "height", to_nonempty(form.height));
    }
}

/// Makes the record of a picture.
pub fn into_discovery_record(gif: GiphyGif) -> (r: Option<DiscoveryRecord>)
    ensures
        r is Some <==> gif_record(gif) is Some,
        r matches Some(record) ==> record@ == gif_record(gif)->0,
{
    let id: String = match gif.id {
        Some(id) => id,
        None => {
            return None;
        },
    };
    let title: String = match to_nonempty(gif.title) {
        Some(t) => t,
        None => {
            let mut t: String = "giphy/".to_owned();
            t.append(id.as_str());
            t
        },
    };
    let source: String = match gif.url {
        Some(u) => u,
        None => {
            let mut u: String = "https://giphy.com/gifs/".to_owned();
            u.append(id.as_str());
            u
        },
    };
    let mut file_name: String = "giphy-".to_owned();
    file_name.append(id.as_str());
    file_name.append(".gif");
    let original: Option<GiphyImageVariant> = match gif.images {
        Some(images) => images.original,
        None => None,
    };
    let mut fields: TextMap<String> = TextMap::new();
    fields.insert("title".to_owned(), title);
    fields.insert("fileType".to_owned(), "image".to_owned());
    fields.insert("contentKind".to_owned(), "gif".to_owned());
    fields.insert("sourceUrl".to_owned(), source);
    fields.insert("fileName".to_owned(), file_name);
    fields.insert(upstream_id_field("giphy"), id.clone());
    fields.insert("format".to_owned(), "gif".to_owned());
    fields.insert("mime".to_owned(), "image/gif".to_owned());
    assert(fields@ == basic_fields(id@, gif));
    put_field(&mut fields, "uploader", to_nonempty(gif.username));
    put_field(&mut fields, "rating", to_nonempty(gif.rating));
    put_date(&mut fields, gif.import_datetime);
    put_measures(&mut fields, original);
    Some(DiscoveryRecord { upstream_id: "giphy".to_owned(), record_id: id, fields })
}

/// The address of the small form of a picture, where there is one and its address is
/// not empty.
pub open spec fn preview_url(gif: GiphyGif) -> Option<Seq<char>> {
    match gif.images {
        Some(images) => match images.preview_gif {
            Some(form) => nonempty(Some(form.url@)),
            None => None,
        },
        None => None,
    }
}

/// The record of a picture among the results of a search: it carries the address of
/// the small form of the picture, where there is one.
pub open spec fn search_record(gif: GiphyGif) -> Option<RecordView> {
    match gif_record(gif) {
        None => None,
        Some(record) => Some(
            RecordView {
                fields: with_field(record.fields, "preview_url"@, preview_url(gif)),
                ..record
            },
        ),
    }
}

/// The records of those pictures that have one, in the order of the pictures.
pub open spec fn all_search_records(gifs: Seq<GiphyGif>) -> Seq<RecordView>
    decreases gifs.len(),
{
    if gifs.len() == 0 {
        seq![]
    } else {
        match search_record(gifs.last()) {
            Some(record) => all_search_records(gifs.drop_last()).push(record),
            None => all_search_records(gifs.drop_last()),
        }
    }
}

/// Makes the record of a picture among the results of a search.
pub fn into_search_record(gif: GiphyGif) -> (r: Option<DiscoveryRecord>)
    ensures
        r is Some <==> search_record(gif) is Some,
        r matches Some(record) ==> record@ == search_record(gif)->0,
{
    let preview: Option<String> = match &gif.images {
        Some(images) => match &images.preview_gif {
            Some(form) => to_nonempty(Some(form.url.clone())),
            None => None,
        },
        None => None,
    };
    match into_discovery_record(gif) {
        None => None,
        Some(record) => {
            let mut record: DiscoveryRecord = record;
            put_field(&mut record.fields, "preview_url", preview);
            Some(record)
        },
    }
}

/// Makes the results of a search: a record of each picture that has one, in the order
/// of the pictures, and no more of them than were asked for.
pub fn into_search_records(gifs: Vec<GiphyGif>, max_results: usize) -> (r: Vec<DiscoveryRecord>)
    ensures
        record_views(r@) == first_records(all_search_records(gifs@), max_results as nat),
{
    let ghost all = gifs@;
    let mut out: Vec<DiscoveryRecord> = Vec::new();
    assert(record_views(out@) =~= seq![]);
    for gif in it: gifs
        invariant
            it.seq() == all,
            record_views(out@) == first_records(
                all_search_records(all.take(it.index())),
                max_results as nat,
            ),
    {
        let ghost before = out@;
        proof {
            assert(all.take(it.index() + 1).drop_last() == all.take(it.index()));
            assert(all.take(it.index() + 1).last() == gif);
            assert(out@.len() == record_views(out@).len());
        }
        if out.len() < max_results {
            if let Some(record) = into_search_record(gif) {
                out.push(record);
                assert(record_views(out@) =~= record_views(before).push(record@));
            }
        }
    }
    assert(all.take(all.len() as int) == all);
    out
}

} // verus!
