//! The records that the pages of Commons make.

use crate::gateway::{
    first_records, put_field, record_views, upstream_id_field, with_field, DiscoveryRecord,
    RecordView,
};
use crate::text::{decimal, drop_prefix, to_decimal, without_prefix};
use crate::text_map::TextMap;
use crate::wikicommons::pages::{
    ExtValue, MediawikiExtMetadata, MediawikiImageInfo, MediawikiPage,
};
use crate::wikicommons::title::{
    encode_title, encode_title_for_url, extension, file_extension_for, media_type, media_type_for,
};
use vstd::prelude::*;

verus! {

/// What is known of the file behind a page, where there is a file.
pub open spec fn file_info(page: MediawikiPage) -> Option<MediawikiImageInfo> {
    match page.imageinfo {
        Some(infos) => if infos@.len() > 0 {
            Some(infos@[0])
        } else {
            None
        },
        None => None,
    }
}

/// Looks up what is known of the file behind a page.
pub fn file_info_of(page: &MediawikiPage) -> (r: Option<&MediawikiImageInfo>)
    ensures
        r is Some <==> file_info(*page) is Some,
        r matches Some(info) ==> *info == file_info(*page)->0,
{
    match &page.imageinfo {
        Some(infos) => if infos.len() > 0 {
            Some(&infos[0])
        } else {
            None
        },
        None => None,
    }
}

/// The name of a record: the title of its page without the `File:` in front.
pub open spec fn record_name(title: Seq<char>) -> Seq<char> {
    without_prefix(title, "File:"@)
}

/// The text of an entry of the metadata, where there is one.
pub open spec fn metadata_text(value: Option<ExtValue>) -> Option<Seq<char>> {
    match value {
        Some(v) => Some(v.value@),
        None => None,
    }
}

/// The fields that every record has.
pub open spec fn basic_fields(title: Seq<char>, info: MediawikiImageInfo) -> Map<
    Seq<char>,
    Seq<char>,
> {
    let name = record_name(title);
    Map::empty().insert("title"@, name).insert(
        "fileType"@,
        media_type(info.mime.deep_view()),
    ).insert("sourceUrl"@, "https://commons.wikimedia.org/wiki/"@ + encode_title(title)).insert(
        "fileName"@,
        name,
    ).insert("wikicommons"@ + "id"@, name)
}

/// The fields with those that the authors of the file gave values for.
pub open spec fn with_metadata(
    fields: Map<Seq<char>, Seq<char>>,
    metadata: Option<MediawikiExtMetadata>,
) -> Map<Seq<char>, Seq<char>> {
    match metadata {
        None => fields,
        Some(em) => {
            let f1 = with_field(fields, "artist"@, metadata_text(em.artist));
            let f2 = with_field(f1, "license"@, metadata_text(em.license_short_name));
            let f3 = with_field(f2, "description"@, metadata_text(em.image_description));
            let f4 = with_field(f3, "dateOriginal"@, metadata_text(em.date_time_original));
            with_field(f4, "credit"@, metadata_text(em.credit))
        },
    }
}

/// A size in bytes as a record carries it.
pub open spec fn size_text(size: Option<u64>) -> Option<Seq<char>> {
    match size {
        Some(n) => Some(decimal(n as nat)),
        None => None,
    }
}

/// All fields of the record of a file.
pub open spec fn record_fields(title: Seq<char>, info: MediawikiImageInfo) -> Map<
    Seq<char>,
    Seq<char>,
> {
    let f1 = with_field(basic_fields(title, info), "mime"@, info.mime.deep_view());
    let f2 = with_field(f1, "format"@, extension(record_name(title)));
    let f3 = with_field(f2, "size"@, size_text(info.size));
    with_metadata(f3, info.extmetadata)
}

/// The record of a page; there is none where the page has no title or no file.
pub open spec fn page_record(page: MediawikiPage) -> Option<RecordView> {
    match (page.title, file_info(page)) {
        (Some(title), Some(info)) => Some(
            RecordView {
                upstream_id: "wikicommons"@,
                record_id: record_name(title@),
                fields: record_fields(title@, info),
            },
        ),
        _ => None,
    }
}

fn metadata_text_of(value: Option<ExtValue>) -> (r: Option<String>)
    ensures
        r.deep_view() == metadata_text(value),
{
    match value {
        Some(v) => Some(v.value),
        None => None,
    }
}

fn put_metadata(fields: &mut TextMap<String>, metadata: Option<MediawikiExtMetadata>)
    ensures
        final(fields)@ == with_metadata(old(fields)@, metadata),
{
    if let Some(em) = metadata {
        put_field(fields, "artist", metadata_text_of(em.artist));
        put_field(fields, "license", metadata_text_of(em.license_short_name));
        put_field(fields, "description", metadata_text_of(em.image_description));
        put_field(fields, "dateOriginal", metadata_text_of(em.date_time_original));
        put_field(fields, "credit", metadata_text_of(em.credit));
    }
}

/// Makes the record of a page.
pub fn into_discovery_record(page: MediawikiPage) -> (r: Option<DiscoveryRecord>)
    ensures
        r is Some <==> page_record(page) is Some,
        r matches Some(record) ==> record@ == page_record(page)->0,
{
    let title: String = match page.title {
        Some(t) => t,
        None => {
            return None;
        },
    };
    let mut infos: Vec<MediawikiImageInfo> = match page.imageinfo {
        Some(v) => v,
        None => {
            return None;
        },
    };
    if infos.len() == 0 {
        return None;
    }
    let info: MediawikiImageInfo = infos.swap_remove(0);
    let name: String = drop_prefix(title.as_str(), "File:");
    let mut source: String = "https://commons.wikimedia.org/wiki/".to_owned();
    source.append(encode_title_for_url(title.as_str()).as_str());
    let kind: String = match &info.mime {
        Some(m) => media_type_for(Some(m.as_str())),
        None => media_type_for(None),
    };
    let mut fields: TextMap<String> = TextMap::new();
    fields.insert("title".to_owned(), name.clone());
    fields.insert("fileType".to_owned(), kind);
    fields.insert("sourceUrl".to_owned(), source);
    fields.insert("fileName".to_owned(), name.clone());
    fields.insert(upstream_id_field("wikicommons"), name.clone());
    assert(fields@ == basic_fields(title@, info));
    put_field(&mut fields, "mime", info.mime);
    put_field(&mut fields, "format", file_extension_for(name.as_str()));
    let size: Option<String> = match info.size {
        Some(n) => Some(to_decimal(n)),
        None => None,
    };
    put_field(&mut fields, "size", size);
    put_metadata(&mut fields, info.extmetadata);
    Some(DiscoveryRecord { upstream_id: "wikicommons".to_owned(), record_id: name, fields })
}

/// The record of a page among the results of a search: it carries the address of a
/// small picture of the file, where there is one.
pub open spec fn search_record(page: MediawikiPage) -> Option<RecordView> {
    match page_record(page) {
        None => None,
        Some(record) => Some(
            RecordView {
                fields: with_field(
                    record.fields,
                    "preview_url"@,
                    file_info(page)->0.thumburl.deep_view(),
                ),
                ..record
            },
        ),
    }
}

/// The records of those pages that have one, in the order of the pages.
pub open spec fn all_search_records(pages: Seq<MediawikiPage>) -> Seq<RecordView>
    decreases pages.len(),
{
    if pages.len() == 0 {
        seq![]
    } else {
        match search_record(pages.last()) {
            Some(record) => all_search_records(pages.drop_last()).push(record),
            None => all_search_records(pages.drop_last()),
        }
    }
}

/// Makes the record of a page among the results of a search.
pub fn into_search_record(page: MediawikiPage) -> (r: Option<DiscoveryRecord>)
    ensures
        r is Some <==> search_record(page) is Some,
        r matches Some(record) ==> record@ == search_record(page)->0,
{
    let preview: Option<String> = match file_info_of(&page) {
        Some(info) => info.thumburl.clone(),
        None => None,
    };
    match into_discovery_record(page) {
        None => None,
        Some(record) => {
            let mut record: DiscoveryRecord = record;
            put_field(&mut record.fields, "preview_url", preview);
            Some(record)
        },
    }
}

/// Makes the results of a search: a record of each page that has one, in the order
/// of the pages, and no more of them than were asked for.
pub fn into_search_records(pages: Vec<MediawikiPage>, max_results: usize) -> (r: Vec<
    DiscoveryRecord,
>)
    ensures
        record_views(r@) == first_records(all_search_records(pages@), max_results as nat),
{
    let ghost all = pages@;
    let mut out: Vec<DiscoveryRecord> = Vec::new();
    assert(record_views(out@) =~= seq![]);
    for page in it: pages
        invariant
            it.seq() == all,
            record_views(out@) == first_records(
                all_search_records(all.take(it.index())),
                max_results as nat,
            ),
    {
        let ghost before = out@;
        proof {
            assert(all.take(it.index() + 1).drop_last() == all.take(it.index()));
            assert(all.take(it.index() + 1).last() == page);
        }
        if out.len() < max_results {
            if let Some(record) = into_search_record(page) {
                out.push(record);
                assert(record_views(out@) =~= record_views(before).push(record@));
            }
        }
    }
    assert(all.take(all.len() as int) == all);
    out
}

} // verus!
