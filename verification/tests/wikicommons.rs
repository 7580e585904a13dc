use common_feeder::gateway::{Exchange, GatewayError, GatewayQuery, HashOutcome, PluginHealth};
use common_feeder::text_map::TextMap;
use common_feeder::wikicommons::compute::{ComputeEvent, ComputeState};
use common_feeder::wikicommons::filetype::mediawiki_filetype_clause;
use common_feeder::wikicommons::pages::{
    ExtValue, MediawikiExtMetadata, MediawikiImageInfo, MediawikiPage, MediawikiQuery,
    MediawikiResponse,
};
use common_feeder::wikicommons::query::{QueryEvent, QueryState};
use common_feeder::wikicommons::record::into_discovery_record;
use common_feeder::wikicommons::{user_agent, WikicommonsPlugin, MAX_FILE_BYTES};
use serde_json::Value;

const SAMPLE_SEARCH: &str = r#"{
  "batchcomplete": "",
  "query": {
    "pages": {
      "1": {
        "pageid": 1,
        "ns": 6,
        "title": "File:Sunrise over the sea.jpg",
        "index": 1,
        "imageinfo": [
          {
            "url": "https://upload.wikimedia.org/wikipedia/commons/a/ab/Sunrise_over_the_sea.jpg",
            "mime": "image/jpeg",
            "size": 234567,
            "extmetadata": {
              "Artist":           { "value": "Jane Doe", "source": "commons" },
              "LicenseShortName": { "value": "CC BY-SA 4.0", "source": "commons" },
              "ImageDescription": { "value": "A sunrise photographed off the coast.", "source": "commons" },
              "DateTimeOriginal": { "value": "2023-08-12 06:14:00", "source": "exif" },
              "Credit":           { "value": "Own work", "source": "commons" }
            }
          }
        ]
      },
      "2": {
        "pageid": 2,
        "ns": 6,
        "title": "File:Echinacea_purpurea.jpg",
        "index": 2,
        "imageinfo": [
          {
            "url": "https://upload.wikimedia.org/wikipedia/commons/x/yz/Echinacea_purpurea.jpg",
            "mime": "image/jpeg",
            "size": 145000
          }
        ]
      }
    }
  }
}"#;

fn text(v: &Value) -> Option<String> {
    v.as_str().map(str::to_string)
}

fn ext(v: &Value) -> Option<ExtValue> {
    v.as_object().map(|o| ExtValue {
        value: text(&o["value"]).unwrap_or_default(),
    })
}

fn info(v: &Value) -> MediawikiImageInfo {
    let em = &v["extmetadata"];
    MediawikiImageInfo {
        url: text(&v["url"]).expect("url"),
        mime: text(&v["mime"]),
        size: v["size"].as_u64(),
        thumburl: text(&v["thumburl"]),
        extmetadata: em.as_object().map(|_| MediawikiExtMetadata {
            artist: ext(&em["Artist"]),
            license_short_name: ext(&em["LicenseShortName"]),
            image_description: ext(&em["ImageDescription"]),
            date_time_original: ext(&em["DateTimeOriginal"]),
            credit: ext(&em["Credit"]),
        }),
    }
}

fn page(v: &Value) -> MediawikiPage {
    MediawikiPage {
        pageid: v["pageid"].as_u64(),
        title: text(&v["title"]),
        index: v["index"].as_u64().map(|i| i as u32),
        imageinfo: v["imageinfo"]
            .as_array()
            .map(|infos| infos.iter().map(info).collect()),
    }
}

/// The pages come in the reverse of the order of their keys, so that an order that is
/// right cannot be right by accident.
fn response(json: &str) -> MediawikiResponse {
    let v: Value = serde_json::from_str(json).expect("parse");
    MediawikiResponse {
        query: v["query"]["pages"].as_object().map(|pages| MediawikiQuery {
            pages: pages.values().rev().map(page).collect(),
        }),
    }
}

fn bare_page(title: &str, index: Option<u32>) -> MediawikiPage {
    MediawikiPage {
        pageid: Some(7),
        title: Some(title.to_string()),
        index,
        imageinfo: Some(vec![bare_info(None)]),
    }
}

fn bare_info(size: Option<u64>) -> MediawikiImageInfo {
    MediawikiImageInfo {
        url: "https://upload.example/f".to_string(),
        mime: None,
        size,
        thumburl: None,
        extmetadata: None,
    }
}

fn found(pages: Vec<MediawikiPage>) -> MediawikiResponse {
    MediawikiResponse {
        query: Some(MediawikiQuery { pages }),
    }
}

fn empty_gateway_query() -> GatewayQuery {
    GatewayQuery {
        filters: TextMap::new(),
    }
}

fn query_for(types: &[&str]) -> GatewayQuery {
    let mut q = empty_gateway_query();
    q.filters.insert(
        "fileType".into(),
        types.iter().map(|t| t.to_string()).collect(),
    );
    q
}

#[test]
fn mediawiki_filetype_clause_returns_none_for_unfiltered_query() {
    assert_eq!(mediawiki_filetype_clause(&empty_gateway_query()), None);
}

#[test]
fn mediawiki_filetype_clause_maps_video() {
    let mut q = empty_gateway_query();
    q.filters.insert("fileType".into(), vec!["video".into()]);
    assert_eq!(
        mediawiki_filetype_clause(&q),
        Some("filetype:video".to_string())
    );
}

#[test]
fn mediawiki_filetype_clause_maps_image_to_bitmap_and_drawing() {
    let mut q = empty_gateway_query();
    q.filters.insert("fileType".into(), vec!["image".into()]);
    assert_eq!(
        mediawiki_filetype_clause(&q),
        Some("filetype:bitmap|drawing".to_string())
    );
}

#[test]
fn mediawiki_filetype_clause_ors_multiple_requested_types() {
    let mut q = empty_gateway_query();
    q.filters
        .insert("fileType".into(), vec!["video".into(), "audio".into()]);
    assert_eq!(
        mediawiki_filetype_clause(&q),
        Some("filetype:video|audio".to_string())
    );
}

#[test]
fn mediawiki_filetype_clause_dedupes_overlapping_mappings() {
    let mut q = empty_gateway_query();
    // image: [bitmap, drawing]; document: [office]; both kept.
    q.filters.insert(
        "fileType".into(),
        vec!["image".into(), "document".into(), "image".into()],
    );
    assert_eq!(
        mediawiki_filetype_clause(&q),
        Some("filetype:bitmap|drawing|office".to_string())
    );
}

#[test]
fn mediawiki_filetype_clause_drops_unmappable_values() {
    let mut q = empty_gateway_query();
    q.filters
        .insert("fileType".into(), vec!["archive".into(), "subtitle".into()]);
    assert_eq!(mediawiki_filetype_clause(&q), None);
}

#[test]
fn filetype_clause_ignores_case_and_repetition() {
    assert_eq!(
        mediawiki_filetype_clause(&query_for(&["VIDEO", "archive", "Audio", "video"])),
        Some("filetype:video|audio".to_string())
    );
    assert_eq!(mediawiki_filetype_clause(&query_for(&[])), None);
    // Another filter is no filter for file types.
    let mut q = empty_gateway_query();
    q.filters.insert("filetype".into(), vec!["video".into()]);
    assert_eq!(mediawiki_filetype_clause(&q), None);
}

#[test]
fn parses_search_response_in_index_order() {
    let resp = response(SAMPLE_SEARCH);
    let pages = resp.into_ordered_pages();
    assert_eq!(pages.len(), 2);
    assert_eq!(
        pages[0].title.as_deref(),
        Some("File:Sunrise over the sea.jpg")
    );
    assert_eq!(
        pages[1].title.as_deref(),
        Some("File:Echinacea_purpurea.jpg")
    );
}

#[test]
fn pages_without_rank_come_last_and_ties_keep_their_order() {
    let pages = found(vec![
        bare_page("none-1", None),
        bare_page("three", Some(3)),
        bare_page("one-a", Some(1)),
        bare_page("none-2", None),
        bare_page("one-b", Some(1)),
    ])
    .into_ordered_pages();
    let titles: Vec<&str> = pages.iter().map(|p| p.title.as_deref().unwrap()).collect();
    assert_eq!(titles, vec!["one-a", "one-b", "three", "none-1", "none-2"]);
    assert!(MediawikiResponse { query: None }.into_ordered_pages().is_empty());
}

#[test]
fn wikicommons_into_discovery_record_emits_required_fields() {
    let resp = response(SAMPLE_SEARCH);
    let pages = resp.into_ordered_pages();
    let rec = into_discovery_record(pages.into_iter().next().unwrap()).expect("rec");
    assert_eq!(rec.upstream_id, "wikicommons");
    assert_eq!(rec.record_id, "Sunrise over the sea.jpg");
    // fileType is the bucket of the MIME type; there is no contentKind.
    assert_eq!(
        rec.fields.get("fileType").map(String::as_str),
        Some("image")
    );
    assert!(!rec.fields.contains_key("contentKind"));
    assert_eq!(rec.fields.get("format").map(String::as_str), Some("jpg"));
    assert_eq!(
        rec.fields.get("sourceUrl").map(String::as_str),
        Some("https://commons.wikimedia.org/wiki/File:Sunrise_over_the_sea.jpg")
    );
    assert_eq!(
        rec.fields.get("fileName").map(String::as_str),
        Some("Sunrise over the sea.jpg")
    );
    assert_eq!(
        rec.fields.get("wikicommonsid").map(String::as_str),
        Some("Sunrise over the sea.jpg")
    );
    assert_eq!(
        rec.fields.get("artist").map(String::as_str),
        Some("Jane Doe")
    );
    assert_eq!(
        rec.fields.get("license").map(String::as_str),
        Some("CC BY-SA 4.0")
    );
    assert_eq!(
        rec.fields.get("description").map(String::as_str),
        Some("A sunrise photographed off the coast.")
    );
}

#[test]
fn all_fields_of_a_record_in_the_order_of_their_keys() {
    let pages = response(SAMPLE_SEARCH).into_ordered_pages();
    let rec = into_discovery_record(pages.into_iter().next().unwrap()).expect("rec");
    let entries: Vec<(String, String)> = rec.fields.into_entries();
    let entries: Vec<(&str, &str)> = entries
        .iter()
        .map(|(k, v)| (k.as_str(), v.as_str()))
        .collect();
    assert_eq!(
        entries,
        vec![
            ("artist", "Jane Doe"),
            ("credit", "Own work"),
            ("dateOriginal", "2023-08-12 06:14:00"),
            ("description", "A sunrise photographed off the coast."),
            ("fileName", "Sunrise over the sea.jpg"),
            ("fileType", "image"),
            ("format", "jpg"),
            ("license", "CC BY-SA 4.0"),
            ("mime", "image/jpeg"),
            ("size", "234567"),
            (
                "sourceUrl",
                "https://commons.wikimedia.org/wiki/File:Sunrise_over_the_sea.jpg"
            ),
            ("title", "Sunrise over the sea.jpg"),
            ("wikicommonsid", "Sunrise over the sea.jpg"),
        ]
    );
}

#[test]
fn pages_without_title_or_file_make_no_record() {
    let mut untitled = bare_page("x", None);
    untitled.title = None;
    assert!(into_discovery_record(untitled).is_none());
    let mut deleted = bare_page("File:Gone.jpg", None);
    deleted.imageinfo = None;
    assert!(into_discovery_record(deleted).is_none());
    let mut empty = bare_page("File:Gone.jpg", None);
    empty.imageinfo = Some(Vec::new());
    assert!(into_discovery_record(empty).is_none());
    // A title that has no prefix is a name as it is.
    let rec = into_discovery_record(bare_page("Talk.File:a", None)).unwrap();
    assert_eq!(rec.record_id, "Talk.File:a");
    assert_eq!(rec.fields.get("fileType").unwrap(), "other");
    assert!(!rec.fields.contains_key("mime"));
    assert!(!rec.fields.contains_key("format"));
    assert!(!rec.fields.contains_key("size"));
}

fn search(plugin: &WikicommonsPlugin, text: &str, max: usize, body: &str) -> QueryState {
    let state = plugin.handle_query(&empty_gateway_query(), true, text);
    assert!(matches!(&state, QueryState::Encode { text: t } if t == text));
    let state = plugin.resume_query(max, state, QueryEvent::Encoded(text.to_string()));
    assert!(matches!(&state, QueryState::Search { .. }));
    plugin.resume_query(
        max,
        state,
        QueryEvent::Answered(Exchange::Received(response(body))),
    )
}

#[test]
fn wikicommons_handle_query_maps_search_to_discovery_records() {
    let plugin = WikicommonsPlugin::with_base_url("http://127.0.0.1:1".to_string());
    match search(&plugin, "sunrise", 10, SAMPLE_SEARCH) {
        QueryState::Done(Ok(records)) => {
            assert_eq!(records.len(), 2);
            assert_eq!(records[0].record_id, "Sunrise over the sea.jpg");
        }
        _ => panic!("expected records"),
    }
}

#[test]
fn wikicommons_handle_query_truncates_to_max_results() {
    let plugin = WikicommonsPlugin::with_base_url("http://127.0.0.1:1".to_string());
    match search(&plugin, "sunrise", 1, SAMPLE_SEARCH) {
        QueryState::Done(Ok(records)) => assert_eq!(records.len(), 1),
        _ => panic!("expected records"),
    }
}

#[test]
fn search_results_carry_the_preview_of_the_file() {
    let plugin = WikicommonsPlugin::new();
    let mut with_thumb = bare_page("File:a.png", Some(1));
    with_thumb.imageinfo.as_mut().unwrap()[0].thumburl = Some("https://thumb".to_string());
    let without_thumb = bare_page("File:b.ogg", Some(2));
    let mut no_file = bare_page("File:c.png", Some(0));
    no_file.imageinfo = None;
    let state = plugin.resume_query(
        2,
        QueryState::Search {
            url: "u".to_string(),
        },
        QueryEvent::Answered(Exchange::Received(found(vec![
            without_thumb,
            no_file,
            with_thumb,
        ]))),
    );
    match state {
        QueryState::Done(Ok(records)) => {
            assert_eq!(records.len(), 2);
            assert_eq!(records[0].record_id, "a.png");
            assert_eq!(records[0].fields.get("preview_url").unwrap(), "https://thumb");
            assert_eq!(records[1].record_id, "b.ogg");
            assert!(!records[1].fields.contains_key("preview_url"));
        }
        _ => panic!("expected records"),
    }
}

#[test]
fn search_asks_for_the_requested_types_at_the_right_address() {
    let plugin = WikicommonsPlugin::with_base_url("https://commons.wikimedia.org//".to_string());
    let state = plugin.handle_query(&query_for(&["image", "video"]), true, "cat");
    match &state {
        QueryState::Encode { text } => {
            assert_eq!(text, "cat filetype:bitmap|drawing|video")
        }
        _ => panic!("expected a text to encode"),
    }
    match plugin.resume_query(25, state, QueryEvent::Encoded("cat%20x".to_string())) {
        QueryState::Search { url } => assert_eq!(
            url,
            "https://commons.wikimedia.org/w/api.php?action=query&prop=imageinfo\
             &iiprop=url%7Cmime%7Csize%7Cextmetadata&iiurlwidth=400&format=json&formatversion=1\
             &generator=search&gsrsearch=cat%20x&gsrnamespace=6&gsrlimit=25"
        ),
        _ => panic!("expected an address"),
    }
}

#[test]
fn unserved_query_is_answered_at_once() {
    let plugin = WikicommonsPlugin::new();
    match plugin.handle_query(&query_for(&["archive"]), false, "cat") {
        QueryState::Done(Ok(records)) => assert!(records.is_empty()),
        _ => panic!("expected no records"),
    }
}

#[test]
fn failed_requests_come_to_their_errors() {
    let plugin = WikicommonsPlugin::new();
    let ask = |exchange: Exchange<MediawikiResponse>| {
        let state = QueryState::Search {
            url: "https://h/p".to_string(),
        };
        match plugin.resume_query(5, state, QueryEvent::Answered(exchange)) {
            QueryState::Done(Err(e)) => e,
            _ => panic!("expected an error"),
        }
    };
    assert_eq!(
        ask(Exchange::SendFailed("timed out".to_string())),
        GatewayError::Transient("GET https://h/p: timed out".to_string())
    );
    assert_eq!(
        ask(Exchange::Unreadable("eof".to_string())),
        GatewayError::Permanent("decode mediawiki response: eof".to_string())
    );
    assert_eq!(
        ask(Exchange::Refused(GatewayError::NotFound)),
        GatewayError::NotFound
    );
    assert_eq!(
        ask(Exchange::Refused(GatewayError::Internal("x".to_string()))),
        GatewayError::Internal("x".to_string())
    );
}

#[test]
fn events_that_were_not_asked_for_change_nothing() {
    let plugin = WikicommonsPlugin::new();
    let state = plugin.compute_outcomes("a.jpg", Ok(None));
    let state = plugin.resume_compute("a.jpg", state, ComputeEvent::Stored);
    let state = plugin.resume_compute("a.jpg", state, ComputeEvent::Hashed("h".to_string()));
    assert!(matches!(state, ComputeState::Encode { text } if text == "a.jpg"));
}

/// Takes the work on a record to where its page has been looked up.
fn look_up(plugin: &WikicommonsPlugin, id: &str, exchange: Exchange<MediawikiResponse>) -> ComputeState {
    let state = plugin.compute_outcomes(id, Ok(None));
    let encoded = match &state {
        ComputeState::Encode { text } => text.replace(' ', "%20"),
        _ => panic!("expected a text to encode"),
    };
    let state = plugin.resume_compute(id, state, ComputeEvent::Encoded(encoded));
    assert!(matches!(&state, ComputeState::Page { .. }));
    plugin.resume_compute(id, state, ComputeEvent::Answered(exchange))
}

#[test]
fn compute_outcomes_fetches_file_and_caches() {
    let plugin = WikicommonsPlugin::with_base_url("http://mock".to_string());
    let id = "Sunrise over the sea.jpg";
    let img_bytes = b"\xFF\xD8\xFF mock jpeg body for hashing\n".to_vec();
    let single = format!(
        r#"{{ "batchcomplete": "", "query": {{ "pages": {{ "1": {{
              "pageid": 1, "ns": 6, "title": "File:Sunrise over the sea.jpg",
              "imageinfo": [ {{
                "url": "http://mock/wikipedia/commons/a/ab/Sunrise_over_the_sea.jpg",
                "mime": "image/jpeg", "size": {sz} }} ] }} }} }} }}"#,
        sz = img_bytes.len()
    );
    let state = plugin.compute_outcomes(id, Ok(None));
    let state = plugin.resume_compute(
        id,
        state,
        ComputeEvent::Encoded("Sunrise%20over%20the%20sea.jpg".to_string()),
    );
    match &state {
        ComputeState::Page { url } => assert_eq!(
            url,
            "http://mock/w/api.php?action=query&prop=imageinfo\
             &iiprop=url%7Cmime%7Csize%7Cextmetadata&iiurlwidth=400&format=json&formatversion=1\
             &titles=File:Sunrise%20over%20the%20sea.jpg"
        ),
        _ => panic!("expected an address"),
    }
    let state = plugin.resume_compute(
        id,
        state,
        ComputeEvent::Answered(Exchange::Received(response(&single))),
    );
    match &state {
        ComputeState::File { url, .. } => assert_eq!(
            url,
            "http://mock/wikipedia/commons/a/ab/Sunrise_over_the_sea.jpg"
        ),
        _ => panic!("expected the address of the file"),
    }
    let state = plugin.resume_compute(id, state, ComputeEvent::Downloaded(Ok(img_bytes.clone())));
    match &state {
        ComputeState::Hash { body, .. } => assert_eq!(body, &img_bytes),
        _ => panic!("expected bytes to hash"),
    }
    let state = plugin.resume_compute(id, state, ComputeEvent::Hashed("bafyFRESH".to_string()));
    match &state {
        ComputeState::Store { hash, .. } => assert_eq!(hash, "bafyFRESH"),
        _ => panic!("expected a hash to store"),
    }
    match plugin.resume_compute(id, state, ComputeEvent::Stored) {
        ComputeState::Done(Ok(outcome)) => {
            assert_eq!(outcome.hash(), "bafyFRESH");
            assert_eq!(outcome.bytes(), Some(&img_bytes));
            let rec = outcome.record().expect("record present on fresh compute");
            assert_eq!(rec.record_id, "Sunrise over the sea.jpg");
            assert_eq!(
                rec.fields.get("fileType").map(String::as_str),
                Some("image")
            );
            match outcome {
                HashOutcome::Fresh(fresh) => {
                    assert_eq!(fresh.file_extension.as_deref(), Some("jpg"))
                }
                _ => panic!("expected a fresh outcome"),
            }
        }
        _ => panic!("expected an outcome"),
    }
}

#[test]
fn wikicommons_compute_outcomes_cache_hit_skips_http() {
    let plugin = WikicommonsPlugin::new();
    let state = plugin.compute_outcomes("Sunrise.jpg", Ok(Some("bafyCACHED".to_string())));
    assert!(matches!(&state, ComputeState::Done(_)));
    let event = ComputeEvent::Encoded("x".to_string());
    match plugin.resume_compute("Sunrise.jpg", state, event) {
        ComputeState::Done(Ok(outcome)) => {
            assert_eq!(outcome.hash(), "bafyCACHED");
            assert!(outcome.bytes().is_none());
            assert!(outcome.record().is_none());
        }
        _ => panic!("expected a cache hit"),
    }
}

#[test]
fn a_record_worked_on_again_has_the_stored_hash() {
    let plugin = WikicommonsPlugin::new();
    let state = look_up(&plugin, "x", Exchange::Received(found(vec![bare_page("File:x", None)])));
    let state = plugin.resume_compute("x", state, ComputeEvent::Downloaded(Ok(vec![1, 2])));
    let state = plugin.resume_compute("x", state, ComputeEvent::Hashed("bafyFRESH".to_string()));
    let stored = match &state {
        ComputeState::Store { hash, .. } => hash.clone(),
        _ => panic!("expected a hash to store"),
    };
    let first = match plugin.resume_compute("x", state, ComputeEvent::Stored) {
        ComputeState::Done(Ok(outcome)) => outcome,
        _ => panic!("expected an outcome"),
    };
    assert_eq!(first.bytes(), Some(&vec![1, 2]));
    match plugin.compute_outcomes("x", Ok(Some(stored))) {
        ComputeState::Done(Ok(second)) => {
            assert_eq!(second.hash(), first.hash());
            assert!(second.bytes().is_none() && second.record().is_none());
        }
        _ => panic!("expected a cache hit"),
    }
}

#[test]
fn compute_outcomes_refuses_oversized_records() {
    let plugin = WikicommonsPlugin::new();
    let too_big = MAX_FILE_BYTES + 1;
    let mut huge = bare_page("File:Huge.webm", None);
    huge.imageinfo = Some(vec![bare_info(Some(too_big))]);
    match look_up(&plugin, "Huge.webm", Exchange::Received(found(vec![huge]))) {
        ComputeState::Done(Err(GatewayError::Permanent(m))) => assert_eq!(
            m,
            "wikicommons record `Huge.webm` is 52428801 bytes — exceeds gateway plugin's \
             52428800-byte ceiling. Streaming auto-store would lift this; not in v0."
        ),
        _ => panic!("expected a refusal"),
    }
}

#[test]
fn a_file_of_exactly_the_ceiling_is_asked_for() {
    let plugin = WikicommonsPlugin::new();
    let mut large = bare_page("File:Large.webm", None);
    large.imageinfo = Some(vec![bare_info(Some(MAX_FILE_BYTES))]);
    let state = look_up(&plugin, "Large.webm", Exchange::Received(found(vec![large])));
    assert!(matches!(&state, ComputeState::File { .. }));
    let body = vec![0u8; MAX_FILE_BYTES as usize + 1];
    match plugin.resume_compute("Large.webm", state, ComputeEvent::Downloaded(Ok(body))) {
        ComputeState::Done(Err(GatewayError::Permanent(m))) => assert_eq!(
            m,
            "wikicommons record `Large.webm` body was 52428801 bytes — exceeds 52428800 ceiling"
        ),
        _ => panic!("expected a refusal"),
    }
}

#[test]
fn upstream_404_maps_to_not_found() {
    let plugin = WikicommonsPlugin::new();
    let state = look_up(
        &plugin,
        "Does-not-exist.jpg",
        Exchange::Refused(GatewayError::NotFound),
    );
    assert!(matches!(state, ComputeState::Done(Err(GatewayError::NotFound))));
}

#[test]
fn missing_titles_and_empty_answers_are_not_found() {
    let plugin = WikicommonsPlugin::new();
    let state = look_up(&plugin, "x", Exchange::Received(found(Vec::new())));
    assert!(matches!(state, ComputeState::Done(Err(GatewayError::NotFound))));
    let state = look_up(&plugin, "x", Exchange::Received(MediawikiResponse { query: None }));
    assert!(matches!(state, ComputeState::Done(Err(GatewayError::NotFound))));
    let mut missing = bare_page("File:x", None);
    missing.pageid = None;
    missing.imageinfo = Some(Vec::new());
    let state = look_up(&plugin, "x", Exchange::Received(found(vec![missing])));
    assert!(matches!(state, ComputeState::Done(Err(GatewayError::NotFound))));
}

#[test]
fn pages_that_cannot_be_fetched_or_named_come_to_their_errors() {
    let plugin = WikicommonsPlugin::new();
    let mut no_file = bare_page("File:x", None);
    no_file.imageinfo = None;
    match look_up(&plugin, "x", Exchange::Received(found(vec![no_file]))) {
        ComputeState::Done(Err(e)) => assert_eq!(
            e,
            GatewayError::Permanent("wikicommons record `x` has no imageinfo".to_string())
        ),
        _ => panic!("expected an error"),
    }
    let mut untitled = bare_page("File:x", None);
    untitled.title = None;
    let state = look_up(&plugin, "x", Exchange::Received(found(vec![untitled])));
    let state = plugin.resume_compute("x", state, ComputeEvent::Downloaded(Ok(vec![1])));
    let state = plugin.resume_compute("x", state, ComputeEvent::Hashed("h".to_string()));
    assert!(matches!(&state, ComputeState::Store { .. }));
    match plugin.resume_compute("x", state, ComputeEvent::Stored) {
        ComputeState::Done(Err(e)) => assert_eq!(
            e,
            GatewayError::Permanent(
                "wikicommons record `x` lost imageinfo between calls".to_string()
            )
        ),
        _ => panic!("expected an error"),
    }
    let state = look_up(&plugin, "x", Exchange::Received(found(vec![bare_page("File:x", None)])));
    let failed = GatewayError::Transient("down".to_string());
    match plugin.resume_compute("x", state, ComputeEvent::Downloaded(Err(failed))) {
        ComputeState::Done(Err(e)) => {
            assert_eq!(e, GatewayError::Transient("down".to_string()))
        }
        _ => panic!("expected an error"),
    }
}

#[test]
fn commons_plugin_is_healthy_once_its_cache_is_open() {
    let mut plugin = WikicommonsPlugin::default();
    assert_eq!(
        plugin.health(),
        PluginHealth::Degraded {
            reason: "configure() not yet called".to_string()
        }
    );
    plugin.cache_opened();
    assert_eq!(plugin.health(), PluginHealth::Healthy);
    assert_eq!(plugin.upstream_id(), "wikicommons");
    assert_eq!(
        plugin.served_file_types(),
        vec!["image", "audio", "video", "document", "other"]
    );
    assert!(plugin.served_content_kinds().is_empty());
    assert_eq!(user_agent("1.2.3"), "meta-share/1.2.3 (gateway:wikicommons)");
    assert!(plugin
        .api_url("x")
        .starts_with("https://commons.wikimedia.org/w/api.php?"));
}

#[test]
fn results_come_in_the_order_of_relevance_and_none_is_left_out() {
    let plugin = WikicommonsPlugin::new();
    let state = QueryState::Search {
        url: "u".to_string(),
    };
    let pages = vec![
        bare_page("File:c", Some(3)),
        bare_page("File:a", Some(1)),
        bare_page("File:d", None),
        bare_page("File:b", Some(2)),
    ];
    let answer = Exchange::Received(found(pages));
    match plugin.resume_query(4, state, QueryEvent::Answered(answer)) {
        QueryState::Done(Ok(records)) => {
            let names: Vec<&str> = records.iter().map(|r| r.record_id.as_str()).collect();
            assert_eq!(names, vec!["a", "b", "c", "d"]);
        }
        _ => panic!("expected records"),
    }
}

#[test]
fn a_search_and_work_that_are_over_stay_as_they_are() {
    let plugin = WikicommonsPlugin::new();
    let state = QueryState::Done(Err(GatewayError::NotFound));
    let state = plugin.resume_query(1, state, QueryEvent::Encoded("x".to_string()));
    assert!(matches!(state, QueryState::Done(Err(GatewayError::NotFound))));
    let state = ComputeState::Done(Err(GatewayError::NotFound));
    let state = plugin.resume_compute("x", state, ComputeEvent::Stored);
    assert!(matches!(state, ComputeState::Done(Err(GatewayError::NotFound))));
}

#[test]
fn slashes_behind_the_address_make_no_difference() {
    let bare = WikicommonsPlugin::with_base_url("http://h".to_string());
    let slashed = WikicommonsPlugin::with_base_url("http://h///".to_string());
    assert_eq!(bare.api_url("x=y"), slashed.api_url("x=y"));
    assert_eq!(
        bare.api_url("x=y"),
        "http://h/w/api.php?action=query&prop=imageinfo\
         &iiprop=url%7Cmime%7Csize%7Cextmetadata&iiurlwidth=400&format=json&formatversion=1&x=y"
    );
}

#[test]
fn a_record_is_not_worked_on_without_a_cache_to_ask() {
    let plugin = WikicommonsPlugin::new();
    let missing = || GatewayError::Internal("no cache".to_string());
    let state = plugin.compute_outcomes("a.jpg", Err(missing()));
    let state = plugin.resume_compute("a.jpg", state, ComputeEvent::Encoded("a".to_string()));
    match state {
        ComputeState::Done(Err(e)) => assert_eq!(e, missing()),
        _ => panic!("expected an error"),
    }
}
