use common_feeder::gateway::{ConfigError, Exchange, GatewayError, HashOutcome, PluginHealth};
use common_feeder::giphy::compute::{ComputeEvent, ComputeState};
use common_feeder::giphy::gifs::{
    into_discovery_record, GiphyGif, GiphyImageVariant, GiphyImages, GiphyResponse,
    GiphySingleResponse,
};
use common_feeder::giphy::query::{QueryEvent, QueryState};
use common_feeder::giphy::{is_usable_api_key, map_status, user_agent, GiphyPlugin};
use serde_json::Value;

const SAMPLE_SEARCH: &str = r#"{
  "data": [
    {
      "id": "ABCDEF123",
      "title": "Cat reaction",
      "url": "https://giphy.com/gifs/funny-cat-ABCDEF123",
      "username": "catlover",
      "rating": "g",
      "import_datetime": "2020-04-22 18:00:00",
      "images": {
        "original": {
          "url": "https://media.giphy.com/media/ABCDEF123/giphy.gif",
          "width": "480",
          "height": "270",
          "size": "1234567"
        },
        "preview_gif": {
          "url": "https://media.giphy.com/media/ABCDEF123/giphy-preview.gif"
        }
      }
    },
    {
      "id": "XYZ789",
      "title": "",
      "url": "https://giphy.com/gifs/XYZ789",
      "rating": "pg",
      "images": {
        "original": {
          "url": "https://media.giphy.com/media/XYZ789/giphy.gif",
          "size": "654321"
        }
      }
    }
  ],
  "pagination": { "total_count": 2, "count": 2, "offset": 0 },
  "meta": { "status": 200, "msg": "OK" }
}"#;

fn text(v: &Value) -> Option<String> {
    v.as_str().map(str::to_string)
}

fn variant(v: &Value) -> Option<GiphyImageVariant> {
    v.as_object().map(|_| GiphyImageVariant {
        url: text(&v["url"]).unwrap_or_default(),
        width: text(&v["width"]),
        height: text(&v["height"]),
        size: text(&v["size"]),
    })
}

fn gif(v: &Value) -> GiphyGif {
    let images = &v["images"];
    GiphyGif {
        id: text(&v["id"]),
        title: text(&v["title"]),
        url: text(&v["url"]),
        username: text(&v["username"]),
        rating: text(&v["rating"]),
        import_datetime: text(&v["import_datetime"]),
        images: images.as_object().map(|_| GiphyImages {
            original: variant(&images["original"]),
            preview_gif: variant(&images["preview_gif"]),
        }),
    }
}

fn response(json: &str) -> GiphyResponse {
    let v: Value = serde_json::from_str(json).expect("parse");
    GiphyResponse {
        data: v["data"].as_array().expect("data").iter().map(gif).collect(),
    }
}

fn single(json: &str) -> GiphySingleResponse {
    let v: Value = serde_json::from_str(json).expect("parse");
    GiphySingleResponse {
        data: v["data"].as_object().map(|_| gif(&v["data"])),
    }
}

fn bare_gif(id: Option<&str>, date: Option<&str>) -> GiphyGif {
    GiphyGif {
        id: id.map(str::to_string),
        title: None,
        url: None,
        username: None,
        rating: None,
        import_datetime: date.map(str::to_string),
        images: None,
    }
}

fn plugin() -> GiphyPlugin {
    GiphyPlugin::with_api_key_and_base("test-key".to_string(), "http://mock/".to_string())
}

#[test]
fn giphy_into_discovery_record_emits_required_fields() {
    let body = response(SAMPLE_SEARCH);
    let rec = into_discovery_record(body.data.into_iter().next().unwrap()).unwrap();
    assert_eq!(rec.upstream_id, "giphy");
    assert_eq!(rec.record_id, "ABCDEF123");
    assert_eq!(rec.fields.get("fileType").map(String::as_str), Some("image"));
    assert_eq!(rec.fields.get("contentKind").map(String::as_str), Some("gif"));
    assert_eq!(rec.fields.get("format").map(String::as_str), Some("gif"));
    assert_eq!(rec.fields.get("mime").map(String::as_str), Some("image/gif"));
    assert_eq!(
        rec.fields.get("sourceUrl").map(String::as_str),
        Some("https://giphy.com/gifs/funny-cat-ABCDEF123")
    );
    assert_eq!(
        rec.fields.get("fileName").map(String::as_str),
        Some("giphy-ABCDEF123.gif")
    );
    assert_eq!(rec.fields.get("giphyid").map(String::as_str), Some("ABCDEF123"));
    assert_eq!(rec.fields.get("title").map(String::as_str), Some("Cat reaction"));
    assert_eq!(rec.fields.get("uploader").map(String::as_str), Some("catlover"));
    assert_eq!(rec.fields.get("rating").map(String::as_str), Some("g"));
    assert_eq!(rec.fields.get("year").map(String::as_str), Some("2020"));
    assert_eq!(rec.fields.get("size").map(String::as_str), Some("1234567"));
}

#[test]
fn empty_title_falls_back_to_id() {
    let body = response(SAMPLE_SEARCH);
    let rec = into_discovery_record(body.data.into_iter().nth(1).unwrap()).unwrap();
    assert_eq!(rec.record_id, "XYZ789");
    assert_eq!(rec.fields.get("title").map(String::as_str), Some("giphy/XYZ789"));
}

#[test]
fn all_fields_of_a_picture_in_the_order_of_their_keys() {
    let body = response(SAMPLE_SEARCH);
    let rec = into_discovery_record(body.data.into_iter().next().unwrap()).unwrap();
    let entries: Vec<(String, String)> = rec.fields.into_entries();
    let entries: Vec<(&str, &str)> = entries
        .iter()
        .map(|(k, v)| (k.as_str(), v.as_str()))
        .collect();
    assert_eq!(
        entries,
        vec![
            ("contentKind", "gif"),
            ("fileName", "giphy-ABCDEF123.gif"),
            ("fileType", "image"),
            ("format", "gif"),
            ("giphyid", "ABCDEF123"),
            ("height", "270"),
            ("imported", "2020-04-22 18:00:00"),
            ("mime", "image/gif"),
            ("rating", "g"),
            ("size", "1234567"),
            ("sourceUrl", "https://giphy.com/gifs/funny-cat-ABCDEF123"),
            ("title", "Cat reaction"),
            ("uploader", "catlover"),
            ("width", "480"),
            ("year", "2020"),
        ]
    );
}

#[test]
fn a_picture_without_id_makes_no_record_and_one_without_address_gets_one() {
    assert!(into_discovery_record(bare_gif(None, Some("2020"))).is_none());
    let rec = into_discovery_record(bare_gif(Some("Q"), None)).unwrap();
    assert_eq!(rec.fields.get("sourceUrl").unwrap(), "https://giphy.com/gifs/Q");
    assert!(!rec.fields.contains_key("imported"));
    assert!(!rec.fields.contains_key("uploader"));
}

#[test]
fn a_date_has_a_year_where_it_begins_with_four_digits() {
    let year = |date: &str| {
        let rec = into_discovery_record(bare_gif(Some("Q"), Some(date))).unwrap();
        let imported = rec.fields.get("imported").cloned();
        (imported, rec.fields.get("year").cloned())
    };
    assert_eq!(
        year("1999"),
        (Some("1999".to_string()), Some("1999".to_string()))
    );
    assert_eq!(year("199"), (Some("199".to_string()), None));
    assert_eq!(year("19x9-01"), (Some("19x9-01".to_string()), None));
    assert_eq!(year("\u{e9}\u{e9}2020"), (Some("\u{e9}\u{e9}2020".to_string()), None));
    assert_eq!(year(""), (None, None));
}

#[test]
fn a_date_with_a_character_across_the_fourth_byte_has_no_year() {
    for date in ["202\u{e9}", "20\u{20ac}0", "\u{1f600}020", "2\u{1f600}"] {
        let rec = into_discovery_record(bare_gif(Some("a"), Some(date))).unwrap();
        assert_eq!(rec.record_id, "a");
        assert_eq!(rec.fields.get("imported").map(String::as_str), Some(date));
        assert!(!rec.fields.contains_key("year"));
    }
    let plugin = plugin();
    let state = ask(&plugin, "cat", 5);
    let gifs = vec![
        bare_gif(Some("a"), Some("202\u{e9}")),
        bare_gif(Some("b"), Some("2020")),
    ];
    let body = Exchange::Received(GiphyResponse { data: gifs });
    match plugin.resume_query(5, state, QueryEvent::Answered(body)) {
        QueryState::Done(Ok(records)) => {
            assert_eq!(records.len(), 2);
            assert!(!records[0].fields.contains_key("year"));
            assert_eq!(records[1].fields.get("year").unwrap(), "2020");
        }
        _ => panic!("expected records"),
    }
}

/// Takes a search to where Giphy has to be asked.
fn ask(plugin: &GiphyPlugin, q: &str, max: usize) -> QueryState {
    let state = plugin.handle_query(true, q);
    match &state {
        QueryState::Encode { key, text } => {
            assert_eq!(key, "test-key");
            assert_eq!(text, q);
        }
        _ => panic!("expected texts to encode"),
    }
    plugin.resume_query(
        max,
        state,
        QueryEvent::Encoded {
            key: "test-key".to_string(),
            text: q.to_string(),
        },
    )
}

#[test]
fn giphy_handle_query_maps_search_to_discovery_records() {
    let plugin = plugin();
    let state = ask(&plugin, "cat", 10);
    match &state {
        QueryState::Search { url } => {
            assert_eq!(url, "http://mock/v1/gifs/search?api_key=test-key&q=cat&limit=10")
        }
        _ => panic!("expected an address"),
    }
    let body = Exchange::Received(response(SAMPLE_SEARCH));
    match plugin.resume_query(10, state, QueryEvent::Answered(body)) {
        QueryState::Done(Ok(records)) => {
            assert_eq!(records.len(), 2);
            assert_eq!(records[0].record_id, "ABCDEF123");
            // The preview rides as a raw URL for the core to seed.
            assert_eq!(
                records[0].fields.get("preview_url").map(String::as_str),
                Some("https://media.giphy.com/media/ABCDEF123/giphy-preview.gif")
            );
            assert!(!records[1].fields.contains_key("preview_url"));
        }
        _ => panic!("expected records"),
    }
}

#[test]
fn giphy_handle_query_truncates_to_max_results() {
    let plugin = plugin();
    let state = ask(&plugin, "cat", 1);
    let body = Exchange::Received(response(SAMPLE_SEARCH));
    match plugin.resume_query(1, state, QueryEvent::Answered(body)) {
        QueryState::Done(Ok(records)) => assert_eq!(records.len(), 1),
        _ => panic!("expected records"),
    }
}

#[test]
fn an_empty_preview_address_is_none() {
    let plugin = plugin();
    let mut empty = bare_gif(Some("Q"), None);
    empty.images = Some(GiphyImages {
        original: None,
        preview_gif: Some(GiphyImageVariant {
            url: String::new(),
            width: None,
            height: None,
            size: None,
        }),
    });
    let state = ask(&plugin, "cat", 5);
    let body = Exchange::Received(GiphyResponse { data: vec![empty] });
    match plugin.resume_query(5, state, QueryEvent::Answered(body)) {
        QueryState::Done(Ok(records)) => {
            assert!(!records[0].fields.contains_key("preview_url"))
        }
        _ => panic!("expected records"),
    }
}

#[test]
fn failed_searches_come_to_their_errors() {
    let plugin = plugin();
    let outcome = |exchange: Exchange<GiphyResponse>| {
        let state = QueryState::Search {
            url: "http://h/p".to_string(),
        };
        match plugin.resume_query(5, state, QueryEvent::Answered(exchange)) {
            QueryState::Done(Err(e)) => e,
            _ => panic!("expected an error"),
        }
    };
    assert_eq!(
        outcome(Exchange::SendFailed("refused".to_string())),
        GatewayError::Transient("GET http://h/p: refused".to_string())
    );
    assert_eq!(
        outcome(Exchange::Unreadable("eof".to_string())),
        GatewayError::Permanent("decode giphy search response: eof".to_string())
    );
}

#[test]
fn without_a_key_nothing_is_asked() {
    let plugin = GiphyPlugin::new();
    let missing = "giphy plugin api_key missing (configure() never called)";
    match plugin.handle_query(true, "cat") {
        QueryState::Done(Err(e)) => assert_eq!(e, GatewayError::Internal(missing.to_string())),
        _ => panic!("expected an error"),
    }
    match plugin.handle_query(false, "cat") {
        QueryState::Done(Ok(records)) => assert!(records.is_empty()),
        _ => panic!("expected no records"),
    }
    match plugin.compute_outcomes("Q", Ok(None)) {
        ComputeState::Done(Err(e)) => assert_eq!(e, GatewayError::Internal(missing.to_string())),
        _ => panic!("expected an error"),
    }
    match plugin.compute_outcomes("Q", Ok(Some("bafyCACHED".to_string()))) {
        ComputeState::Done(Ok(outcome)) => assert_eq!(outcome.hash(), "bafyCACHED"),
        _ => panic!("expected the known hash"),
    }
    assert_eq!(
        plugin.api_url("/p", "k", ""),
        Err(GatewayError::Internal(missing.to_string()))
    );
}

/// Takes the work on a picture to where it has been looked up.
fn look_up(plugin: &GiphyPlugin, id: &str, exchange: Exchange<GiphySingleResponse>) -> ComputeState {
    let state = plugin.compute_outcomes(id, Ok(None));
    let state = plugin.resume_compute(
        id,
        state,
        ComputeEvent::Encoded {
            key: "test-key".to_string(),
            text: id.to_string(),
        },
    );
    match &state {
        ComputeState::Detail { url } => {
            assert_eq!(url, &format!("http://mock/v1/gifs/{id}?api_key=test-key"))
        }
        _ => panic!("expected an address"),
    }
    plugin.resume_compute(id, state, ComputeEvent::Answered(exchange))
}

#[test]
fn compute_outcomes_fetches_gif_and_caches() {
    let plugin = plugin();
    let gif_bytes = b"GIF89a mock gif body\n".to_vec();
    let detail = format!(
        r#"{{ "data": {{ "id": "ABCDEF123", "title": "Cat reaction",
              "url": "https://giphy.com/gifs/ABCDEF123",
              "images": {{ "original": {{
                "url": "http://mock/media/ABCDEF123/giphy.gif", "size": "{sz}" }} }} }},
            "meta": {{ "status": 200 }} }}"#,
        sz = gif_bytes.len()
    );
    let state = look_up(&plugin, "ABCDEF123", Exchange::Received(single(&detail)));
    match &state {
        ComputeState::File { url, .. } => {
            assert_eq!(url, "http://mock/media/ABCDEF123/giphy.gif")
        }
        _ => panic!("expected the address of the picture"),
    }
    let state = plugin.resume_compute(
        "ABCDEF123",
        state,
        ComputeEvent::Downloaded(Exchange::Received(gif_bytes.clone())),
    );
    match &state {
        ComputeState::Hash { body, .. } => assert_eq!(body, &gif_bytes),
        _ => panic!("expected bytes to hash"),
    }
    let state = plugin.resume_compute(
        "ABCDEF123",
        state,
        ComputeEvent::Hashed("bafyFRESH".to_string()),
    );
    match plugin.resume_compute("ABCDEF123", state, ComputeEvent::Stored) {
        ComputeState::Done(Ok(outcome)) => {
            assert_eq!(outcome.hash(), "bafyFRESH");
            assert_eq!(outcome.bytes(), Some(&gif_bytes));
            let rec = outcome.record().expect("record present on fresh compute");
            assert_eq!(rec.record_id, "ABCDEF123");
            match outcome {
                HashOutcome::Fresh(fresh) => {
                    assert_eq!(fresh.file_extension.as_deref(), Some("gif"))
                }
                _ => panic!("expected a fresh outcome"),
            }
        }
        _ => panic!("expected an outcome"),
    }
}

#[test]
fn giphy_compute_outcomes_cache_hit_skips_http() {
    let plugin = plugin();
    let state = plugin.compute_outcomes("ABCDEF123", Ok(Some("bafyCACHED".to_string())));
    assert!(matches!(&state, ComputeState::Done(_)));
    match plugin.resume_compute("ABCDEF123", state, ComputeEvent::Stored) {
        ComputeState::Done(Ok(outcome)) => {
            assert_eq!(outcome.hash(), "bafyCACHED");
            assert!(outcome.bytes().is_none());
            assert!(outcome.record().is_none());
        }
        _ => panic!("expected a cache hit"),
    }
}

#[test]
fn a_picture_worked_on_again_has_the_stored_hash() {
    let plugin = plugin();
    let state = ComputeState::Store {
        gif: bare_gif(Some("Q"), None),
        body: b"GIF89a".to_vec(),
        hash: "bafyFRESH".to_string(),
    };
    let stored = match &state {
        ComputeState::Store { hash, .. } => hash.clone(),
        _ => panic!("expected a hash to store"),
    };
    let first = match plugin.resume_compute("Q", state, ComputeEvent::Stored) {
        ComputeState::Done(Ok(outcome)) => outcome,
        _ => panic!("expected an outcome"),
    };
    assert!(first.bytes().is_some() && first.record().is_some());
    match plugin.compute_outcomes("Q", Ok(Some(stored))) {
        ComputeState::Done(Ok(second)) => {
            assert_eq!(second.hash(), first.hash());
            assert!(second.bytes().is_none() && second.record().is_none());
        }
        _ => panic!("expected a cache hit"),
    }
}

#[test]
fn compute_outcomes_rejects_non_gif_body() {
    let plugin = plugin();
    let detail = r#"{ "data": { "id": "ABCDEF123",
        "images": { "original": { "url": "http://mock/blocked", "size": "100" } } } }"#;
    let state = look_up(&plugin, "ABCDEF123", Exchange::Received(single(detail)));
    let body = b"<html>CDN takedown</html>".to_vec();
    match plugin.resume_compute(
        "ABCDEF123",
        state,
        ComputeEvent::Downloaded(Exchange::Received(body)),
    ) {
        ComputeState::Done(Err(e)) => assert_eq!(
            e,
            GatewayError::Permanent(
                "giphy returned non-GIF body for http://mock/blocked \
                 (CDN may have replaced the file)"
                    .to_string()
            )
        ),
        _ => panic!("expected a refusal"),
    }
}

#[test]
fn failed_downloads_come_to_their_errors() {
    let plugin = plugin();
    let outcome = |exchange: Exchange<Vec<u8>>| {
        let state = ComputeState::File {
            gif: bare_gif(Some("Q"), None),
            url: "http://h/g".to_string(),
        };
        match plugin.resume_compute("Q", state, ComputeEvent::Downloaded(exchange)) {
            ComputeState::Done(Err(e)) => e,
            _ => panic!("expected an error"),
        }
    };
    assert_eq!(
        outcome(Exchange::SendFailed("refused".to_string())),
        GatewayError::Transient("GET http://h/g: refused".to_string())
    );
    assert_eq!(
        outcome(Exchange::Unreadable("reset".to_string())),
        GatewayError::Transient("read body http://h/g: reset".to_string())
    );
    assert_eq!(
        outcome(Exchange::Refused(GatewayError::NotFound)),
        GatewayError::NotFound
    );
    assert!(matches!(
        outcome(Exchange::Received(b"GIF".to_vec())),
        GatewayError::Permanent(_)
    ));
}

#[test]
fn failed_lookups_come_to_their_errors() {
    let plugin = plugin();
    let outcome = |exchange: Exchange<GiphySingleResponse>| match look_up(&plugin, "Q", exchange) {
        ComputeState::Done(Err(e)) => e,
        _ => panic!("expected an error"),
    };
    assert_eq!(
        outcome(Exchange::Received(GiphySingleResponse { data: None })),
        GatewayError::NotFound
    );
    assert_eq!(
        outcome(Exchange::Received(GiphySingleResponse {
            data: Some(bare_gif(Some("Q"), None))
        })),
        GatewayError::Permanent("giphy record `Q` has no images.original.url".to_string())
    );
    assert_eq!(
        outcome(Exchange::SendFailed("refused".to_string())),
        GatewayError::Transient(
            "GET http://mock/v1/gifs/Q?api_key=test-key: refused".to_string()
        )
    );
    assert_eq!(
        outcome(Exchange::Unreadable("eof".to_string())),
        GatewayError::Permanent("decode giphy detail response: eof".to_string())
    );
}

#[test]
fn a_picture_that_lost_its_id_is_an_error_after_the_hash_is_stored() {
    let plugin = plugin();
    let state = ComputeState::Hash {
        gif: bare_gif(None, None),
        body: b"GIF89a".to_vec(),
    };
    let state = plugin.resume_compute("Q", state, ComputeEvent::Hashed("h".to_string()));
    assert!(matches!(&state, ComputeState::Store { .. }));
    match plugin.resume_compute("Q", state, ComputeEvent::Stored) {
        ComputeState::Done(Err(e)) => assert_eq!(
            e,
            GatewayError::Permanent("giphy record `Q` lost fields between calls".to_string())
        ),
        _ => panic!("expected an error"),
    }
}

#[test]
fn upstream_401_maps_to_permanent_auth_error() {
    let plugin = plugin();
    let refusal = map_status(401, Ok(())).expect_err("expected auth error");
    let state = ask(&plugin, "anything", 5);
    match plugin.resume_query(5, state, QueryEvent::Answered(Exchange::Refused(refusal))) {
        QueryState::Done(Err(GatewayError::Permanent(msg))) => {
            assert!(msg.contains("auth failed") && msg.contains("GIPHY_API_KEY"), "msg: {msg}")
        }
        _ => panic!("expected Permanent"),
    }
}

#[test]
fn the_statuses_that_refuse_a_key_say_so() {
    assert_eq!(
        map_status(401, Ok(())),
        Err(GatewayError::Permanent(
            "giphy auth failed (401 Unauthorized) — check the GIPHY_API_KEY".to_string()
        ))
    );
    assert_eq!(
        map_status(403, Err(GatewayError::NotFound)),
        Err(GatewayError::Permanent(
            "giphy auth failed (403 Forbidden) — check the GIPHY_API_KEY".to_string()
        ))
    );
    assert_eq!(map_status(200, Ok(())), Ok(()));
    assert_eq!(
        map_status(404, Err(GatewayError::NotFound)),
        Err(GatewayError::NotFound)
    );
}

#[test]
fn upstream_404_on_detail_maps_to_not_found() {
    let plugin = plugin();
    let state = look_up(&plugin, "missing", Exchange::Refused(GatewayError::NotFound));
    assert!(matches!(state, ComputeState::Done(Err(GatewayError::NotFound))));
}

#[test]
fn configure_without_api_key_soft_skips() {
    let plugin = GiphyPlugin::new();
    match plugin.configure() {
        Err(ConfigError::MissingConfig { plugin, .. }) => assert_eq!(plugin, "giphy"),
        Ok(()) => panic!("expected MissingConfig"),
    }
}

#[test]
fn configure_with_an_empty_api_key_soft_skips() {
    let mut plugin = GiphyPlugin::new();
    plugin.set_api_key(String::new());
    assert_eq!(
        plugin.configure(),
        Err(ConfigError::MissingConfig {
            plugin: "giphy",
            what: "api_key (set it via the GIPHY_API_KEY env on the common-feeder)",
        })
    );
    plugin.set_api_key("k".to_string());
    assert_eq!(plugin.configure(), Ok(()));
}

#[test]
fn a_picture_is_not_worked_on_without_a_cache_to_ask() {
    let missing = || GatewayError::Internal("no cache".to_string());
    for plugin in [plugin(), GiphyPlugin::new()] {
        let state = plugin.compute_outcomes("Q", Err(missing()));
        let state = plugin.resume_compute("Q", state, ComputeEvent::Stored);
        match state {
            ComputeState::Done(Err(e)) => assert_eq!(e, missing()),
            _ => panic!("expected an error"),
        }
    }
}

#[test]
fn giphy_plugin_is_healthy_with_key_and_cache() {
    let mut plugin = GiphyPlugin::default();
    let degraded = |reason: &str| PluginHealth::Degraded {
        reason: reason.to_string(),
    };
    assert_eq!(plugin.health(), degraded("configure() not yet called"));
    plugin.cache_opened();
    assert_eq!(plugin.health(), degraded("no api key — set GIPHY_API_KEY"));
    plugin.set_api_key("k".to_string());
    assert_eq!(plugin.configure(), Ok(()));
    assert_eq!(plugin.health(), PluginHealth::Healthy);
    assert_eq!(plugin.api_key(), Ok("k"));
    assert_eq!(plugin.upstream_id(), "giphy");
    assert_eq!(plugin.served_file_types(), vec!["image"]);
    assert_eq!(plugin.served_content_kinds(), vec!["gif"]);
    assert_eq!(user_agent("1.2.3"), "meta-share/1.2.3 (gateway:giphy)");
    assert_eq!(
        plugin.api_url("/p", "k%21", "").as_deref(),
        Ok("https://api.giphy.com/p?api_key=k%21")
    );
    assert_eq!(
        plugin.api_url("/p", "k", "a=b").as_deref(),
        Ok("https://api.giphy.com/p?api_key=k&a=b")
    );
}

#[test]
fn a_blank_key_is_no_key() {
    assert!(is_usable_api_key("k"));
    assert!(is_usable_api_key(" k\n"));
    assert!(!is_usable_api_key(""));
    assert!(!is_usable_api_key(" \t\r\n\u{a0}\u{2003}\u{3000}"));
    assert!(is_usable_api_key("\u{200b}"));
}

#[test]
fn a_search_and_a_picture_that_are_over_stay_as_they_are() {
    let plugin = plugin();
    let again = || QueryEvent::Encoded {
        key: "k".to_string(),
        text: "t".to_string(),
    };
    let state = QueryState::Done(Ok(Vec::new()));
    match plugin.resume_query(3, state, again()) {
        QueryState::Done(Ok(records)) => assert!(records.is_empty()),
        _ => panic!("expected no records"),
    }
    let state = ComputeState::Done(Err(GatewayError::NotFound));
    let state = plugin.resume_compute("Q", state, ComputeEvent::Stored);
    assert!(matches!(state, ComputeState::Done(Err(GatewayError::NotFound))));
}

#[test]
fn results_keep_their_order_and_pictures_without_id_are_passed_over() {
    let plugin = plugin();
    let state = ask(&plugin, "cat", 2);
    let gifs = vec![
        bare_gif(None, None),
        bare_gif(Some("B"), None),
        bare_gif(None, None),
        bare_gif(Some("A"), None),
        bare_gif(Some("C"), None),
    ];
    let body = Exchange::Received(GiphyResponse { data: gifs });
    match plugin.resume_query(2, state, QueryEvent::Answered(body)) {
        QueryState::Done(Ok(records)) => {
            let ids: Vec<&str> = records.iter().map(|r| r.record_id.as_str()).collect();
            assert_eq!(ids, vec!["B", "A"]);
        }
        _ => panic!("expected records"),
    }
}
