use common_feeder::wikicommons::title::{encode_title_for_url, file_extension_for, media_type_for};

#[test]
fn media_type_buckets_match_mime() {
    assert_eq!(media_type_for(Some("image/jpeg")), "image");
    assert_eq!(media_type_for(Some("audio/ogg")), "audio");
    assert_eq!(media_type_for(Some("video/webm")), "video");
    assert_eq!(media_type_for(Some("application/pdf")), "document");
    assert_eq!(media_type_for(Some("application/octet-stream")), "other");
    assert_eq!(media_type_for(None), "other");
}

#[test]
fn file_extension_for_handles_common_shapes() {
    assert_eq!(file_extension_for("Sunrise.jpg").as_deref(), Some("jpg"));
    assert_eq!(file_extension_for("Foo.OGG").as_deref(), Some("ogg"));
    assert_eq!(file_extension_for("Foo.webm").as_deref(), Some("webm"));
    // Too long to be an extension.
    assert!(file_extension_for("Foo.thisisalonglongtail").is_none());
    // No extension at all.
    assert!(file_extension_for("BareName").is_none());
    // Non-alphanumeric trailing: refused.
    assert!(file_extension_for("Foo.tar.gz?x").is_none());
}

#[test]
fn encode_title_swaps_spaces_for_underscores() {
    assert_eq!(
        encode_title_for_url("File:Sunrise over the sea.jpg"),
        "File:Sunrise_over_the_sea.jpg"
    );
    assert_eq!(
        encode_title_for_url("File:Caf\u{00e9}.jpg"),
        "File:Caf%C3%A9.jpg"
    );
}

#[test]
fn extensions_at_the_edges() {
    assert_eq!(file_extension_for("a.b.TIFF").as_deref(), Some("tiff"));
    assert_eq!(file_extension_for(".12345").as_deref(), Some("12345"));
    assert!(file_extension_for("a.123456").is_none());
    assert!(file_extension_for("a.").is_none());
    assert!(file_extension_for("").is_none());
    assert!(file_extension_for("a.j\u{e9}").is_none());
}

#[test]
fn titles_are_encoded_byte_by_byte() {
    assert_eq!(encode_title_for_url(""), "");
    assert_eq!(encode_title_for_url("A-Z_a.z~0/9:"), "A-Z_a.z~0/9:");
    assert_eq!(encode_title_for_url("a_b c"), "a_b_c");
    assert_eq!(encode_title_for_url("100%?&"), "100%25%3F%26");
    assert_eq!(encode_title_for_url("\u{20ac}\u{1f600}"), "%E2%82%AC%F0%9F%98%80");
    assert_eq!(encode_title_for_url("\u{0}"), "%00");
}

#[test]
fn media_types_go_by_their_beginning() {
    assert_eq!(media_type_for(Some("image/")), "image");
    assert_eq!(media_type_for(Some("image")), "other");
    assert_eq!(media_type_for(Some("application/pdf; x")), "document");
    assert_eq!(media_type_for(Some("IMAGE/png")), "other");
    assert_eq!(media_type_for(Some("")), "other");
}

#[test]
fn titles_share_an_encoding_only_where_spaces_stand_for_underscores() {
    assert_eq!(encode_title_for_url("a b"), encode_title_for_url("a_b"));
    assert_ne!(encode_title_for_url("a%20b"), encode_title_for_url("a b"));
    assert_ne!(encode_title_for_url("%E9"), encode_title_for_url("\u{e9}"));
}
