use xp_md2html::mime::build_reverse_mime_types;
use xp_md2html::mime::mapping::MIME_TYPES;
use xp_md2html::mime::reversed::SUFFIX_OVERRIDES;
use xp_md2html::mime::Mime;

#[test]
fn test_get_known_extensions() {
    assert_eq!(Mime::get("html"), Some("text/html"));
    assert_eq!(Mime::get("css"), Some("text/css"));
    assert_eq!(Mime::get("js"), Some("application/javascript"));
    assert_eq!(Mime::get("json"), Some("application/json"));
    assert_eq!(Mime::get("pdf"), Some("application/pdf"));
    assert_eq!(Mime::get("png"), Some("image/png"));
    assert_eq!(Mime::get("jpg"), Some("image/jpeg"));
    assert_eq!(Mime::get("mp4"), Some("video/mp4"));
    assert_eq!(Mime::get("mp3"), Some("audio/mpeg"));
}

#[test]
fn test_get_unknown_extension() {
    assert_eq!(Mime::get("unknown"), None);
    assert_eq!(Mime::get("xyz123"), None);
    assert_eq!(Mime::get(""), Some("application/octet-stream"));
}

#[test]
fn test_get_or_fallback_known_extensions() {
    assert_eq!(Mime::get_or_fallback("html"), "text/html");
    assert_eq!(Mime::get_or_fallback("css"), "text/css");
    assert_eq!(Mime::get_or_fallback("js"), "application/javascript");
}

#[test]
fn test_get_or_fallback_unknown_extensions() {
    assert_eq!(Mime::get_or_fallback("unknown"), "unknown");
    assert_eq!(Mime::get_or_fallback("xyz123"), "xyz123");
    assert_eq!(Mime::get_or_fallback("custom"), "custom");
}

#[test]
fn test_get_suffix_known_mime_types() {
    assert_eq!(Mime::get_suffix("text/html"), Some("html"));
    assert_eq!(Mime::get_suffix("text/css"), Some("css"));
    assert_eq!(Mime::get_suffix("application/javascript"), Some("js"));
    assert_eq!(Mime::get_suffix("application/json"), Some("json"));
    assert_eq!(Mime::get_suffix("image/png"), Some("png"));
    assert_eq!(Mime::get_suffix("image/jpeg"), Some("jpg"));
}

#[test]
fn test_get_suffix_unknown_mime_types() {
    assert_eq!(Mime::get_suffix("unknown/type"), None);
    assert_eq!(Mime::get_suffix("custom/mime"), None);
    assert_eq!(Mime::get_suffix("application/nonexistent"), None);
}

#[test]
fn test_case_sensitivity() {
    assert_eq!(Mime::get("HTML"), None);
    assert_eq!(Mime::get("CSS"), None);
    assert_eq!(Mime::get_or_fallback("HTML"), "HTML");
}

#[test]
fn test_empty_and_edge_cases() {
    assert_eq!(Mime::get(""), Some("application/octet-stream"));
    assert_eq!(Mime::get_or_fallback(""), "application/octet-stream");
    assert_eq!(Mime::get_suffix("application/octet-stream"), Some(""));
}

#[test]
fn test_reverse_lookup_consistency() {
    // Test that reverse lookup works for some common types
    let test_cases = vec![
        ("html", "text/html"),
        ("css", "text/css"),
        ("js", "application/javascript"),
        ("json", "application/json"),
        ("png", "image/png"),
    ];

    for (ext, mime) in test_cases {
        assert_eq!(Mime::get(ext), Some(mime));
        assert_eq!(Mime::get_suffix(mime), Some(ext));
    }
}

#[test]
fn test_table_not_empty() {
    assert!(!MIME_TYPES.is_empty(), "MIME table should not be empty");
    assert!(
        !build_reverse_mime_types().is_empty(),
        "Reverse MIME table should not be empty"
    );
}

#[test]
fn every_extension_round_trips_to_its_mime_type() {
    for (ext, mime) in MIME_TYPES.iter() {
        assert_eq!(Mime::get(ext), Some(*mime));
        let suffix = Mime::get_suffix(mime).unwrap();
        assert_eq!(Mime::get(suffix), Some(*mime));
    }
}

#[test]
fn extensions_stand_in_ascending_order() {
    for pair in MIME_TYPES.windows(2) {
        assert!(pair[0].0 < pair[1].0);
    }
}

#[test]
fn pinned_extensions_win_over_the_table() {
    for (mime, ext) in SUFFIX_OVERRIDES.iter() {
        assert_eq!(Mime::get_suffix(mime), Some(*ext));
        assert_eq!(Mime::get(ext), Some(*mime));
    }
    // Without a pin the last extension in order stands for the type.
    assert_eq!(Mime::get("webm"), Some("video/webm"));
    assert_eq!(Mime::get_suffix("video/webm"), Some("webm"));
    assert_eq!(Mime::get_suffix("image/svg+xml"), Some("svg"));
    assert_eq!(Mime::get_suffix("application/yaml"), Some("yaml"));
}

#[test]
fn reverse_table_is_the_flipped_table_then_the_pins() {
    let reverse = build_reverse_mime_types();
    assert_eq!(reverse.len(), MIME_TYPES.len() + SUFFIX_OVERRIDES.len());
    for (i, (ext, mime)) in MIME_TYPES.iter().enumerate() {
        assert_eq!(reverse[i], (*mime, *ext));
    }
    for (j, pin) in SUFFIX_OVERRIDES.iter().enumerate() {
        assert_eq!(reverse[MIME_TYPES.len() + j], *pin);
    }
    // The last pair with a MIME type is the one that a lookup gives.
    for (mime, _) in reverse.iter() {
        let last = reverse.iter().rev().find(|(m, _)| m == mime).unwrap();
        assert_eq!(Mime::get_suffix(mime), Some(last.1));
    }
}

#[test]
fn fallback_is_the_identity_on_unknown_texts() {
    for text in ["", "x", "text/html", "HTML", "h t m l", "\u{e9}t\u{e9}", "html "] {
        match Mime::get(text) {
            Some(mime) => assert_eq!(Mime::get_or_fallback(text), mime),
            None => assert_eq!(Mime::get_or_fallback(text), text),
        }
    }
    assert_eq!(Mime::get_or_fallback("text/html"), "text/html");
    assert_eq!(Mime::get_or_fallback("html "), "html ");
}

#[test]
fn every_shared_mime_type_has_a_pin() {
    for (i, (_, mime)) in MIME_TYPES.iter().enumerate() {
        let shared = MIME_TYPES.iter().enumerate().any(|(j, (_, other))| i != j && other == mime);
        let pin = SUFFIX_OVERRIDES.iter().find(|(pinned, _)| pinned == mime);
        if shared {
            let (_, ext) = pin.unwrap();
            assert_eq!(Mime::get_suffix(mime), Some(*ext));
        }
    }
    // Three extensions, one MIME type: the pin decides.
    assert_eq!(Mime::get("htm"), Some("text/html"));
    assert_eq!(Mime::get("shtml"), Some("text/html"));
    assert_eq!(Mime::get_suffix("text/html"), Some("html"));
    assert_eq!(Mime::get_suffix("application/java-archive"), Some("jar"));
}
