use detsys_ids_client::compression::{
    AttemptStep, CompressionAlgorithm, CompressionSet, Negotiation, ServerOptions,
    UNSUPPORTED_MEDIA_TYPE,
};

/// The algorithm names of a JSON array, as a server advertises them; entries
/// that are not strings name no algorithm.
fn names(json: &str) -> Vec<String> {
    serde_json::from_str::<Vec<serde_json::Value>>(json)
        .unwrap()
        .into_iter()
        .filter_map(|v| v.as_str().map(String::from))
        .collect()
}

#[test]
fn test_parse_compression_empty_defaults_to_identity() {
    let json = r#"
        [
        ]
        "#;

    assert_eq!(
        CompressionSet::from_algorithm_names(&names(json)),
        CompressionSet { zstd: false }
    );
}

#[test]
fn test_parse_compression_few() {
    let json = r#"
        [
          "zstd",
          "identity"
        ]
        "#;

    assert_eq!(
        CompressionSet::from_algorithm_names(&names(json)),
        CompressionSet { zstd: true }
    );
}

#[test]
fn test_parse_compression_zstd_not_identity() {
    let json = r#"
        [
          "zstd"
        ]
        "#;

    assert_eq!(
        CompressionSet::from_algorithm_names(&names(json)),
        CompressionSet { zstd: true }
    );
}

#[test]
fn test_parse_compression_zstd_with_bogus() {
    let json = r#"
        [
          "zstd",
          "abc123"
        ]
        "#;

    assert_eq!(
        CompressionSet::from_algorithm_names(&names(json)),
        CompressionSet { zstd: true }
    );
}

#[test]
fn identity_only_set_is_not_zstd() {
    assert_eq!(
        CompressionSet::from_algorithm_names(&names(r#"["identity"]"#)),
        CompressionSet { zstd: false }
    );
}

#[test]
fn default_set_prefers_zstd() {
    assert_eq!(CompressionSet::default(), CompressionSet { zstd: true });
    assert_eq!(
        CompressionSet { zstd: true }.algorithms(),
        vec![CompressionAlgorithm::Zstd, CompressionAlgorithm::Identity]
    );
    assert_eq!(
        CompressionSet { zstd: false }.into_iter().collect::<Vec<_>>(),
        vec![CompressionAlgorithm::Identity]
    );
}

#[test]
fn content_encoding_names_zstd_only() {
    assert_eq!(
        CompressionAlgorithm::Zstd.content_encoding(),
        Some("zstd".to_string())
    );
    assert_eq!(CompressionAlgorithm::Identity.content_encoding(), None);
}

#[test]
fn delete_drops_zstd_but_never_identity() {
    let mut set = CompressionSet { zstd: true };
    set.delete(&CompressionAlgorithm::Identity);
    assert_eq!(set, CompressionSet { zstd: true });
    set.delete(&CompressionAlgorithm::Zstd);
    assert_eq!(set, CompressionSet { zstd: false });
}

#[test]
fn compression_fallback_on_415() {
    let mut options = ServerOptions::default();

    let mut first = Negotiation::start(&options);
    assert_eq!(first.current(), Some(CompressionAlgorithm::Zstd));
    assert_eq!(
        first.on_status(&mut options, UNSUPPORTED_MEDIA_TYPE),
        AttemptStep::TryNext
    );
    assert_eq!(options.compression_algorithms, CompressionSet { zstd: false });
    assert_eq!(first.current(), Some(CompressionAlgorithm::Identity));
    assert_eq!(first.on_status(&mut options, 200), AttemptStep::Deliver);
    assert_eq!(options.compression_algorithms, CompressionSet { zstd: false });

    let later = Negotiation::start(&options);
    assert_eq!(later.current(), Some(CompressionAlgorithm::Identity));
}

#[test]
fn every_encoding_rejected_leaves_nothing_to_try() {
    let mut options = ServerOptions::default();
    let mut n = Negotiation::start(&options);
    assert_eq!(n.on_status(&mut options, 415), AttemptStep::TryNext);
    assert_eq!(n.on_status(&mut options, 415), AttemptStep::TryNext);
    assert_eq!(n.current(), None);
    assert_eq!(options.compression_algorithms, CompressionSet { zstd: false });
}

#[test]
fn server_error_status_is_delivered() {
    let mut options = ServerOptions::default();
    let mut n = Negotiation::start(&options);
    assert_eq!(n.on_status(&mut options, 500), AttemptStep::Deliver);
    assert_eq!(options.compression_algorithms, CompressionSet { zstd: true });
    assert_eq!(n.current(), Some(CompressionAlgorithm::Zstd));
}
