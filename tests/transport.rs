use detsys_ids_client::transport::{
    configured, offline_checkin, submission_needs_io, transport_or_default, try_new, TransportSpec,
    TransportsError,
};

#[test]
fn https_and_http_select_http() {
    match try_new(Some("https://example.com".to_string())) {
        Ok(TransportSpec::Http { url }) => assert_eq!(url, "https://example.com"),
        _ => panic!("expected http"),
    }
    assert!(matches!(
        try_new(Some("http://localhost:8080".to_string())),
        Ok(TransportSpec::Http { .. })
    ));
}

#[test]
fn file_url_selects_file() {
    match try_new(Some("file:///tmp/events.jsonl".to_string())) {
        Ok(TransportSpec::File { path }) => assert_eq!(path, "/tmp/events.jsonl"),
        _ => panic!("expected file"),
    }
}

#[test]
fn bare_path_is_treated_as_file() {
    match try_new(Some("/tmp/events.jsonl".to_string())) {
        Ok(TransportSpec::File { path }) => assert_eq!(path, "/tmp/events.jsonl"),
        _ => panic!("expected file"),
    }
}

#[test]
fn other_schemes_are_refused() {
    assert!(matches!(
        try_new(Some("ftp://example.com".to_string())),
        Err(TransportsError::UnknownUrlScheme)
    ));
}

#[test]
fn malformed_url_is_a_parse_error() {
    match try_new(Some("http://[::1".to_string())) {
        Err(TransportsError::Parse(m)) => assert!(!m.is_empty()),
        _ => panic!("expected a parse error"),
    }
}

#[test]
fn no_endpoint_uses_service_discovery() {
    assert!(matches!(try_new(None), Ok(TransportSpec::SrvHttp)));
}

#[test]
fn disabled_reporting_uses_offline_transport() {
    assert!(matches!(
        configured(false, Some("https://example.com".to_string())),
        Ok(TransportSpec::Offline)
    ));
    assert!(matches!(
        configured(true, Some("https://example.com".to_string())),
        Ok(TransportSpec::Http { .. })
    ));
}

#[test]
fn failed_configuration_falls_back_to_service_discovery() {
    assert!(matches!(
        transport_or_default(Err(TransportsError::UnknownUrlScheme)),
        TransportSpec::SrvHttp
    ));
    assert!(matches!(
        transport_or_default(Ok(TransportSpec::Offline)),
        TransportSpec::Offline
    ));
}

#[test]
fn offline_transport_needs_no_io() {
    assert!(!submission_needs_io(&TransportSpec::Offline));
    let c = offline_checkin(&TransportSpec::Offline).unwrap();
    assert_eq!(c.flag_count(), 0);
    assert!(submission_needs_io(&TransportSpec::SrvHttp));
    assert!(offline_checkin(&TransportSpec::SrvHttp).is_none());
}
