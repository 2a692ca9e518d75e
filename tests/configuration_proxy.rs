use detsys_ids_client::checkin::{Checkin, Feature};
use detsys_ids_client::collator::{CollatedSignal, Collator, RawSignal, Stamp};
use detsys_ids_client::configuration_proxy::{CheckinStatus, ConfigurationProxy};
use detsys_ids_client::correlation::Correlation;
use detsys_ids_client::recorder::{forward_refresh, resolve_feature_lookup, wait_step, WaitStep};
use detsys_ids_client::submitter::Submitter;
use detsys_ids_client::{AnonymousDistinctId, StringMap};

fn checkin_with(flags: &[(&str, &str)]) -> Checkin {
    let mut c = Checkin::empty();
    for (name, variant) in flags {
        c.set_flag(
            name.to_string(),
            Feature {
                variant: variant.to_string(),
                payload: None,
            },
        );
    }
    c
}

fn stamp() -> Stamp {
    Stamp {
        snapshot: StringMap::new(),
        timestamp: "t".to_string(),
        event_uuid: "u".to_string(),
        fresh_anon_id: AnonymousDistinctId::from("fresh".to_string()),
    }
}

#[test]
fn flag_call_emits_meta_event() {
    let mut proxy = ConfigurationProxy::new();
    proxy.handle_message_check_in_now(Some(checkin_with(&[("its-true", "true")])));

    let mut collator = Collator::new(
        None,
        None,
        None,
        StringMap::new(),
        StringMap::new(),
        Correlation::empty(),
        None,
    );
    let mut submitter = Submitter::new();

    let key = "its-true".to_string();
    let lookup = resolve_feature_lookup(key.clone(), proxy.handle_message_get_feature(&key));
    assert_eq!(lookup.feature.as_ref().unwrap().variant, "true");
    let out = collator.handle(lookup.record.unwrap(), &stamp());
    if let Some(CollatedSignal::Event(e)) = out.forward {
        submitter.push_event(e);
    }
    let out = collator.handle(
        RawSignal::Event {
            event_name: "later".to_string(),
            properties: None,
        },
        &stamp(),
    );
    if let Some(CollatedSignal::Event(e)) = out.forward {
        submitter.push_event(e);
    }

    let queued = submitter.events();
    assert_eq!(queued.len(), 2);
    assert_eq!(queued[0].name, "$feature_flag_called");
    let props = queued[0].properties.properties.as_ref().unwrap();
    assert_eq!(
        props.get(&"$feature_flag".to_string()),
        Some(&"\"its-true\"".to_string())
    );
    assert_eq!(
        props.get(&"$feature_flag_response".to_string()),
        Some(&"true".to_string())
    );
    assert_eq!(queued[1].name, "later");
}

#[test]
fn missing_flag_records_nothing() {
    let proxy = ConfigurationProxy::new();
    let key = "nope".to_string();
    let lookup = resolve_feature_lookup(key.clone(), proxy.handle_message_get_feature(&key));
    assert!(lookup.record.is_none());
    assert!(lookup.feature.is_none());
}

#[test]
fn checkin_cache_not_corrupted_by_transport_error() {
    let mut proxy = ConfigurationProxy::new();
    let first = proxy.handle_message_check_in_now(Some(checkin_with(&[("a", "1"), ("b", "2")])));
    assert!(first.notify);

    let outcome = proxy.handle_message_check_in_now(None);
    assert!(!outcome.notify);
    let a = proxy.handle_message_get_feature(&"a".to_string()).unwrap();
    assert_eq!(a.variant, "1");
    let b = proxy.handle_message_get_feature(&"b".to_string()).unwrap();
    assert_eq!(b.variant, "2");
    assert_eq!(outcome.checkin.unwrap().flag_count(), 2);
}

#[test]
fn reply_arrives_when_transport_fails_on_empty_cache() {
    let mut proxy = ConfigurationProxy::new();
    let outcome = proxy.handle_message_check_in_now(None);
    assert!(outcome.checkin.is_none());
    assert_eq!(outcome.feature_facts.len(), 0);
    assert!(!outcome.notify);
    assert_eq!(proxy.handle_message_query_if_checked_in(), CheckinStatus::NotYet);
}

#[test]
fn same_document_is_not_announced() {
    let mut proxy = ConfigurationProxy::new();
    assert!(proxy.handle_message_check_in_now(Some(checkin_with(&[("a", "1")]))).notify);
    assert!(!proxy.handle_message_check_in_now(Some(checkin_with(&[("a", "1")]))).notify);
    assert!(proxy.handle_message_check_in_now(Some(checkin_with(&[("a", "2")]))).notify);
    assert_eq!(
        proxy.handle_message_get_feature(&"a".to_string()).unwrap().variant,
        "2"
    );
}

#[test]
fn refresh_completes_for_a_requester_that_gave_up() {
    // The requester's wait was cancelled, but the refresh itself still runs
    // to completion and a later wait sees the document.
    let mut proxy = ConfigurationProxy::new();
    let abandoned = proxy.handle_message_check_in_now(Some(checkin_with(&[("its-true", "true")])));
    drop(abandoned);
    let status = proxy.handle_message_query_if_checked_in();
    assert_eq!(status, CheckinStatus::CheckedIn);
    assert_eq!(wait_step(status, true), WaitStep::Done);
}

#[test]
fn wait_steps() {
    assert_eq!(wait_step(CheckinStatus::NotYet, true), WaitStep::AwaitChange);
    assert_eq!(wait_step(CheckinStatus::NotYet, false), WaitStep::SubscribeFailed);
    assert_eq!(wait_step(CheckinStatus::CheckedIn, false), WaitStep::Done);
}

#[test]
fn refresh_reply_forwards_feature_facts() {
    let mut proxy = ConfigurationProxy::new();
    let outcome = proxy.handle_message_check_in_now(Some(checkin_with(&[("x", "\"on\"")])));
    let forwarded = forward_refresh(Some((outcome.checkin, outcome.feature_facts)));
    match forwarded {
        Some(RawSignal::UpdateFeatureFacts(ff)) => {
            assert_eq!(
                ff.get(&"$feature/x".to_string()),
                Some(&"\"on\"".to_string())
            );
        }
        _ => panic!("expected feature facts"),
    }
    assert!(forward_refresh(None).is_none());
}

#[test]
fn feature_facts_list_flags_and_variants() {
    let c = checkin_with(&[("alpha", "true"), ("beta", "\"b\"")]);
    let ff = c.as_feature_facts();
    assert_eq!(ff.len(), 3);
    assert_eq!(
        ff.get(&"$active_feature_flags".to_string()),
        Some(&"[\"alpha\",\"beta\"]".to_string())
    );
    assert_eq!(ff.get(&"$feature/alpha".to_string()), Some(&"true".to_string()));
    assert_eq!(ff.get(&"$feature/beta".to_string()), Some(&"\"b\"".to_string()));
}

#[test]
fn empty_checkin_has_no_flags_and_default_policy() {
    let c = Checkin::empty();
    assert_eq!(c.flag_count(), 0);
    assert!(c.server_options.compression_algorithms.zstd);
    let ff = c.as_feature_facts();
    assert_eq!(
        ff.get(&"$active_feature_flags".to_string()),
        Some(&"[]".to_string())
    );
}
