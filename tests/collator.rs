use detsys_ids_client::collator::{CollatedSignal, Collator, CollatorOutput, RawSignal, Stamp};
use detsys_ids_client::correlation::Correlation;
use detsys_ids_client::event::Event;
use detsys_ids_client::storage::StoredProperties;
use detsys_ids_client::{AnonymousDistinctId, DeviceId, DistinctId, StringMap};

fn stamp(fresh: &str) -> Stamp {
    Stamp {
        snapshot: StringMap::new(),
        timestamp: "2024-01-01T00:00:00+00:00".to_string(),
        event_uuid: "00000000-0000-4000-8000-000000000000".to_string(),
        fresh_anon_id: AnonymousDistinctId::from(fresh.to_string()),
    }
}

fn fresh_collator() -> Collator {
    Collator::new(
        None,
        None,
        None,
        StringMap::new(),
        StringMap::new(),
        Correlation::empty(),
        None,
    )
}

fn event_of(out: CollatorOutput) -> Event {
    match out.forward {
        Some(CollatedSignal::Event(e)) => e,
        _ => panic!("expected an event"),
    }
}

fn record(c: &mut Collator, name: &str) -> Event {
    event_of(c.handle(
        RawSignal::Event {
            event_name: name.to_string(),
            properties: None,
        },
        &stamp("unused"),
    ))
}

#[test]
fn identify_rotates_anon_id() {
    let mut c = fresh_collator();
    let a0 = record(&mut c, "e0").properties.anon_distinct_id;

    let first = c.handle(RawSignal::Identify(DistinctId::from("user-1".to_string())), &stamp("A1"));
    assert!(first.persist.is_some());
    let e1 = record(&mut c, "e1");
    assert_eq!(e1.distinct_id, "user-1");
    assert_eq!(e1.properties.anon_distinct_id, a0);

    c.handle(RawSignal::Identify(DistinctId::from("user-2".to_string())), &stamp("A2"));
    let e2 = record(&mut c, "e2");
    assert_eq!(e2.distinct_id, "user-2");
    assert_eq!(e2.properties.anon_distinct_id, "A2");
    assert_ne!(e2.properties.anon_distinct_id, a0);
    assert_eq!(e1.properties.device_id, e2.properties.device_id);
}

#[test]
fn identify_emits_identify_event_and_persists() {
    let mut c = fresh_collator();
    let out = c.handle(RawSignal::Identify(DistinctId::from("u".to_string())), &stamp("A1"));
    let stored = out.persist.as_ref().unwrap();
    assert_eq!(stored.distinct_id.as_ref().unwrap().to_string(), "u");
    assert!(stored.checkin.is_none());
    let e = event_of(out);
    assert_eq!(e.name, "$identify");
    assert_eq!(e.distinct_id, "u");
}

#[test]
fn reset_reports_new_anon_id_and_keeps_device() {
    let mut c = fresh_collator();
    c.handle(RawSignal::Identify(DistinctId::from("u".to_string())), &stamp("A1"));
    let before = record(&mut c, "before");
    let out = c.handle(RawSignal::Reset, &stamp("R1"));
    assert!(out.forward.is_none());
    assert_eq!(out.persist.as_ref().unwrap().anonymous_distinct_id.to_string(), "R1");
    let after = record(&mut c, "after");
    assert_eq!(after.distinct_id, "R1");
    assert_eq!(after.properties.anon_distinct_id, "R1");
    assert_eq!(after.properties.device_id, before.properties.device_id);
}

#[test]
fn fact_then_event_carries_fact() {
    let mut c = fresh_collator();
    c.handle(
        RawSignal::Fact {
            key: "color".to_string(),
            value: "\"blue\"".to_string(),
        },
        &stamp("x"),
    );
    let e = record(&mut c, "painted");
    let flat = e.flattened_properties();
    assert_eq!(flat.get(&"color".to_string()), Some(&"\"blue\"".to_string()));
}

#[test]
fn empty_anon_candidates_are_skipped() {
    let c = Collator::new(
        Some(AnonymousDistinctId::from(String::new())),
        None,
        None,
        StringMap::new(),
        StringMap::new(),
        Correlation::empty(),
        None,
    );
    let mut c = c;
    let e = record(&mut c, "e");
    assert_eq!(e.properties.anon_distinct_id.len(), 36);
    assert_eq!(e.distinct_id, e.properties.anon_distinct_id);
}

#[test]
fn construction_priority_builder_then_stored_then_seed() {
    let mut seed = Correlation::empty();
    seed.anon_distinct_id = Some("seed-anon".to_string());
    seed.session_id = Some("seed-session".to_string());
    seed.device_id = Some(DeviceId::from("seed-device".to_string()));
    seed.distinct_id = Some(DistinctId::from("seed-user".to_string()));
    let mut stored_groups = StringMap::new();
    stored_groups.insert("org".to_string(), "stored".to_string());
    let stored = StoredProperties {
        anonymous_distinct_id: AnonymousDistinctId::from("stored-anon".to_string()),
        distinct_id: None,
        device_id: DeviceId::from("stored-device".to_string()),
        groups: stored_groups,
        checkin: None,
    };
    let mut c = Collator::new(
        None,
        None,
        Some(DeviceId::from("builder-device".to_string())),
        StringMap::new(),
        StringMap::new(),
        seed,
        Some(stored),
    );
    let e = record(&mut c, "e");
    assert_eq!(e.properties.anon_distinct_id, "stored-anon");
    assert_eq!(e.properties.device_id, "builder-device");
    assert_eq!(e.properties.session_id, "seed-session");
    assert_eq!(e.distinct_id, "seed-user");
}

#[test]
fn seed_properties_and_groups_are_merged() {
    let mut seed = Correlation::empty();
    seed.properties.insert("is_ci".to_string(), "true".to_string());
    seed.groups.push(detsys_ids_client::correlation::GroupSeed {
        name: "project".to_string(),
        member: Some("nix-installer".to_string()),
    });
    seed.groups.push(detsys_ids_client::correlation::GroupSeed {
        name: "ignored".to_string(),
        member: None,
    });
    let mut facts = StringMap::new();
    facts.insert("is_ci".to_string(), "false".to_string());
    let mut c = Collator::new(None, None, None, facts, StringMap::new(), seed, None);
    let e = record(&mut c, "e");
    assert_eq!(e.properties.facts.get(&"is_ci".to_string()), Some(&"true".to_string()));
    assert_eq!(e.properties.groups.len(), 1);
    assert_eq!(
        e.properties.groups.get(&"project".to_string()),
        Some(&"nix-installer".to_string())
    );
}

#[test]
fn alias_emits_create_alias_event() {
    let mut c = fresh_collator();
    let e = event_of(c.handle(RawSignal::Alias("other".to_string()), &stamp("x")));
    assert_eq!(e.name, "$create_alias");
    let props = e.properties.properties.unwrap();
    assert_eq!(props.get(&"alias".to_string()), Some(&"\"other\"".to_string()));
}

#[test]
fn add_group_persists_and_shows_in_events() {
    let mut c = fresh_collator();
    let out = c.handle(
        RawSignal::AddGroup {
            group_name: "org".to_string(),
            group_member_id: "acme".to_string(),
        },
        &stamp("x"),
    );
    assert!(out.forward.is_none());
    assert_eq!(
        out.persist.unwrap().groups.get(&"org".to_string()),
        Some(&"acme".to_string())
    );
    let e = record(&mut c, "e");
    let flat = e.flattened_properties();
    assert_eq!(
        flat.get(&"$groups".to_string()),
        Some(&"{\"org\":\"acme\"}".to_string())
    );
}

#[test]
fn session_properties_reply() {
    let mut c = Collator::new(
        Some(AnonymousDistinctId::from("anon".to_string())),
        None,
        None,
        StringMap::new(),
        StringMap::new(),
        Correlation::empty(),
        None,
    );
    let out = c.handle(RawSignal::GetSessionProperties, &stamp("x"));
    let reply = out.reply.unwrap();
    assert_eq!(reply.get(&"person_properties".to_string()), Some(&"{}".to_string()));
    assert_eq!(reply.get(&"distinct_id".to_string()), Some(&"\"anon\"".to_string()));
    assert_eq!(reply.get(&"$anon_distinct_id".to_string()), Some(&"\"anon\"".to_string()));
    assert_eq!(reply.get(&"groups".to_string()), Some(&"{}".to_string()));
}

#[test]
fn flush_now_is_forwarded_and_closing_flushes() {
    let mut c = fresh_collator();
    let out = c.handle(RawSignal::FlushNow, &stamp("x"));
    assert!(matches!(out.forward, Some(CollatedSignal::FlushNow)));
    assert!(matches!(c.finish(), CollatedSignal::FlushNow));
}

#[test]
fn update_feature_facts_reach_events() {
    let mut c = fresh_collator();
    let mut ff = StringMap::new();
    ff.insert("$feature/x".to_string(), "true".to_string());
    c.handle(RawSignal::UpdateFeatureFacts(ff), &stamp("x"));
    let e = record(&mut c, "e");
    assert_eq!(
        e.flattened_properties().get(&"$feature/x".to_string()),
        Some(&"true".to_string())
    );
}

#[test]
fn event_json_text_is_exact() {
    let mut seed = Correlation::empty();
    seed.session_id = Some("s".to_string());
    let mut c = Collator::new(
        Some(AnonymousDistinctId::from("a".to_string())),
        None,
        Some(DeviceId::from("d".to_string())),
        StringMap::new(),
        StringMap::new(),
        seed,
        None,
    );
    let mut st = stamp("x");
    st.timestamp = "t".to_string();
    st.event_uuid = "u".to_string();
    let e = event_of(c.handle(
        RawSignal::Event {
            event_name: "e0".to_string(),
            properties: None,
        },
        &st,
    ));
    assert_eq!(
        e.to_json(),
        "{\"name\":\"e0\",\"distinct_id\":\"a\",\"uuid\":\"u\",\"timestamp\":\"t\",\"properties\":{\"$anon_distinct_id\":\"a\",\"$device_id\":\"d\",\"$lib\":\"detsys-ids-client\",\"$lib_version\":\"0.1.0\",\"$session_id\":\"s\",\"$groups\":{}}}"
    );
}

#[test]
fn needs_snapshot_only_for_events_and_session_properties() {
    assert!(RawSignal::GetSessionProperties.needs_snapshot());
    assert!(RawSignal::Alias("a".to_string()).needs_snapshot());
    assert!(!RawSignal::FlushNow.needs_snapshot());
    assert!(!RawSignal::Reset.needs_snapshot());
}

#[test]
fn captured_stamp_has_fresh_ids() {
    let st = Stamp::capture(StringMap::new());
    assert_eq!(st.event_uuid.len(), 36);
    assert_eq!(st.fresh_anon_id.to_string().len(), 36);
    assert!(!st.timestamp.is_empty());
    let other = Stamp::capture(StringMap::new());
    assert_ne!(st.event_uuid, other.event_uuid);
}
