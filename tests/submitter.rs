use detsys_ids_client::collator::{CollatedSignal, Collator, RawSignal, Stamp};
use detsys_ids_client::correlation::Correlation;
use detsys_ids_client::submitter::Submitter;
use detsys_ids_client::{AnonymousDistinctId, DeviceId, StringMap};

fn collator() -> Collator {
    Collator::new(
        Some(AnonymousDistinctId::from("a".to_string())),
        None,
        Some(DeviceId::from("d".to_string())),
        StringMap::new(),
        StringMap::new(),
        Correlation::empty(),
        None,
    )
}

fn queue(c: &mut Collator, s: &mut Submitter, name: &str) {
    let st = Stamp {
        snapshot: StringMap::new(),
        timestamp: "t".to_string(),
        event_uuid: "u".to_string(),
        fresh_anon_id: AnonymousDistinctId::from("f".to_string()),
    };
    let out = c.handle(
        RawSignal::Event {
            event_name: name.to_string(),
            properties: None,
        },
        &st,
    );
    match out.forward {
        Some(CollatedSignal::Event(e)) => s.push_event(e),
        _ => panic!("expected an event"),
    }
}

#[test]
fn submitter_retains_on_failure() {
    let mut c = collator();
    let mut s = Submitter::new();
    queue(&mut c, &mut s, "one");
    queue(&mut c, &mut s, "two");
    queue(&mut c, &mut s, "three");

    assert!(s.try_flush().is_some());
    s.on_submitted(false);
    assert_eq!(s.len(), 3);

    let batch = s.try_flush().unwrap();
    let parsed: serde_json::Value = serde_json::from_str(&batch).unwrap();
    assert_eq!(parsed["batch"].as_array().unwrap().len(), 3);
    s.on_submitted(true);
    assert_eq!(s.len(), 0);
    assert!(s.try_flush().is_none());
}

#[test]
fn empty_flush_is_a_no_op() {
    let s = Submitter::new();
    assert!(s.try_flush().is_none());
    assert!(s.batch_at("t").is_none());
}

#[test]
fn batch_text_is_exact() {
    let mut c = collator();
    let mut s = Submitter::new();
    queue(&mut c, &mut s, "e");
    let event = s.events()[0].to_json();
    assert_eq!(
        s.batch_at("now").unwrap(),
        format!("{{\"sent_at\":\"now\",\"batch\":[{}]}}", event)
    );
}

#[test]
fn batch_parses_as_json() {
    let mut c = collator();
    let mut s = Submitter::new();
    queue(&mut c, &mut s, "first");
    queue(&mut c, &mut s, "second \"quoted\"");
    let v: serde_json::Value = serde_json::from_str(&s.batch_at("now").unwrap()).unwrap();
    assert_eq!(v["sent_at"], "now");
    assert_eq!(v["batch"][0]["name"], "first");
    assert_eq!(v["batch"][1]["name"], "second \"quoted\"");
    assert_eq!(v["batch"][1]["properties"]["$device_id"], "d");
    assert_eq!(v["batch"][1]["properties"]["$lib"], "detsys-ids-client");
}
