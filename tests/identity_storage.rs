use detsys_ids_client::checkin::Feature;
use detsys_ids_client::correlation::{Correlation, CorrelationInputs, DetsysTsGitHubAction, GroupSeed};
use detsys_ids_client::json::{object_of, string_array_of, string_object_of};
use detsys_ids_client::recorder::{pointer_target, IdentifyProperties};
use detsys_ids_client::storage::{Generic, JsonFile, StoredProperties};
use detsys_ids_client::{AnonymousDistinctId, DeviceId, DistinctId, StringMap};

#[test]
fn generated_ids_have_their_shape() {
    let a = AnonymousDistinctId::new();
    let b = AnonymousDistinctId::default();
    assert_eq!(a.to_string().len(), 36);
    assert_ne!(a.to_string(), b.to_string());
    let d = DeviceId::new();
    assert!(d.to_string().starts_with("DIDS-DEV-"));
    assert_eq!(d.to_string().len(), 45);
}

#[test]
fn ids_from_strings_keep_their_text() {
    assert_eq!(DistinctId::from("u".to_string()).to_string(), "u");
    assert_eq!(DeviceId::from("d".to_string()).as_str(), "d");
    assert!(AnonymousDistinctId::from("x".to_string()).equals(&AnonymousDistinctId::from("x".to_string())));
}

#[test]
fn in_memory_store_returns_what_was_stored() {
    let mut store = Generic::default();
    assert!(store.load().is_none());
    let identity = StoredProperties {
        anonymous_distinct_id: AnonymousDistinctId::default(),
        distinct_id: None,
        device_id: DeviceId::from("hi".to_string()),
        groups: StringMap::new(),
        checkin: None,
    };
    let anon = identity.anonymous_distinct_id.to_string();
    store.store(identity);
    let loaded = store.load().unwrap();
    assert_eq!(loaded.anonymous_distinct_id.to_string(), anon);
    assert_eq!(loaded.device_id.to_string(), "hi");
}

#[test]
fn json_file_lives_in_its_parent_directory() {
    let f = JsonFile::new("/var/lib/example/storage.json".to_string()).unwrap();
    assert_eq!(f.location, "/var/lib/example/storage.json");
    assert_eq!(f.directory, "/var/lib/example");
    assert!(JsonFile::new(String::new()).is_none());
    assert!(JsonFile::new("/".to_string()).is_none());
}

#[test]
fn strings_are_json_encoded() {
    assert_eq!(
        string_array_of(&vec!["a".to_string(), "say \"hi\"".to_string()]),
        "[\"a\",\"say \\\"hi\\\"\"]"
    );
    let mut m = StringMap::new();
    m.insert("k".to_string(), "v".to_string());
    assert_eq!(string_object_of(&m), "{\"k\":\"v\"}");
    assert_eq!(object_of(&m), "{\"k\":v}");
}

#[test]
fn map_insert_replaces_in_place() {
    let mut m = StringMap::new();
    m.insert("a".to_string(), "1".to_string());
    m.insert("b".to_string(), "2".to_string());
    m.insert("a".to_string(), "3".to_string());
    assert_eq!(m.len(), 2);
    assert_eq!(object_of(&m), "{\"a\":3,\"b\":2}");
}

#[test]
fn pointer_flag_names_its_target() {
    let f = Feature {
        variant: "\"a\"".to_string(),
        payload: Some("\"dni-det-msg-a\"".to_string()),
    };
    assert_eq!(pointer_target(&f), Some("dni-det-msg-a".to_string()));
    let not_a_string = Feature {
        variant: "\"a\"".to_string(),
        payload: Some("42".to_string()),
    };
    assert_eq!(pointer_target(&not_a_string), None);
    let none = Feature {
        variant: "false".to_string(),
        payload: None,
    };
    assert_eq!(pointer_target(&none), None);
}

#[test]
fn identify_properties_as_map() {
    let mut p = IdentifyProperties::default();
    p.set.insert("plan".to_string(), "\"pro\"".to_string());
    let m = p.as_map();
    assert_eq!(m.get(&"$set".to_string()), Some(&"{\"plan\":\"pro\"}".to_string()));
    assert_eq!(m.get(&"$set_once".to_string()), Some(&"{}".to_string()));
}

fn seed(name: &str, member: Option<&str>) -> GroupSeed {
    GroupSeed {
        name: name.to_string(),
        member: member.map(String::from),
    }
}

#[test]
fn legacy_envelope_becomes_direct_seed() {
    let mut extra = Correlation::empty();
    extra.properties.insert("job".to_string(), "\"GHWJ-xxx\"".to_string());
    extra.groups.push(seed("project", Some("overlay")));
    extra.groups.push(seed("ci", None));
    let legacy = DetsysTsGitHubAction {
        repository: "GHR-xxx".to_string(),
        run: Some("GHWJR-xxx".to_string()),
        run_differentiator: Some("GHWJA-xxx".to_string()),
        workflow: Some("GHW-xxx".to_string()),
        groups: vec![
            seed("ci", Some("github-actions")),
            seed("project", Some("nix-installer")),
            seed("empty", None),
        ],
        extra_properties: extra,
    };
    let c = Correlation::from_inputs(Some(CorrelationInputs::DetSysTs(legacy)));
    assert_eq!(c.distinct_id.as_ref().unwrap().to_string(), "GHR-xxx");
    assert_eq!(c.session_id.as_deref(), Some("GHWJR-xxx"));
    assert_eq!(c.window_id.as_deref(), Some("GHWJA-xxx"));
    assert_eq!(c.device_id.as_ref().unwrap().to_string(), "GHW-xxx");
    assert!(c.anon_distinct_id.is_none());
    let groups = c.groups_as_map();
    assert_eq!(groups.len(), 2);
    assert_eq!(groups.get(&"ci".to_string()), Some(&"github-actions".to_string()));
    assert_eq!(groups.get(&"project".to_string()), Some(&"overlay".to_string()));
    assert!(c.groups.iter().all(|g| g.member.is_some()));
    assert_eq!(c.properties.get(&"job".to_string()), Some(&"\"GHWJ-xxx\"".to_string()));
}

#[test]
fn overlay_values_win_over_legacy_keys() {
    let mut extra = Correlation::empty();
    extra.session_id = Some("overlay-session".to_string());
    extra.distinct_id = Some(DistinctId::from("overlay-user".to_string()));
    let legacy = DetsysTsGitHubAction {
        repository: "repo".to_string(),
        run: Some("run".to_string()),
        run_differentiator: None,
        workflow: None,
        groups: vec![],
        extra_properties: extra,
    };
    let c = legacy.into_correlation();
    assert_eq!(c.session_id.as_deref(), Some("overlay-session"));
    assert_eq!(c.distinct_id.unwrap().to_string(), "overlay-user");
    assert!(c.window_id.is_none());
    assert!(c.device_id.is_none());
}

#[test]
fn absent_seed_supplies_nothing() {
    let c = Correlation::from_inputs(None);
    assert!(c.distinct_id.is_none());
    assert_eq!(c.groups_as_map().len(), 0);
}
