use sensu::ask::{Ask, Method};
use sensu::codec::decode;
use sensu::endpoint::SensuEndpoint;
use sensu::err::SensuError;
use sensu::json::Json;
use sensu::nodes::{get_node_to_client_map, NodeClientMap};
use sensu::resolve::{seek, Resolution, Resolved};
use sensu::resource::SensuResource;
use sensu::resources::{ShushResourceType, ShushResources};

fn json(text: &str) -> Json {
    decode(text.as_bytes()).unwrap()
}

fn ok(text: &str) -> Result<Option<Json>, SensuError> {
    Ok(Some(json(text)))
}

fn strings(items: &[&str]) -> Vec<String> {
    items.iter().map(|s| s.to_string()).collect()
}

fn selector(res_type: ShushResourceType, items: &[&str]) -> ShushResources {
    ShushResources { res_type, resources: strings(items) }
}

fn get_client(name: &str) -> Ask {
    Ask { method: Method::Get, endpoint: SensuEndpoint::Client(name.to_string()), body: None }
}

fn get_clients() -> Ask {
    Ask { method: Method::Get, endpoint: SensuEndpoint::Clients, body: None }
}

fn asked(step: sensu::resolve::ResolveStep) -> (Resolution, Ask, Vec<String>) {
    match step.outcome {
        Resolved::Ask(state, ask) => (state, ask, step.notices),
        other => panic!("expected an exchange, got {:?}", other),
    }
}

fn done(step: sensu::resolve::ResolveStep) -> (Vec<SensuResource>, Vec<String>) {
    match step.outcome {
        Resolved::Done(resources) => (resources, step.notices),
        other => panic!("expected resources, got {:?}", other),
    }
}

#[test]
fn node_with_registered_client_resolves_to_it() {
    let (state, ask, notices) = asked(Resolution::start(selector(ShushResourceType::Node, &["i-1"])));
    assert_eq!(ask, get_clients());
    assert!(notices.is_empty());
    let (state, ask, notices) =
        asked(state.resume(ok(r#"[{"instance_id":"i-1","name":"web1"}]"#)));
    assert_eq!(ask, get_client("web1"));
    assert!(notices.is_empty());
    let (resolved, notices) = done(state.resume(ok(r#"{"name":"web1"}"#)));
    assert_eq!(resolved, vec![SensuResource::Client("web1".to_string())]);
    assert!(notices.is_empty());
}

#[test]
fn node_without_registered_client_warns_once() {
    let (state, _, _) = asked(Resolution::start(selector(ShushResourceType::Node, &["i-2"])));
    let (resolved, notices) = done(state.resume(ok("[]")));
    assert_eq!(resolved, Vec::<SensuResource>::new());
    assert_eq!(notices.len(), 1);
    assert_eq!(
        notices[0],
        "WARNING: instance ID \"i-2\" not associated with Sensu client ID\n\
         If you recently provisioned an instance, please wait for it to register with Sensu\n"
    );
}

#[test]
fn unregistered_ids_are_skipped_between_registered_ones() {
    let clients = r#"[{"instance_id":"i-1","name":"web1"},{"instance_id":"i-3","name":"db1"}]"#;
    let (state, _, _) = asked(Resolution::start(selector(
        ShushResourceType::Node,
        &["i-0", "i-1", "i-2", "i-3", "i-4"],
    )));
    let (state, ask, notices) = asked(state.resume(ok(clients)));
    assert_eq!(ask, get_client("web1"));
    assert_eq!(notices.len(), 1);
    assert!(notices[0].contains("\"i-0\""));
    let (state, ask, notices) = asked(state.resume(Ok(None)));
    assert_eq!(ask, get_client("db1"));
    assert_eq!(notices.len(), 1);
    assert!(notices[0].contains("\"i-2\""));
    let (resolved, notices) = done(state.resume(Ok(None)));
    assert_eq!(
        resolved,
        vec![
            SensuResource::Client("web1".to_string()),
            SensuResource::Client("db1".to_string())
        ]
    );
    assert_eq!(notices.len(), 1);
    assert!(notices[0].contains("\"i-4\""));
}

#[test]
fn a_node_id_is_used_up_by_its_first_lookup() {
    let (state, _, _) =
        asked(Resolution::start(selector(ShushResourceType::Node, &["i-1", "i-1"])));
    let (state, ask, _) = asked(state.resume(ok(r#"[{"instance_id":"i-1","name":"web1"}]"#)));
    assert_eq!(ask, get_client("web1"));
    let (resolved, notices) = done(state.resume(Ok(None)));
    assert_eq!(resolved, vec![SensuResource::Client("web1".to_string())]);
    assert_eq!(notices.len(), 1);
}

#[test]
fn node_client_that_is_definitely_absent_is_dropped() {
    let (state, _, _) =
        asked(Resolution::start(selector(ShushResourceType::Node, &["i-1", "i-2"])));
    let clients = r#"[{"instance_id":"i-1","name":"web1"},{"instance_id":"i-2","name":"web2"}]"#;
    let (state, _, _) = asked(state.resume(ok(clients)));
    let (state, ask, _) = asked(state.resume(Err(SensuError::NotFound)));
    assert_eq!(ask, get_client("web2"));
    let (resolved, _) = done(state.resume(Err(SensuError::Message("timed out".to_string()))));
    assert_eq!(resolved, vec![SensuResource::Client("web2".to_string())]);
}

#[test]
fn failed_clients_list_fails_the_resolution_of_nodes() {
    for failure in [SensuError::Message("connection refused".to_string()), SensuError::NotFound] {
        let (state, _, _) = asked(Resolution::start(selector(ShushResourceType::Node, &["x"])));
        let step = state.resume(Err(failure));
        assert!(step.notices.is_empty());
        match step.outcome {
            Resolved::Failed(SensuError::Message(m)) => assert_eq!(m, "connection refused"),
            Resolved::Failed(SensuError::NotFound) => {}
            other => panic!("expected a failure, got {:?}", other),
        }
    }
}

#[test]
fn client_names_that_cannot_be_asked_for_are_kept() {
    let (state, ask, _) = asked(Resolution::start(selector(ShushResourceType::Client, &["a"])));
    assert_eq!(ask, get_client("a"));
    let (resolved, _) = done(state.resume(Err(SensuError::Message("connection refused".to_string()))));
    assert_eq!(resolved, vec![SensuResource::Client("a".to_string())]);
}

#[test]
fn empty_selectors_resolve_to_nothing() {
    let (resolved, notices) = done(Resolution::start(selector(ShushResourceType::Client, &[])));
    assert!(resolved.is_empty());
    assert!(notices.is_empty());
    let (state, _, _) = asked(Resolution::start(selector(ShushResourceType::Node, &[])));
    let (resolved, notices) = done(state.resume(ok(r#"[{"instance_id":"i-1","name":"web1"}]"#)));
    assert!(resolved.is_empty());
    assert!(notices.is_empty());
    let (state, _, _) = asked(Resolution::start(selector(ShushResourceType::Sub, &[])));
    let (resolved, notices) = done(state.resume(ok("[]")));
    assert!(resolved.is_empty());
    assert!(notices.is_empty());
}

#[test]
fn client_names_are_validated_one_by_one() {
    let (state, ask, _) =
        asked(Resolution::start(selector(ShushResourceType::Client, &["a", "b", "c"])));
    assert_eq!(ask, get_client("a"));
    let (state, ask, _) = asked(state.resume(ok("{}")));
    assert_eq!(ask, get_client("b"));
    let (state, ask, _) = asked(state.resume(Err(SensuError::NotFound)));
    assert_eq!(ask, get_client("c"));
    let (resolved, notices) = done(state.resume(Err(SensuError::Message("boom".to_string()))));
    assert_eq!(
        resolved,
        vec![SensuResource::Client("a".to_string()), SensuResource::Client("c".to_string())]
    );
    assert!(notices.is_empty());
}

#[test]
fn subscriptions_are_filtered_as_a_batch() {
    let (state, ask, _) =
        asked(Resolution::start(selector(ShushResourceType::Sub, &["db", "cache", "web"])));
    assert_eq!(ask, get_clients());
    let clients = r#"[{"name":"a","subscriptions":["web","db"]},{"name":"b","subscriptions":["db",7]},{"name":"c"}]"#;
    let (resolved, notices) = done(state.resume(ok(clients)));
    assert_eq!(
        resolved,
        vec![
            SensuResource::Subscription("db".to_string()),
            SensuResource::Subscription("web".to_string())
        ]
    );
    assert_eq!(notices, vec!["Subscription cache does not exist - filtering...".to_string()]);
}

#[test]
fn subscriptions_stay_when_the_clients_list_cannot_be_had() {
    let (state, _, _) =
        asked(Resolution::start(selector(ShushResourceType::Sub, &["db", "db", "web"])));
    let (resolved, notices) = done(state.resume(Err(SensuError::NotFound)));
    assert_eq!(
        resolved,
        vec![
            SensuResource::Subscription("db".to_string()),
            SensuResource::Subscription("db".to_string()),
            SensuResource::Subscription("web".to_string())
        ]
    );
    assert_eq!(
        notices,
        vec![
            "Failed to pull data from API for subscriptions\nProceeding without subscription validation"
                .to_string()
        ]
    );
}

#[test]
fn node_map_skips_entries_without_both_fields() {
    let reply = ok(
        r#"[{"instance_id":"i-1","name":"web1"},{"name":"orphan"},{"instance_id":"i-9"},
            {"instance_id":7,"name":"n"},"text",{"instance_id":"i-1","name":"web1b"}]"#,
    );
    let mut map = get_node_to_client_map(&reply).unwrap();
    assert_eq!(map.remove(&"i-9".to_string()), None);
    assert_eq!(map.remove(&"i-1".to_string()), Some("web1b".to_string()));
    assert_eq!(map.remove(&"i-1".to_string()), None);
}

#[test]
fn node_map_of_a_body_that_is_no_array_is_empty() {
    let mut map = get_node_to_client_map(&ok(r#"{"instance_id":"i-1","name":"web1"}"#)).unwrap();
    assert_eq!(map.remove(&"i-1".to_string()), None);
    let mut map = get_node_to_client_map(&Ok(None)).unwrap();
    assert_eq!(map.remove(&"i-1".to_string()), None);
}

#[test]
fn node_map_fails_as_its_exchange_does() {
    assert_eq!(
        get_node_to_client_map(&Err(SensuError::NotFound)).err(),
        Some(SensuError::NotFound)
    );
    assert_eq!(
        get_node_to_client_map(&Err(SensuError::Message("down".to_string()))).err(),
        Some(SensuError::Message("down".to_string()))
    );
}

#[test]
fn seek_stops_at_the_first_registered_id() {
    let mut map = NodeClientMap::new();
    map.insert("i-2".to_string(), "web2".to_string());
    map.insert("i-3".to_string(), "web3".to_string());
    let ids = strings(&["i-1", "i-2", "i-3"]);
    let (next, found, warnings) = seek(&mut map, &ids, 0);
    assert_eq!((next, found), (2, Some("web2".to_string())));
    assert_eq!(warnings.len(), 1);
    let (next, found, warnings) = seek(&mut map, &ids, 0);
    assert_eq!((next, found), (3, Some("web3".to_string())));
    assert_eq!(warnings.len(), 2);
    let (next, found, warnings) = seek(&mut map, &ids, 1);
    assert_eq!((next, found), (3, None));
    assert_eq!(warnings.len(), 2);
    let (next, found, warnings) = seek(&mut map, &ids, 7);
    assert_eq!((next, found), (3, None));
    assert!(warnings.is_empty());
}
