use sensu::codec::decode;
use sensu::err::SensuError;
use sensu::json::Json;
use sensu::resource::SensuResource;
use sensu::validate::{validate_checks, validate_client, validate_subscriptions, ClientStatus};

fn ok(text: &str) -> Result<Option<Json>, SensuError> {
    Ok(Some(decode(text.as_bytes()).unwrap()))
}

fn strings(items: &[&str]) -> Vec<String> {
    items.iter().map(|s| s.to_string()).collect()
}

fn message(text: &str) -> Result<Option<Json>, SensuError> {
    Err(SensuError::Message(text.to_string()))
}

#[test]
fn validate_client_is_false_only_for_not_found() {
    assert!(!validate_client(&Err(SensuError::NotFound)));
    assert!(validate_client(&message("connection reset")));
    assert!(validate_client(&message("")));
    assert!(validate_client(&Ok(None)));
    assert!(validate_client(&ok(r#"{"name":"web1"}"#)));
}

#[test]
fn client_status_keeps_the_three_outcomes_apart() {
    assert_eq!(ClientStatus::from_reply(&Ok(None)), ClientStatus::Confirmed);
    assert_eq!(
        ClientStatus::from_reply(&Err(SensuError::NotFound)),
        ClientStatus::DefinitelyAbsent
    );
    assert_eq!(ClientStatus::from_reply(&message("x")), ClientStatus::Unknown);
    assert!(ClientStatus::Confirmed.valid());
    assert!(ClientStatus::Unknown.valid());
    assert!(!ClientStatus::DefinitelyAbsent.valid());
}

#[test]
fn checks_are_filtered_against_the_results() {
    let results = r#"[{"client":"a","check":{"name":"disk"}},{"check":{"name":"cpu"}},
                     {"check":{"name":17}},{"check":"load"},{"other":1},"x"]"#;
    let out = validate_checks(strings(&["cpu", "load", "disk", "cpu", "17"]), &ok(results));
    assert_eq!(out.kept, strings(&["cpu", "disk", "cpu"]));
    assert_eq!(
        out.notices,
        strings(&[
            "Check load does not exist - filtering...",
            "Check 17 does not exist - filtering..."
        ])
    );
}

#[test]
fn checks_against_an_empty_results_list_are_all_dropped() {
    let out = validate_checks(strings(&["cpu", "disk"]), &ok("[]"));
    assert!(out.kept.is_empty());
    assert_eq!(out.notices.len(), 2);
}

#[test]
fn checks_stay_unmodified_when_the_fetch_fails() {
    let checks = strings(&["b", "a", "b", ""]);
    let fallback =
        "Failed to pull data from API for check results\nProceeding without check validation";

    let out = validate_checks(strings(&["b", "a", "b", ""]), &Err(SensuError::NotFound));
    assert_eq!(out.kept, checks);
    assert_eq!(out.notices, strings(&[fallback]));

    let out = validate_checks(strings(&["b", "a", "b", ""]), &message("connection refused"));
    assert_eq!(out.kept, checks);
    assert_eq!(out.notices, strings(&["connection refused"]));

    let out = validate_checks(strings(&["b", "a", "b", ""]), &Ok(None));
    assert_eq!(out.kept, checks);
    assert_eq!(out.notices, strings(&[fallback]));

    let out = validate_checks(strings(&["b", "a", "b", ""]), &ok(r#"{"check":{"name":"a"}}"#));
    assert_eq!(out.kept, checks);
    assert_eq!(out.notices, strings(&[fallback]));
}

#[test]
fn subscriptions_stay_unmodified_when_the_fetch_fails() {
    let subs = || {
        vec![
            SensuResource::Subscription("web".to_string()),
            SensuResource::Client("c1".to_string()),
            SensuResource::Subscription("web".to_string()),
        ]
    };
    let fallback = "Failed to pull data from API for subscriptions\nProceeding without subscription validation";

    let out = validate_subscriptions(subs(), &Err(SensuError::NotFound));
    assert_eq!(out.kept, subs());
    assert_eq!(out.notices, strings(&[fallback]));

    let out = validate_subscriptions(subs(), &message("no route to host"));
    assert_eq!(out.kept, subs());
    assert_eq!(out.notices, strings(&["no route to host"]));

    let out = validate_subscriptions(subs(), &Ok(None));
    assert_eq!(out.kept, subs());
    assert_eq!(out.notices, strings(&[fallback]));

    let out = validate_subscriptions(subs(), &ok("17"));
    assert_eq!(out.kept, subs());
    assert_eq!(out.notices, strings(&[fallback]));
}

#[test]
fn subscriptions_are_known_by_name_and_reported_by_identifier() {
    let clients = r#"[{"subscriptions":["web","c1"]},{"subscriptions":"db"},{"subscriptions":[null,"db"]}]"#;
    let out = validate_subscriptions(
        vec![
            SensuResource::Subscription("db".to_string()),
            SensuResource::Client("c1".to_string()),
            SensuResource::Client("c2".to_string()),
            SensuResource::Subscription("cache".to_string()),
            SensuResource::Subscription("web".to_string()),
        ],
        &ok(clients),
    );
    assert_eq!(
        out.kept,
        vec![
            SensuResource::Subscription("db".to_string()),
            SensuResource::Client("c1".to_string()),
            SensuResource::Subscription("web".to_string()),
        ]
    );
    assert_eq!(
        out.notices,
        strings(&[
            "Subscription client:c2 does not exist - filtering...",
            "Subscription cache does not exist - filtering..."
        ])
    );
}
