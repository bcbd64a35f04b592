use itertools::Itertools;
use sensu::expire::Expire;
use sensu::payload::SensuPayload;
use sensu::plan::{Command, Dispatch};
use sensu::text::decimal;

fn strings(items: &[&str]) -> Vec<String> {
    items.iter().map(|s| s.to_string()).collect()
}

fn pairs(batch: &[Dispatch]) -> Vec<(Option<String>, Option<String>)> {
    batch.iter().map(|d| (d.payload.res.clone(), d.payload.chk.clone())).collect()
}

#[test]
fn decimal_writes_digits() {
    assert_eq!(decimal(0), "0");
    assert_eq!(decimal(9), "9");
    assert_eq!(decimal(10), "10");
    assert_eq!(decimal(600), "600");
    assert_eq!(decimal(1234567890), "1234567890");
    assert_eq!(decimal(u64::MAX), "18446744073709551615");
}

#[test]
fn expire_texts() {
    assert_eq!(Expire::NoExpiration { on_resolve: false }.text(), "never expire");
    assert_eq!(Expire::NoExpiration { on_resolve: true }.text(), "expire on resolve");
    assert_eq!(Expire::After { seconds: 600, on_resolve: false }.text(), "expire in 600 seconds");
    assert_eq!(
        Expire::After { seconds: 1, on_resolve: true }.text(),
        "expire in 1 seconds or on resolve"
    );
}

#[test]
fn cross_product_has_one_request_per_pair() {
    let resources = strings(&["r0", "r1", "r2"]);
    let checks = strings(&["c0", "c1"]);
    let batch = Command::Clear.plan(&Some(resources.clone()), &Some(checks.clone())).unwrap();
    assert_eq!(batch.len(), 6);
    for i in 0..3 {
        for j in 0..2 {
            let d = &batch[i * 2 + j];
            assert_eq!(d.payload.res, Some(resources[i].clone()));
            assert_eq!(d.payload.chk, Some(checks[j].clone()));
            assert_eq!(d.payload.expire, None);
        }
    }
}

#[test]
fn cross_product_runs_in_the_order_of_a_cartesian_product() {
    let resources = strings(&["a", "b", "c", "a"]);
    let checks = strings(&["x", "y", "x"]);
    let batch = Command::Clear.plan(&Some(resources.clone()), &Some(checks.clone())).unwrap();
    let expected: Vec<(Option<String>, Option<String>)> = resources
        .into_iter()
        .cartesian_product(checks.into_iter())
        .map(|(r, c)| (Some(r), Some(c)))
        .collect();
    assert_eq!(pairs(&batch), expected);
}

#[test]
fn cross_product_with_an_empty_side_is_empty() {
    let some = Some(strings(&["a", "b"]));
    let none = Some(Vec::new());
    assert_eq!(Command::Clear.plan(&some, &none), Some(vec![]));
    assert_eq!(Command::Clear.plan(&none, &some), Some(vec![]));
    assert_eq!(Command::Clear.plan(&none, &none), Some(vec![]));
}

#[test]
fn silence_batch_announces_and_carries_the_expiration() {
    let expire = Expire::After { seconds: 600, on_resolve: false };
    let batch = Command::Silence(expire)
        .plan(&Some(strings(&["client:web1"])), &Some(strings(&["disk"])))
        .unwrap();
    assert_eq!(
        batch,
        vec![Dispatch {
            notice: "Silencing check disk on resource client:web1 and will expire in 600 seconds"
                .to_string(),
            payload: SensuPayload {
                res: Some("client:web1".to_string()),
                chk: Some("disk".to_string()),
                expire: Some(expire),
            },
        }]
    );
}

#[test]
fn resources_alone_leave_the_check_out() {
    let expire = Expire::NoExpiration { on_resolve: true };
    let batch = Command::Silence(expire).plan(&Some(strings(&["web", "db"])), &None).unwrap();
    assert_eq!(pairs(&batch), vec![(Some("web".to_string()), None), (Some("db".to_string()), None)]);
    assert_eq!(batch[0].notice, "Silencing all checks on resource web and will expire on resolve");
    assert_eq!(batch[1].payload.expire, Some(expire));
    let batch = Command::Clear.plan(&Some(strings(&["web"])), &None).unwrap();
    assert_eq!(batch[0].notice, "Clearing silences on all checks on resources web");
    assert_eq!(batch[0].payload.expire, None);
}

#[test]
fn checks_alone_leave_the_resource_out() {
    let expire = Expire::NoExpiration { on_resolve: false };
    let batch = Command::Silence(expire).plan(&None, &Some(strings(&["cpu", "disk"]))).unwrap();
    assert_eq!(pairs(&batch), vec![(None, Some("cpu".to_string())), (None, Some("disk".to_string()))]);
    assert_eq!(batch[1].notice, "Silencing checks disk on all resources and will never expire");
    let batch = Command::Clear.plan(&None, &Some(strings(&["cpu"]))).unwrap();
    assert_eq!(batch[0].notice, "Clearing silences on checks cpu on all resources");
}

#[test]
fn clear_pair_notice() {
    let batch = Command::Clear.plan(&Some(strings(&["web"])), &Some(strings(&["cpu"]))).unwrap();
    assert_eq!(batch[0].notice, "Clearing silences on checks cpu on resources web");
}

#[test]
fn no_targets_is_no_batch() {
    assert_eq!(Command::Clear.plan(&None, &None), None);
    assert_eq!(
        Command::Silence(Expire::NoExpiration { on_resolve: false }).plan(&None, &None),
        None
    );
}
