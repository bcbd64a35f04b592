use sensu::codec::decode;
use sensu::json::Json;
use sensu::listing::{list_notices, show_if, SilenceRecord};
use sensu::pattern::Pattern;

fn json(text: &str) -> Json {
    decode(text.as_bytes()).unwrap()
}

#[test]
fn pattern_matches_anywhere_in_the_text() {
    let p = Pattern::compile("disk").unwrap();
    assert!(p.is_match("disk"));
    assert!(p.is_match("check_disk_root"));
    assert!(!p.is_match("dis"));
    assert!(!p.is_match(""));
    let anchored = Pattern::compile("^db[0-9]+$").unwrap();
    assert!(anchored.is_match("db12"));
    assert!(!anchored.is_match("xdb12"));
}

#[test]
fn default_pattern_matches_everything() {
    let any = Pattern::compile_or_any(&None).unwrap();
    assert!(any.is_match(""));
    assert!(any.is_match("anything at all"));
    let given = Pattern::compile_or_any(&Some("^a".to_string())).unwrap();
    assert!(given.is_match("abc"));
    assert!(!given.is_match("bca"));
}

#[test]
fn pattern_over_the_size_limit_is_refused() {
    assert!(Pattern::compile("\\w{100}").is_err());
    assert!(Pattern::compile("a(").is_err());
}

#[test]
fn record_fields_and_defaults() {
    let record = SilenceRecord::read(&json(
        r#"{"subscription":"db","check":"disk","creator":"alice","expire":600,"expire_on_resolve":true}"#,
    ))
    .unwrap();
    assert_eq!(
        record,
        SilenceRecord {
            subscription: "db".to_string(),
            check: "disk".to_string(),
            expire: Some(600),
            expire_on_resolve: true,
            user: "alice".to_string(),
        }
    );
    let record = SilenceRecord::read(&json("{}")).unwrap();
    assert_eq!(
        record,
        SilenceRecord {
            subscription: "all".to_string(),
            check: "all".to_string(),
            expire: None,
            expire_on_resolve: false,
            user: "unknown".to_string(),
        }
    );
    assert_eq!(SilenceRecord::read(&json("[]")), None);
    assert_eq!(SilenceRecord::read(&json("\"db\"")), None);
}

#[test]
fn record_text_with_and_without_expiration() {
    let mut record = SilenceRecord {
        subscription: "client:web1".to_string(),
        check: "all".to_string(),
        expire: Some(0),
        expire_on_resolve: false,
        user: "bob".to_string(),
    };
    assert_eq!(
        record.text(),
        "\tSubscription:\t\tclient:web1\n\tCheck:\t\t\tall\n\tExpiration:\t\t0\n\tExpire on resolve:\tfalse\n\tUser:\t\t\tbob\n"
    );
    record.expire = None;
    record.expire_on_resolve = true;
    assert_eq!(
        record.text(),
        "\tSubscription:\t\tclient:web1\n\tCheck:\t\t\tall\n\tExpiration:\t\tnever\n\tExpire on resolve:\ttrue\n\tUser:\t\t\tbob\n"
    );
}

#[test]
fn an_entry_is_shown_only_if_both_patterns_matched() {
    let entry = json(r#"{"subscription":"db"}"#);
    assert!(show_if(&entry, true, true).is_some());
    assert_eq!(show_if(&entry, false, true), None);
    assert_eq!(show_if(&entry, true, false), None);
    assert_eq!(show_if(&entry, false, false), None);
    assert_eq!(show_if(&json("[1]"), true, true), None);
}

#[test]
fn list_notices_keep_the_order_of_the_entries() {
    let body = Some(json(
        r#"[{"subscription":"b","check":"x"},{"subscription":"a","check":"y"},{"subscription":"b","check":"z"}]"#,
    ));
    let sub = Pattern::compile("b").unwrap();
    let chk = Pattern::compile(".*").unwrap();
    let notices = list_notices(&body, &sub, &chk);
    assert_eq!(notices.len(), 2);
    assert!(notices[0].contains("\tCheck:\t\t\tx\n"));
    assert!(notices[1].contains("\tCheck:\t\t\tz\n"));
    assert_eq!(list_notices(&None, &sub, &chk), Vec::<String>::new());
    assert_eq!(list_notices(&Some(json("[]")), &sub, &chk), vec!["\tNo silences".to_string()]);
}
