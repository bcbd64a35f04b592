use sensu::ask::{Ask, Method};
use sensu::client::{interpret, SensuClient};
use sensu::codec::{decode, Scalar};
use sensu::endpoint::SensuEndpoint;
use sensu::err::SensuError;
use sensu::expire::Expire;
use sensu::json::Json;
use sensu::payload::SensuPayload;

fn client() -> SensuClient {
    SensuClient::new("http://sensu.example.com:4567".to_string()).unwrap()
}

#[test]
fn new_accepts_a_base_uri() {
    assert!(SensuClient::new("http://localhost:4567".to_string()).is_ok());
    assert!(SensuClient::new("https://sensu.internal/".to_string()).is_ok());
}

#[test]
fn new_refuses_what_is_no_uri() {
    assert_eq!(
        SensuClient::new("".to_string()).err(),
        Some(SensuError::Message("empty string".to_string()))
    );
    assert_eq!(
        SensuClient::new("http://bad host/".to_string()).err(),
        Some(SensuError::Message("invalid uri character".to_string()))
    );
}

#[test]
fn endpoint_paths() {
    assert_eq!(SensuEndpoint::Clients.path(), "/clients");
    assert_eq!(SensuEndpoint::Client("web1".to_string()).path(), "/clients/web1");
    assert_eq!(SensuEndpoint::Results.path(), "/results");
    assert_eq!(SensuEndpoint::Silenced.path(), "/silenced");
    assert_eq!(SensuEndpoint::Clear.path(), "/silenced/clear");
}

#[test]
fn request_without_body_inherits_scheme_and_authority() {
    let request = client().request(Method::Get, "/clients", None).unwrap();
    assert_eq!(request.method, Method::Get);
    assert_eq!(request.uri.to_string(), "http://sensu.example.com:4567/clients");
    assert_eq!(request.content_type, None);
    assert_eq!(request.content_length, None);
    assert_eq!(request.body, None);
}

#[test]
fn request_for_one_client_names_it_in_the_path() {
    let ask =
        Ask { method: Method::Get, endpoint: SensuEndpoint::Client("web-1".to_string()), body: None };
    let request = client().prepare(ask).unwrap();
    assert_eq!(request.uri.to_string(), "http://sensu.example.com:4567/clients/web-1");
}

#[test]
fn request_with_body_sets_content_headers() {
    let payload = SensuPayload {
        res: Some("client:web1".to_string()),
        chk: Some("disk".to_string()),
        expire: Some(Expire::After { seconds: 600, on_resolve: false }),
    };
    let request = client().request(Method::Post, "/silenced", Some(payload)).unwrap();
    let body =
        r#"{"check":"disk","expire":600,"expire_on_resolve":false,"resource":"client:web1"}"#;
    assert_eq!(request.method, Method::Post);
    assert_eq!(request.uri.to_string(), "http://sensu.example.com:4567/silenced");
    assert_eq!(request.content_type, Some("application/json".to_string()));
    assert_eq!(request.content_length, Some(body.len()));
    assert_eq!(request.body, Some(body.to_string()));
}

#[test]
fn content_length_counts_bytes() {
    let payload = SensuPayload { res: None, chk: Some("é".to_string()), expire: None };
    let request = client().request(Method::Post, "/silenced/clear", Some(payload)).unwrap();
    assert_eq!(request.body, Some("{\"check\":\"é\"}".to_string()));
    assert_eq!(request.content_length, Some(14));
    assert_eq!(request.uri.to_string(), "http://sensu.example.com:4567/silenced/clear");
}

#[test]
fn absent_payload_fields_are_left_out() {
    let body = |payload: SensuPayload| {
        client().request(Method::Post, "/silenced", Some(payload)).unwrap().body.unwrap()
    };
    assert_eq!(body(SensuPayload { res: None, chk: None, expire: None }), "{}");
    assert_eq!(
        body(SensuPayload { res: Some("web".to_string()), chk: None, expire: None }),
        r#"{"resource":"web"}"#
    );
    assert_eq!(
        body(SensuPayload {
            res: None,
            chk: Some("cpu".to_string()),
            expire: Some(Expire::NoExpiration { on_resolve: true }),
        }),
        r#"{"check":"cpu","expire_on_resolve":true}"#
    );
}

#[test]
fn body_text_is_escaped_and_sorted_by_key() {
    let payload = SensuPayload {
        res: Some("a\"b".to_string()),
        chk: Some("c\\d\n".to_string()),
        expire: Some(Expire::After { seconds: 0, on_resolve: true }),
    };
    let request = client().request(Method::Post, "/silenced", Some(payload)).unwrap();
    assert_eq!(
        request.body,
        Some(r#"{"check":"c\\d\n","expire":0,"expire_on_resolve":true,"resource":"a\"b"}"#.to_string())
    );
}

#[test]
fn body_that_is_text_but_no_json_shows_every_character() {
    let response = SensuClient::response(200, "héllo wörld".as_bytes());
    assert_eq!(response.notice, Some("Response: héllo wörld".to_string()));
}

#[test]
fn payload_members_in_order() {
    let payload = SensuPayload {
        res: Some("web".to_string()),
        chk: Some("cpu".to_string()),
        expire: Some(Expire::After { seconds: 30, on_resolve: true }),
    };
    assert_eq!(
        payload.members(),
        vec![
            ("resource".to_string(), Scalar::Text("web".to_string())),
            ("check".to_string(), Scalar::Text("cpu".to_string())),
            ("expire".to_string(), Scalar::Count(30)),
            ("expire_on_resolve".to_string(), Scalar::Flag(true)),
        ]
    );
}

#[test]
fn request_fails_on_an_endpoint_that_is_no_uri() {
    let ask =
        Ask { method: Method::Get, endpoint: SensuEndpoint::Client("bad name".to_string()), body: None };
    let made = client().prepare(ask);
    assert_eq!(made.err(), Some(SensuError::Message("invalid uri character".to_string())));
}

#[test]
fn request_fails_where_the_base_has_no_scheme() {
    let bare = SensuClient::new("sensu.example.com:4567".to_string()).unwrap();
    let made = bare.request(Method::Get, "/clients", None);
    assert_eq!(made.err(), Some(SensuError::Message("scheme missing".to_string())));
}

#[test]
fn request_under_a_base_whose_scheme_is_there_but_empty_is_made() {
    let odd = SensuClient::new("://host".to_string()).unwrap();
    let request = odd.request(Method::Get, "/clients", None).unwrap();
    assert_eq!(request.uri.to_string(), "://host/clients");
    assert_eq!(request.uri.scheme_part().map(|s| s.as_str()), Some(""));
    assert_eq!(request.uri.authority_part().map(|a| a.as_str()), Some("host"));
    assert_eq!(request.uri.path_and_query().map(|p| p.as_str()), Some("/clients"));
}

#[test]
fn request_under_a_base_that_is_a_path_alone_stays_a_path() {
    let bare = SensuClient::new("/prefix".to_string()).unwrap();
    let request = bare.request(Method::Get, "/clients?x=1", None).unwrap();
    assert_eq!(request.uri.to_string(), "/clients?x=1");
    assert_eq!(request.uri.scheme_part(), None);
    assert_eq!(request.uri.authority_part(), None);
}

#[test]
fn request_inherits_nothing_but_scheme_and_authority() {
    let based = SensuClient::new("https://sensu.example.com/base/path?q=1".to_string()).unwrap();
    let request = based.request(Method::Get, "/results", None).unwrap();
    assert_eq!(request.uri.to_string(), "https://sensu.example.com/results");
}

#[test]
fn request_to_a_uri_with_an_authority_keeps_it() {
    let request = client().request(Method::Get, "https://other.example.org:8080/x?y=1", None).unwrap();
    assert_eq!(request.uri.to_string(), "https://other.example.org:8080/x?y=1");
}

#[test]
fn request_keeps_the_query_of_a_path() {
    let request = client().request(Method::Get, "/results?limit=3", None).unwrap();
    assert_eq!(request.uri.to_string(), "http://sensu.example.com:4567/results?limit=3");
}

#[test]
fn prepare_is_request_on_the_parts_of_an_ask() {
    let ask = Ask { method: Method::Get, endpoint: SensuEndpoint::Results, body: None };
    let request = client().prepare(ask).unwrap();
    assert_eq!(request.method, Method::Get);
    assert_eq!(request.uri.to_string(), "http://sensu.example.com:4567/results");
}

#[test]
fn status_404_is_not_found() {
    let response = SensuClient::response(404, &b"{\"error\":\"gone\"}".to_vec());
    assert_eq!(response.reply, Err(SensuError::NotFound));
    assert_eq!(response.notice, None);
    let response = SensuClient::response(404, &Vec::new());
    assert_eq!(response.reply, Err(SensuError::NotFound));
}

#[test]
fn only_a_404_is_answered_without_its_body() {
    assert!(!SensuClient::reads_body(404));
    for status in [0, 200, 201, 204, 400, 403, 405, 500, 502, u16::MAX] {
        assert!(SensuClient::reads_body(status));
    }
}

#[test]
fn empty_body_is_success_without_document() {
    let response = SensuClient::response(201, &Vec::new());
    assert_eq!(response.reply, Ok(None));
    assert_eq!(response.notice, None);
}

#[test]
fn json_body_is_decoded() {
    let response = SensuClient::response(200, &b"[{\"name\":\"web1\",\"n\":3}]".to_vec());
    assert_eq!(
        response.reply,
        Ok(Some(Json::Array(vec![Json::Object(vec![
            ("n".to_string(), Json::Number(Some(3))),
            ("name".to_string(), Json::String("web1".to_string())),
        ])])))
    );
    assert_eq!(response.notice, None);
}

#[test]
fn other_statuses_do_not_decide() {
    let response = SensuClient::response(500, &b"{}".to_vec());
    assert_eq!(response.reply, Ok(Some(Json::Object(vec![]))));
}

#[test]
fn body_that_is_no_json_is_shown_and_fails() {
    let response = SensuClient::response(200, &b"<html>oops</html>".to_vec());
    assert_eq!(
        response.reply,
        Err(SensuError::Message("expected value at line 1 column 1".to_string()))
    );
    assert_eq!(response.notice, Some("Response: <html>oops</html>".to_string()));
}

#[test]
fn body_that_is_no_text_fails_with_the_decoder_message() {
    let response = SensuClient::response(200, &vec![0xff, 0xfe, 0x00]);
    assert_eq!(
        response.reply,
        Err(SensuError::Message("invalid utf-8 sequence of 1 bytes from index 0".to_string()))
    );
    assert_eq!(response.notice, None);
}

#[test]
fn interpret_decides_in_order() {
    let doc = || Ok(Json::Bool(true));
    let text = || Ok("true".to_string());
    assert_eq!(interpret(404, false, doc(), text()).reply, Err(SensuError::NotFound));
    assert_eq!(interpret(404, true, doc(), text()).reply, Err(SensuError::NotFound));
    assert_eq!(interpret(200, true, doc(), text()).reply, Ok(None));
    assert_eq!(interpret(200, false, doc(), text()).reply, Ok(Some(Json::Bool(true))));
    let failed = interpret(200, false, Err("bad json".to_string()), Ok("raw".to_string()));
    assert_eq!(failed.reply, Err(SensuError::Message("bad json".to_string())));
    assert_eq!(failed.notice, Some("Response: raw".to_string()));
    let failed = interpret(200, false, Err("bad json".to_string()), Err("bad text".to_string()));
    assert_eq!(failed.reply, Err(SensuError::Message("bad text".to_string())));
    assert_eq!(failed.notice, None);
}

#[test]
fn decode_reads_every_kind_of_document() {
    assert_eq!(decode(b"null"), Ok(Json::Null));
    assert_eq!(decode(b" true "), Ok(Json::Bool(true)));
    assert_eq!(decode(b"18446744073709551615"), Ok(Json::Number(Some(u64::MAX))));
    assert_eq!(decode(b"-1"), Ok(Json::Number(None)));
    assert_eq!(decode(b"1.5"), Ok(Json::Number(None)));
    assert_eq!(decode(b"\"a\\nb\""), Ok(Json::String("a\nb".to_string())));
    assert_eq!(
        decode(b"[1,[2],{\"k\":[]}]"),
        Ok(Json::Array(vec![
            Json::Number(Some(1)),
            Json::Array(vec![Json::Number(Some(2))]),
            Json::Object(vec![("k".to_string(), Json::Array(vec![]))]),
        ]))
    );
}

#[test]
fn decode_reports_the_parser_message() {
    assert_eq!(decode(b"{"), Err("EOF while parsing an object at line 1 column 1".to_string()));
    assert_eq!(decode(b"[1,]"), Err("trailing comma at line 1 column 4".to_string()));
}

#[test]
fn json_accessors() {
    let doc = decode(br#"{"s":"text","n":7,"b":true,"a":[1,2],"s2":"again","neg":-3}"#).unwrap();
    assert_eq!(doc.get("s").and_then(|j| j.as_str()), Some("text"));
    assert_eq!(doc.get("n").and_then(|j| j.as_u64()), Some(7));
    assert_eq!(doc.get("neg").and_then(|j| j.as_u64()), None);
    assert_eq!(doc.get("b").and_then(|j| j.as_bool()), Some(true));
    assert_eq!(doc.get("a").and_then(|j| j.as_array()).map(|v| v.len()), Some(2));
    assert_eq!(doc.get("missing"), None);
    assert_eq!(doc.get("s").unwrap().get("s"), None);
    assert_eq!(doc.get("n").unwrap().as_str(), None);
    assert_eq!(doc.get("s").unwrap().as_bool(), None);
    assert_eq!(doc.as_array(), None);
    let twice = Json::Object(vec![
        ("k".to_string(), Json::Number(Some(1))),
        ("k".to_string(), Json::Number(Some(2))),
    ]);
    assert_eq!(twice.get("k"), Some(&Json::Number(Some(1))));
}
