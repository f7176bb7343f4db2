use rqrs::api::{Body, HeaderValue, Method, Rq, Rs};
use rqrs::json::Json;
use rqrs::{Bot, Error};

fn num(s: &str) -> Json {
    Json::Number(s.to_string())
}

fn obj(members: Vec<(&str, Json)>) -> Json {
    Json::Object(members.into_iter().map(|(k, v)| (k.to_string(), v)).collect())
}

fn number_text(j: &Json) -> &str {
    match j {
        Json::Number(s) => s.as_str(),
        other => panic!("not a number: {:?}", other),
    }
}

fn base() -> Rq {
    Rq::from_static("https://reqres.in").unwrap()
}

#[test]
fn test_bot_builder() {
    let bot = Bot::new("http://localhost:3000").unwrap();
    assert_eq!(bot.url.as_str(), "http://localhost:3000/");
    assert!(!bot.debug);

    let bot = Bot::from_settings(None, None).unwrap();
    assert_eq!(bot.url.as_str(), "http://localhost:3000/");
    assert!(!bot.debug);
}

#[test]
fn bot_settings_debug_flag() {
    let bot = Bot::from_settings(Some("https://example.com/base"), Some("true")).unwrap();
    assert_eq!(bot.url, "https://example.com/base");
    assert!(bot.debug);
    let bot = Bot::from_settings(None, Some("yes")).unwrap();
    assert!(!bot.debug);
    let bot = Bot::from_settings(None, Some("false")).unwrap();
    assert!(!bot.debug);
}

#[test]
fn invalid_base_url_is_rejected() {
    assert_eq!(Bot::new("not a url").unwrap_err(), Error::InvalidUrl);
    assert_eq!(Bot::new("/relative/only").unwrap_err(), Error::InvalidUrl);
    assert_eq!(Rq::from_static("").unwrap_err(), Error::InvalidUrl);
    assert_eq!(Bot::from_settings(Some("::"), None).unwrap_err(), Error::InvalidUrl);
}

#[test]
fn test_api_builder() {
    let form = Some(("foo", "bar"));
    let rq = Rq::from_static("https://reqres.in")
        .unwrap()
        .uri("/api/users")
        .method("GET")
        .unwrap()
        .add_secret_header(b"x-api-key", "reqres-free-v1")
        .unwrap()
        .with_json()
        .unwrap()
        .add_params(vec![("page".to_string(), "2".to_string())])
        .load_payload(obj(vec![("first_name", Json::Str("George".to_string()))]))
        .unwrap()
        .add_payload("baz", Json::Str("bar".to_string()))
        .apply_if(form, |r, v| r.add_form(v.0, v.1));

    assert_eq!(rq.method, Method::Get);
    assert_eq!(rq.uri, "/api/users");
    assert_eq!(rq.headers.len(), 3);
    assert_eq!(rq.header(b"x-api-key").unwrap().as_str(), "reqres-free-v1");
    assert_eq!(rq.header(b"Content-Type").unwrap().as_str(), "application/json");
    assert_eq!(rq.params.len(), 1);
    assert!(matches!(rq.json_field("first_name"), Some(Json::Str(s)) if s == "George"));
    assert_eq!(rq.form[0].1, "bar");

    let prepared = rq.prepare().unwrap();
    assert_eq!(prepared.url, "https://reqres.in/api/users");
    assert_eq!(prepared.method.as_str(), "GET");
    assert!(matches!(prepared.body, Body::Form(ref f) if f.len() == 1));

    let users: Vec<Json> = (1..=6).map(|i| obj(vec![("id", num(&i.to_string()))])).collect();
    let parsed = obj(vec![("page", num("2")), ("data", Json::Array(users))]);
    let rs = Rs::from_reply(200, "{...}".to_string(), Some(parsed));
    let data = match &rs.data {
        Json::Object(m) => m.iter().find(|(k, _)| k == "data").map(|(_, v)| v),
        _ => None,
    };
    assert!(matches!(data, Some(Json::Array(items)) if items.len() == 6));
    assert!(rs.raw.is_none());
}

#[test]
fn end_to_end_get_with_secret_header_and_query() {
    let rq = base()
        .uri("/api/users")
        .method("GET")
        .unwrap()
        .add_secret_header(b"x-api-key", "reqres-free-v1")
        .unwrap()
        .add_params(vec![("page".to_string(), "2".to_string())]);
    let secret = rq.header(b"X-API-KEY").unwrap();
    assert!(secret.is_sensitive());
    let prepared = rq.prepare().unwrap();
    assert_eq!(prepared.url, "https://reqres.in/api/users");
    assert_eq!(prepared.query, vec![("page".to_string(), "2".to_string())]);
    assert_eq!(prepared.headers.len(), 1);
    assert_eq!(prepared.headers[0].0, "x-api-key");
    assert!(matches!(prepared.body, Body::Json(ref j) if j.is_empty()));

    let users: Vec<Json> = (1..=6).map(|i| obj(vec![("id", num(&i.to_string()))])).collect();
    let rs = Rs::from_reply(200, String::new(), Some(obj(vec![("data", Json::Array(users))])));
    assert!(rs.is_success());
    match &rs.data {
        Json::Object(m) => {
            assert_eq!(m[0].0, "data");
            assert!(matches!(&m[0].1, Json::Array(items) if items.len() == 6));
        }
        other => panic!("unexpected body {:?}", other),
    }
}

#[test]
fn supported_methods_parse_to_matching_verbs() {
    for (name, verb) in [
        ("GET", Method::Get),
        ("POST", Method::Post),
        ("PUT", Method::Put),
        ("DELETE", Method::Delete),
    ] {
        let rq = base().method(name).unwrap();
        assert_eq!(rq.method, verb);
        let prepared = rq.prepare().unwrap();
        assert_eq!(prepared.method.as_str(), name);
    }
}

#[test]
fn other_methods_are_unsupported() {
    for name in ["PATCH", "get", "HEAD", "", "OPTIONS", "GET "] {
        assert_eq!(base().method(name).unwrap_err(), Error::UnsupportedMethod);
    }
    assert_eq!(Method::parse("TRACE"), None);
}

#[test]
fn same_header_twice_keeps_one_entry_with_second_value() {
    let rq = base()
        .add_header(b"X-Trace", "one")
        .unwrap()
        .add_header(b"Other", "x")
        .unwrap()
        .add_header(b"x-trace", "two")
        .unwrap();
    assert_eq!(rq.headers.len(), 2);
    assert_eq!(rq.headers[0].0, "x-trace");
    assert_eq!(rq.header(b"X-Trace").unwrap().as_str(), "two");
    assert!(!rq.header(b"X-Trace").unwrap().is_sensitive());
}

#[test]
fn header_names_compare_case_insensitively() {
    let r1 = base().add_header(b"Content-Type", "text/plain").unwrap();
    let r2 = r1.add_header(b"content-type", "application/json").unwrap();
    assert_eq!(r2.headers.len(), 1);
    assert_eq!(r2.header(b"CONTENT-TYPE").unwrap().as_str(), "application/json");
    assert!(rqrs::api::header_name_valid(b"Content-Type"));
    assert!(!rqrs::api::header_name_valid(b"Content Type"));
    assert!(!rqrs::api::header_name_valid(b""));
}

#[test]
fn secret_header_replaces_plain_one() {
    let rq = base()
        .add_header(b"Authorization", "plain")
        .unwrap()
        .add_secret_header(b"authorization", "Bearer t")
        .unwrap();
    assert_eq!(rq.headers.len(), 1);
    let v = rq.header(b"Authorization").unwrap();
    assert!(matches!(v, HeaderValue::Sensitive(s) if s == "Bearer t"));
}

#[test]
fn invalid_header_name_is_skipped() {
    let rq = base().add_header(b"bad name", "v").unwrap();
    assert!(rq.headers.is_empty());
    let rq = base().add_header(b"", "v").unwrap();
    assert!(rq.headers.is_empty());
    // the value is not looked at when the name is skipped
    let rq = base().add_header(b"bad:name", "bad\nvalue").unwrap();
    assert!(rq.headers.is_empty());
}

#[test]
fn invalid_header_value_fails() {
    assert_eq!(base().add_header(b"x-ok", "line\nbreak").unwrap_err(), Error::InvalidHeader);
    assert_eq!(base().add_header(b"x-ok", "del\u{7f}").unwrap_err(), Error::InvalidHeader);
    assert!(base().add_header(b"x-ok", "tab\tand unicode \u{e9}").is_ok());
}

#[test]
fn invalid_secret_header_fails() {
    assert_eq!(base().add_secret_header(b"bad name", "v").unwrap_err(), Error::InvalidHeader);
    assert_eq!(base().add_secret_header(b"x-key", "a\rb").unwrap_err(), Error::InvalidHeader);
}

#[test]
fn with_json_sets_accept_and_content_type() {
    let rq = base().with_json().unwrap();
    assert_eq!(rq.headers.len(), 2);
    assert_eq!(rq.headers[0].0, "accept");
    assert_eq!(rq.headers[1].0, "content-type");
    assert_eq!(rq.header(b"accept").unwrap().as_str(), "application/json");
}

#[test]
fn query_params_are_replaced_not_appended() {
    let rq = base()
        .add_params(vec![("a".to_string(), "1".to_string()), ("b".to_string(), "2".to_string())])
        .add_params(vec![("c".to_string(), "3".to_string())]);
    assert_eq!(rq.params, vec![("c".to_string(), "3".to_string())]);
}

#[test]
fn payloads_merge_with_overwrite() {
    let rq = base()
        .load_payload(obj(vec![("a", num("1"))]))
        .unwrap()
        .load_payload(obj(vec![("a", num("2")), ("b", num("3"))]))
        .unwrap();
    assert_eq!(rq.json.len(), 2);
    assert_eq!(rq.json[0].0, "a");
    assert_eq!(number_text(&rq.json[0].1), "2");
    assert_eq!(rq.json[1].0, "b");
    assert_eq!(number_text(&rq.json[1].1), "3");
}

#[test]
fn payload_that_is_not_an_object_fails() {
    assert_eq!(base().load_payload(Json::Array(vec![])).unwrap_err(), Error::InvalidPayload);
    assert_eq!(base().load_payload(Json::Null).unwrap_err(), Error::InvalidPayload);
    assert_eq!(base().load_payload(num("1")).unwrap_err(), Error::InvalidPayload);
}

#[test]
fn add_payload_overwrites_single_key() {
    let rq = base().add_payload("k", num("1")).add_payload("k", num("5"));
    assert_eq!(rq.json.len(), 1);
    assert_eq!(number_text(rq.json_field("k").unwrap()), "5");
    assert!(rq.json_field("missing").is_none());
}

#[test]
fn form_fields_are_appended_in_order() {
    let rq = base().add_form("k", "1").add_form("k", "2").add_form("j", "3");
    let keys: Vec<&str> = rq.form.iter().map(|(k, _)| k.as_str()).collect();
    assert_eq!(keys, vec!["k", "k", "j"]);
    assert_eq!(rq.form[1].1, "2");
}

#[test]
fn apply_if_without_value_changes_nothing() {
    let none: Option<(&str, &str)> = None;
    let rq = base().uri("/x").apply_if(none, |r, v| r.add_form(v.0, v.1));
    assert!(rq.form.is_empty());
    assert_eq!(rq.uri, "/x");
}

#[test]
fn form_takes_precedence_over_json_body() {
    let rq = base().add_payload("a", num("1")).add_form("f", "v");
    match rq.prepare().unwrap().body {
        Body::Form(f) => assert_eq!(f, vec![("f".to_string(), "v".to_string())]),
        Body::Json(_) => panic!("expected a form body"),
    }
    let rq = base().add_payload("a", num("1"));
    assert!(matches!(rq.prepare().unwrap().body, Body::Json(ref j) if j.len() == 1));
}

#[test]
fn url_resolves_path_against_base() {
    let rq = Rq::from_static("https://example.com/v1/").unwrap().uri("items?id=3");
    assert_eq!(rq.url().unwrap(), "https://example.com/v1/items?id=3");
    let rq = Rq::from_static("https://example.com/v1/").unwrap().uri("/root");
    assert_eq!(rq.url().unwrap(), "https://example.com/root");
    let rq = Rq::from_static("https://example.com").unwrap().uri("http://[::1");
    assert_eq!(rq.url().unwrap_err(), Error::InvalidUrl);
    let rq = Rq::from_static("https://example.com").unwrap().uri("http://[::1");
    assert_eq!(rq.prepare().unwrap_err(), Error::InvalidUrl);
}

#[test]
fn non_success_status_keeps_raw_text() {
    let rs = Rs::from_reply(404, "not found".to_string(), Some(obj(vec![("e", num("1"))])));
    assert_eq!(rs.status, 404);
    assert_eq!(rs.raw.as_deref(), Some("not found"));
    assert!(matches!(rs.data, Json::Object(ref m) if m.is_empty()));
    assert!(!rs.is_success());
    let rs = Rs::from_reply(500, "{}".to_string(), None);
    assert_eq!(rs.raw.as_deref(), Some("{}"));
    assert!(matches!(rs.data, Json::Object(ref m) if m.is_empty()));
}

#[test]
fn success_with_non_json_body_keeps_raw_text() {
    let rs = Rs::from_reply(200, "plain text".to_string(), None);
    assert_eq!(rs.status, 200);
    assert_eq!(rs.raw.as_deref(), Some("plain text"));
    assert!(matches!(rs.data, Json::Object(ref m) if m.is_empty()));
}

#[test]
fn success_with_json_body_keeps_parsed_value() {
    let rs = Rs::from_reply(299, "[1]".to_string(), Some(Json::Array(vec![num("1")])));
    assert!(rs.raw.is_none());
    assert!(matches!(rs.data, Json::Array(ref a) if a.len() == 1));
    let rs = Rs::from_reply(300, "[1]".to_string(), Some(Json::Array(vec![num("1")])));
    assert_eq!(rs.raw.as_deref(), Some("[1]"));
}
