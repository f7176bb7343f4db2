use rqrs::api::{Method, Rs};
use rqrs::completion::{self, Alternative, Message, Response};
use rqrs::image;
use rqrs::json::Json;
use rqrs::speechkit;
use rqrs::text::{decimal_text, parse_bool, str_eq};
use rqrs::ycloudml::{Model, YCloudML};
use rqrs::Error;

fn member<'a>(j: &'a Json, key: &str) -> &'a Json {
    match j {
        Json::Object(m) => &m.iter().find(|(k, _)| k == key).unwrap().1,
        other => panic!("not an object: {:?}", other),
    }
}

fn text_of(j: &Json) -> &str {
    match j {
        Json::Str(s) | Json::Number(s) => s.as_str(),
        other => panic!("no text in {:?}", other),
    }
}

fn alt(text: &str, status: &str) -> Alternative {
    Alternative {
        message: Message { role: "assistant".to_string(), text: text.to_string() },
        status: status.to_string(),
    }
}

#[test]
fn decimal_and_bool_text() {
    assert_eq!(decimal_text(0), "0");
    assert_eq!(decimal_text(2000), "2000");
    assert_eq!(decimal_text(u64::MAX), "18446744073709551615");
    assert_eq!(parse_bool("true"), Some(true));
    assert_eq!(parse_bool("false"), Some(false));
    assert_eq!(parse_bool("True"), None);
    assert!(str_eq("abc", "abc"));
    assert!(!str_eq("abc", "abd"));
    assert!(!str_eq("abc", "ab"));
}

#[test]
fn completion_payload_defaults_and_options() {
    let p = completion::Payload::new("folder");
    assert_eq!(p.model_uri, "gpt://folder/yandexgpt");
    assert_eq!(p.completion_options.len(), 4);
    assert_eq!(text_of(&p.completion_options[2].1), "2000");
    let p = p.max_tokens(150);
    assert_eq!(p.completion_options.len(), 4);
    assert_eq!(p.completion_options[2].0, "maxTokens");
    assert!(matches!(&p.completion_options[2].1, Json::Number(s) if s == "150"));
    let p = p.option("temperature", Json::Number("0.3".to_string()));
    assert_eq!(text_of(&p.completion_options[1].1), "0.3");
}

#[test]
fn completion_conversation_round_trip() {
    let p = completion::Payload::new("f")
        .system("You are financial bot")
        .unwrap()
        .user("who are you?")
        .unwrap()
        .assistant("a bot")
        .unwrap();
    assert_eq!(p.messages.len(), 3);
    assert_eq!(p.messages[0].role, "system");
    assert_eq!(p.messages[2].role, "assistant");
    let saved = p.save_messages().unwrap();
    let q = completion::Payload::new("f").load_messages(saved).unwrap();
    assert_eq!(q.messages.len(), 3);
    assert_eq!(q.messages[1].role, "user");
    assert_eq!(q.messages[1].text, "who are you?");
}

#[test]
fn loading_malformed_messages_fails() {
    let p = completion::Payload::new("f");
    assert_eq!(p.load_messages(Json::Null).unwrap_err(), Error::DecodeError);
    let bad = Json::Array(vec![Json::Object(vec![("role".to_string(), Json::Str("user".to_string()))])]);
    let p = completion::Payload::new("f");
    assert_eq!(p.load_messages(bad).unwrap_err(), Error::DecodeError);
}

#[test]
fn first_final_alternative_is_chosen() {
    let rs = Response {
        alternatives: vec![
            alt("partial", "ALTERNATIVE_STATUS_PARTIAL"),
            alt("answer", "ALTERNATIVE_STATUS_FINAL"),
            alt("later", "ALTERNATIVE_STATUS_FINAL"),
        ],
        model_version: "v1".to_string(),
        usage: Json::Null,
    };
    assert_eq!(rs.alternatives[0].status(), "ALTERNATIVE_STATUS_PARTIAL");
    assert_eq!(rs.model_version(), "v1");
    assert_eq!(completion::Payload::assistant_text_first(rs).unwrap(), "answer");
    let none = Response {
        alternatives: vec![alt("partial", "ALTERNATIVE_STATUS_PARTIAL")],
        model_version: "v1".to_string(),
        usage: Json::Null,
    };
    assert_eq!(none.first_alternatives().unwrap_err(), Error::DecodeError);
}

#[test]
fn completion_model_body() {
    let p = completion::Payload::new("f").user("hi").unwrap();
    let model = Model::completion(p);
    assert_eq!(model.uri(), "/foundationModels/v1/completion");
    assert_eq!(model.method(), "POST");
    let body = model.into_json();
    assert_eq!(text_of(member(&body, "modelUri")), "gpt://f/yandexgpt");
    let msgs = member(&body, "messages");
    assert!(matches!(msgs, Json::Array(items) if items.len() == 1));
}

#[test]
fn payload_defaults() {
    let p = completion::Payload::default();
    assert!(p.model_uri.is_empty());
    assert_eq!(p.completion_options.len(), 4);
    let p = image::Payload::default();
    assert!(p.model_uri.is_empty());
    assert_eq!(p.generation_options[0].0, "seed");
    assert_eq!(YCloudML::default(), YCloudML::new());
}

#[test]
fn image_payload_defaults_and_options() {
    let p = image::Payload::new("  folder \n");
    assert_eq!(p.model_uri, "art://folder/yandex-art/latest");
    assert_eq!(text_of(&p.generation_options[0].1), "1863");
    let p = p
        .text("Generate an image of a grandfather learning Rust while drinking strong coffee")
        .unwrap()
        .aspect_ratio(16, 9)
        .seed(0);
    assert_eq!(p.generation_options.len(), 2);
    assert!(matches!(&p.generation_options[0].1, Json::Number(s) if s == "0"));
    let ratio = &p.generation_options[1].1;
    assert!(matches!(member(ratio, "widthRatio"), Json::Number(s) if s == "16"));
    assert!(matches!(member(ratio, "heightRatio"), Json::Number(s) if s == "9"));
    assert_eq!(p.messages[0].weight, 100);

    let model = Model::image(p);
    assert_eq!(model.uri(), "/foundationModels/v1/imageGenerationAsync");
    let body = model.into_json();
    let msgs = member(&body, "messages");
    match msgs {
        Json::Array(items) => assert_eq!(text_of(member(&items[0], "weight")), "100"),
        other => panic!("unexpected {:?}", other),
    }
}

#[test]
fn oauth_request_and_token() {
    let rq = YCloudML::new().oauth_request("oauth-token").unwrap();
    assert_eq!(rq.method, Method::Post);
    assert_eq!(rq.url().unwrap(), "https://iam.api.cloud.yandex.net/iam/v1/tokens");
    assert_eq!(text_of(rq.json_field("yandexPassportOauthToken").unwrap()), "oauth-token");
    let data = Json::Object(vec![
        ("iamToken".to_string(), Json::Str("t1".to_string())),
        ("expiresAt".to_string(), Json::Str("soon".to_string())),
    ]);
    let rs = Rs::from_reply(200, String::new(), Some(data));
    assert_eq!(YCloudML::iam_token(&rs).unwrap(), "t1");
    let rs = Rs::from_reply(401, "denied".to_string(), None);
    assert_eq!(YCloudML::iam_token(&rs).unwrap_err(), Error::DecodeError);
}

#[test]
fn iam_token_needs_expiry() {
    let data = Json::Object(vec![("iamToken".to_string(), Json::Str("t".to_string()))]);
    let rs = Rs::from_reply(200, String::new(), Some(data));
    assert_eq!(YCloudML::iam_token(&rs).unwrap_err(), Error::DecodeError);
    let data = Json::Object(vec![
        ("iamToken".to_string(), Json::Str("t".to_string())),
        ("expiresAt".to_string(), Json::Null),
    ]);
    let rs = Rs::from_reply(200, String::new(), Some(data));
    assert_eq!(YCloudML::iam_token(&rs).unwrap_err(), Error::DecodeError);
}

#[test]
fn completion_request_headers_and_body() {
    let bot = rqrs::Bot::new(rqrs::ycloudml::URL).unwrap();
    let p = completion::Payload::new("f").user("hi").unwrap();
    let rq = p.request(bot, " jwt ", "session-1").unwrap();
    assert_eq!(rq.method, Method::Post);
    assert_eq!(rq.url().unwrap(), "https://llm.api.cloud.yandex.net/foundationModels/v1/completion");
    let names: Vec<&str> = rq.headers.iter().map(|(n, _)| n.as_str()).collect();
    assert_eq!(names, vec!["authorization", "x-data-logging-enabled", "x-session-id"]);
    assert_eq!(rq.header(b"Authorization").unwrap().as_str(), "Bearer jwt");
    assert_eq!(rq.header(b"x-session-id").unwrap().as_str(), "session-1");
    assert_eq!(text_of(rq.json_field("modelUri").unwrap()), "gpt://f/yandexgpt");
    let bot = rqrs::Bot::new(rqrs::ycloudml::URL).unwrap();
    let p = completion::Payload::new("f");
    assert_eq!(p.request(bot, "jwt", "bad\nid").map(|_| ()).unwrap_err(), Error::InvalidHeader);
}

#[test]
fn model_request_uses_its_verb() {
    let bot = rqrs::Bot::new(rqrs::ycloudml::URL).unwrap();
    let rq = Model::image(image::Payload::new("f")).request(bot, "jwt").unwrap();
    assert_eq!(rq.method, Method::Post);
    assert_eq!(rq.uri, "/foundationModels/v1/imageGenerationAsync");
    assert!(rq.header(b"authorization").unwrap().is_sensitive());
    assert!(rq.json_field("generationOptions").is_some());
    let bot = rqrs::Bot::new(rqrs::ycloudml::URL).unwrap();
    let odd = Model::Image {
        payload: image::Payload::new("f"),
        uri: "/x".to_string(),
        method: "PATCH".to_string(),
    };
    assert_eq!(odd.request(bot, "jwt").map(|_| ()).unwrap_err(), Error::UnsupportedMethod);
}

#[test]
fn speech_payload_query() {
    let p = speechkit::Payload::new("folder", "ru-RU").file("/tmp/speech.ogg").unwrap();
    assert_eq!(p.file, "/tmp/speech.ogg");
    assert_eq!(
        p.query(),
        vec![
            ("folderId".to_string(), "folder".to_string()),
            ("lang".to_string(), "ru-RU".to_string())
        ]
    );
}
