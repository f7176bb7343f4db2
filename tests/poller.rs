use rqrs::api::Method;
use rqrs::image::{status_request, Object, Poller, Response, Step, MAX_ATTEMPTS};
use rqrs::{Bot, Error};

fn status(done: bool, image: Option<&str>) -> Response {
    Response {
        id: "op1".to_string(),
        description: "image generation".to_string(),
        done,
        response: image.map(|i| Object { image: i.to_string(), model_version: "v1".to_string() }),
    }
}

fn pending() -> Response {
    status(false, None)
}

fn finished(image: &str) -> Response {
    status(true, Some(image))
}

#[test]
fn completes_on_third_status() {
    let statuses = vec![pending(), pending(), finished("aGVsbG8=")];
    let mut poller = Poller::new();
    let mut fetches = 0;
    let mut result = None;
    for s in &statuses {
        fetches += 1;
        match poller.on_status(s).unwrap() {
            Some(bytes) => {
                result = Some(bytes);
                break;
            }
            None => {}
        }
    }
    assert_eq!(fetches, 3);
    assert_eq!(poller.attempts, 3);
    assert_eq!(result.unwrap(), b"hello".to_vec());
}

#[test]
fn ten_pending_statuses_exhaust_the_budget() {
    let mut poller = Poller::new();
    let mut fetches = 0;
    let mut outcome = Ok(None);
    for _ in 0..20 {
        fetches += 1;
        outcome = poller.on_status(&pending());
        if outcome.is_err() {
            break;
        }
    }
    assert_eq!(fetches, 10);
    assert_eq!(outcome.unwrap_err(), Error::OperationTimeout { attempts: 10 });
    assert_eq!(poller.attempts, MAX_ATTEMPTS);
}

#[test]
fn done_without_result_is_not_ready() {
    let mut poller = Poller::new();
    let s = status(true, None);
    assert_eq!(poller.on_status(&s).unwrap(), None);
    assert_eq!(poller.observe(true, false), Step::Wait);
    assert_eq!(poller.observe(false, true), Step::Wait);
    assert_eq!(poller.observe(true, true), Step::Completed);
    assert_eq!(poller.attempts, 4);
}

#[test]
fn result_on_last_attempt_still_completes() {
    let mut poller = Poller::new();
    for _ in 0..9 {
        assert_eq!(poller.observe(false, false), Step::Wait);
    }
    assert_eq!(poller.observe(true, true), Step::Completed);
    assert_eq!(poller.attempts, 10);
    assert_eq!(poller.observe(true, true), Step::Exhausted);
    assert_eq!(poller.attempts, 10);
}

#[test]
fn undecodable_image_is_a_decode_error() {
    let mut poller = Poller::new();
    assert_eq!(poller.on_status(&finished("not base64!")).unwrap_err(), Error::DecodeError);
}

#[test]
fn status_request_targets_operation_with_bearer() {
    let bot = Bot::new("https://llm.api.cloud.yandex.net").unwrap();
    let rq = status_request(bot, "abc123", "  tok  \n").unwrap();
    assert_eq!(rq.uri, "/operations/abc123");
    assert_eq!(rq.method, Method::Get);
    let auth = rq.header(b"Authorization").unwrap();
    assert_eq!(auth.as_str(), "Bearer tok");
    assert!(auth.is_sensitive());
    assert_eq!(rq.url().unwrap(), "https://llm.api.cloud.yandex.net/operations/abc123");
}

#[test]
fn status_request_with_bad_token_fails() {
    let bot = Bot::new("https://llm.api.cloud.yandex.net").unwrap();
    assert_eq!(status_request(bot, "id", "a\u{1}b").unwrap_err(), Error::InvalidHeader);
}
