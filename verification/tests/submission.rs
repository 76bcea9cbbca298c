use std::future::Future;
use std::sync::Arc;
use std::task::{Context, Poll, Wake, Waker};

use datadog_client::client::{on_errors, on_status, Client, Config, Error, Method, Request, Step};
use datadog_client::events::CreateEventPayload;
use datadog_client::json::Json;
use datadog_client::metrics::{Point, Serie, Type};

const HOST: &str = "http://127.0.0.1:1234";

// A canned answer for one path; as a mock server does, anything else is
// answered with 501 and an empty body.
struct Mock {
    path: &'static str,
    status: u16,
    body: &'static str,
}

struct Idle;

impl Wake for Idle {
    fn wake(self: Arc<Self>) {}
}

// Drives a future that never waits for anything outside the process.
fn block_on<F: Future>(future: F) -> F::Output {
    let waker = Waker::from(Arc::new(Idle));
    let mut context = Context::from_waker(&waker);
    let mut future = Box::pin(future);
    loop {
        if let Poll::Ready(output) = future.as_mut().poll(&mut context) {
            return output;
        }
    }
}

fn respond(mock: &Mock, request: &Request) -> reqwest::Response {
    let expected = format!("{}{}", HOST, mock.path);
    let (status, body) = if request.method == Method::Post && request.url == expected {
        (mock.status, mock.body)
    } else {
        (501, "")
    };
    reqwest::Response::from(http::Response::builder().status(status).body(body).unwrap())
}

async fn decode(response: reqwest::Response) -> Result<Vec<String>, reqwest::Error> {
    let value = response.json::<serde_json::Value>().await?;
    let errors = value.get("errors").and_then(|errors| errors.as_array());
    let errors = errors.expect("an object with an array under `errors`");
    Ok(errors.iter().map(|error| error.as_str().expect("a string").to_string()).collect())
}

// Plays the transport: answers the request from the mock and lets the library
// decide what the answer means.
fn submit(mock: &Mock, request: Request) -> Result<(), Error> {
    let response = respond(mock, &request);
    let status = response.status().as_u16();
    match on_status(status) {
        Step::Succeed => Ok(()),
        Step::ReadErrors => on_errors(status, block_on(decode(response))),
    }
}

// A failure as the transport reports it for a body that is no JSON.
fn decode_failure() -> reqwest::Error {
    let response = reqwest::Response::from(http::Response::new("no json"));
    block_on(decode(response)).unwrap_err()
}

fn client() -> Client {
    Client::new(Config::new(HOST.to_string(), String::from("fake-api-key")))
}

fn header<'a>(request: &'a Request, name: &str) -> Vec<&'a str> {
    request
        .headers
        .iter()
        .filter(|header| header.name == name)
        .map(|header| header.value.as_str())
        .collect()
}

#[test]
fn post_success() {
    let call = Mock { path: "/somewhere", status: 202, body: "" };
    let request = client().post("/somewhere", Json::Str(String::from("Hello World!")));
    let result = submit(&call, request);
    assert!(result.is_ok());
}

#[test]
fn post_authentication_error() {
    let call = Mock {
        path: "/somewhere",
        status: 403,
        body: "{\"errors\":[\"Authentication error\"]}",
    };
    let request = client().post("/somewhere", Json::Str(String::from("Hello World!")));
    let result = submit(&call, request);
    assert!(result.is_err());
}

#[test]
fn events_post_metrics_success() {
    let call = Mock { path: "/api/v1/events", status: 202, body: "" };
    let event = CreateEventPayload::new(
        String::from("Some Event Title"),
        String::from("Some event text"),
    )
    .add_tag(String::from("testing"));
    let result = submit(&call, client().post_event(&event));
    assert!(result.is_ok());
}

#[test]
fn events_post_metrics_unauthorized() {
    let call = Mock {
        path: "/api/v1/series",
        status: 403,
        body: "{\"errors\":[\"Authentication error\"]}",
    };
    let event = CreateEventPayload::new(
        String::from("Some Event Title"),
        String::from("Some event text"),
    )
    .add_tag(String::from("testing"));
    let result = submit(&call, client().post_event(&event));
    assert!(result.is_err());
}

#[test]
fn metrics_post_metrics_success() {
    let call = Mock { path: "/api/v1/series", status: 202, body: "" };
    let series = vec![Serie::new("something", Type::Gauge)
        .add_point(Point::new(1234, 12.34f64.to_bits()))];
    let result = submit(&call, client().post_metrics(&series));
    assert!(result.is_ok());
}

#[test]
fn metrics_post_metrics_unauthorized() {
    let call = Mock {
        path: "/api/v1/series",
        status: 403,
        body: "{\"errors\":[\"Authentication error\"]}",
    };
    let series = vec![Serie::new("something", Type::Gauge)
        .add_point(Point::new(1234, 12.34f64.to_bits()))];
    let result = submit(&call, client().post_metrics(&series));
    assert!(result.is_err());
}

#[test]
fn rejection_carries_status_and_messages() {
    let call = Mock {
        path: "/api/v1/series",
        status: 403,
        body: "{\"errors\":[\"Authentication error\"]}",
    };
    let result = submit(&call, client().post_metrics(&[]));
    match result {
        Err(Error::Body(status, messages)) => {
            assert_eq!(status, 403);
            assert_eq!(messages, vec![String::from("Authentication error")]);
        }
        other => panic!("expected a rejection with messages, got {:?}", other),
    }
}

#[test]
fn rejection_keeps_every_message_in_order() {
    let call = Mock {
        path: "/somewhere",
        status: 400,
        body: "{\"errors\":[\"first\",\"second\",\"third\"],\"ignored\":true}",
    };
    let result = submit(&call, client().post("/somewhere", Json::Null));
    match result {
        Err(Error::Body(status, messages)) => {
            assert_eq!(status, 400);
            assert_eq!(messages, vec!["first", "second", "third"]);
        }
        other => panic!("expected a rejection with messages, got {:?}", other),
    }
}

#[test]
fn server_error_with_unparseable_body_is_a_decode_failure() {
    let call = Mock { path: "/somewhere", status: 500, body: "<html>oops</html>" };
    let result = submit(&call, client().post("/somewhere", Json::Null));
    match result {
        Err(Error::Reqwest(failure)) => assert!(failure.is_decode()),
        other => panic!("expected a decode failure, got {:?}", other),
    }
}

#[test]
fn unmatched_request_is_a_decode_failure() {
    let call = Mock { path: "/api/v1/series", status: 202, body: "" };
    let result = submit(&call, client().post("/api/v1/serie", Json::Null));
    match result {
        Err(Error::Reqwest(failure)) => assert!(failure.is_decode()),
        other => panic!("expected a decode failure, got {:?}", other),
    }
}

#[test]
fn redirect_counts_as_success() {
    let call = Mock { path: "/somewhere", status: 301, body: "moved" };
    assert!(submit(&call, client().post("/somewhere", Json::Null)).is_ok());
}

#[test]
fn status_decides_the_next_step() {
    for status in [100, 101, 200, 202, 204, 299, 300, 301, 304, 399] {
        assert_eq!(on_status(status), Step::Succeed, "status {}", status);
    }
    for status in [400, 401, 403, 404, 429, 499, 500, 501, 503, 599] {
        assert_eq!(on_status(status), Step::ReadErrors, "status {}", status);
    }
    for status in [0, 99, 600, 999, 1000, 4000, 5000, u16::MAX] {
        assert_eq!(on_status(status), Step::Succeed, "status {}", status);
    }
}

#[test]
fn status_agrees_with_the_transport_on_every_code() {
    for status in 100..1000u16 {
        let code = reqwest::StatusCode::from_u16(status).unwrap();
        let rejected = code.is_client_error() || code.is_server_error();
        assert_eq!(on_status(status) == Step::ReadErrors, rejected, "status {}", status);
        assert_eq!(rejected, (400..600).contains(&status), "status {}", status);
    }
}

#[test]
fn on_errors_with_messages_is_a_body_error() {
    let messages = vec![String::from("Forbidden"), String::from("Bad key")];
    match on_errors(403, Ok(messages.clone())) {
        Err(Error::Body(status, carried)) => {
            assert_eq!(status, 403);
            assert_eq!(carried, messages);
        }
        other => panic!("expected a rejection with messages, got {:?}", other),
    }
}

#[test]
fn on_errors_without_messages_is_still_an_error() {
    match on_errors(502, Ok(Vec::new())) {
        Err(Error::Body(status, carried)) => {
            assert_eq!(status, 502);
            assert!(carried.is_empty());
        }
        other => panic!("expected a rejection, got {:?}", other),
    }
}

#[test]
fn on_errors_with_a_failure_hands_the_failure_on() {
    let failure = decode_failure();
    let text = failure.to_string();
    match on_errors(500, Err(failure)) {
        Err(Error::Reqwest(carried)) => {
            assert!(carried.is_decode());
            assert_eq!(carried.to_string(), text);
        }
        other => panic!("expected the transport's failure, got {:?}", other),
    }
}

#[test]
fn transport_failure_converts_into_an_error() {
    let failure = decode_failure();
    let text = failure.to_string();
    match Error::from(failure) {
        Error::Reqwest(carried) => assert_eq!(carried.to_string(), text),
        other => panic!("expected the transport's failure, got {:?}", other),
    }
}

#[test]
fn url_is_host_followed_by_path() {
    let request = client().post("/api/v1/events", Json::Null);
    assert_eq!(request.url, "http://127.0.0.1:1234/api/v1/events");
    assert_eq!(request.method, Method::Post);
}

#[test]
fn url_is_not_normalised() {
    let client = Client::new(Config::new(String::from("https://example.com/"), String::new()));
    assert_eq!(client.post("/path", Json::Null).url, "https://example.com//path");
    assert_eq!(client.post("path", Json::Null).url, "https://example.com/path");
    let client = Client::new(Config::new(String::from("https://example.com"), String::new()));
    assert_eq!(client.post("path", Json::Null).url, "https://example.compath");
    assert_eq!(client.post("", Json::Null).url, "https://example.com");
}

#[test]
fn headers_announce_json_and_carry_the_key() {
    let request = client().post("/somewhere", Json::Null);
    assert_eq!(request.headers.len(), 2);
    assert_eq!(request.headers[0].name, "Content-Type");
    assert_eq!(request.headers[0].value, "application/json");
    assert_eq!(request.headers[1].name, "DD-API-KEY");
    assert_eq!(request.headers[1].value, "fake-api-key");
    assert_eq!(header(&request, "DD-API-KEY"), vec!["fake-api-key"]);
}

#[test]
fn payload_becomes_the_body() {
    let request = client().post("/somewhere", Json::Str(String::from("Hello World!")));
    match request.body {
        Json::Str(text) => assert_eq!(text, "Hello World!"),
        other => panic!("expected the string that was posted, got {:?}", other),
    }
}

#[test]
fn events_and_series_go_to_their_paths() {
    let event = CreateEventPayload::new(String::from("title"), String::from("text"));
    assert_eq!(client().post_event(&event).url, "http://127.0.0.1:1234/api/v1/events");
    assert_eq!(client().post_metrics(&[]).url, "http://127.0.0.1:1234/api/v1/series");
}
