use plugins_core::config::ClientConfig;
use plugins_core::error::{Error, MalformedInput};
use plugins_core::fetch::{
    body_read, fetch, fetch_cancel, fetch_read_body, fetch_send, fetch_send_complete, needs_scope,
    FetchState, ResponseBody, SendStep, TransportResponse,
};
use plugins_core::model::{HEADER_NOT_TEXT, SYNTHETIC_URL};

fn config(method: &str, url: &str) -> ClientConfig {
    ClientConfig {
        method: method.to_string(),
        url: url.to_string(),
        headers: Vec::new(),
        data: None,
        connect_timeout: None,
        max_redirections: None,
        proxy: None,
    }
}

fn ok_response(body: &'static str) -> Result<TransportResponse<&'static str>, String> {
    Ok(TransportResponse {
        status: 200,
        url: "https://example.com/x".to_string(),
        headers: vec![("content-type".to_string(), b"text/plain".to_vec())],
        body,
    })
}

#[test]
fn first_submission_gets_id_one() {
    let mut state: FetchState<&'static str> = FetchState::new();
    assert!(state.has_capacity());
    let id = fetch(&mut state, config("GET", "https://example.com/x"), true);
    assert_eq!(id, Ok(1));
}

#[test]
fn ids_increase_with_each_submission() {
    let mut state: FetchState<&'static str> = FetchState::new();
    let a = fetch(&mut state, config("GET", "https://example.com/a"), true).unwrap();
    let b = fetch(&mut state, config("GET", "data:,x"), false).unwrap();
    let _ = fetch_cancel(&mut state, a);
    let c = fetch(&mut state, config("GET", "https://example.com/c"), true).unwrap();
    assert_eq!((a, b, c), (1, 2, 3));
}

#[test]
fn network_request_goes_through_all_phases() {
    let mut state: FetchState<&'static str> = FetchState::new();
    let id = fetch(&mut state, config("GET", "https://example.com/x"), true).unwrap();
    assert_eq!(id, 1);
    let step = fetch_send(&mut state, id).unwrap();
    let request = match step {
        SendStep::Drive(request) => request,
        SendStep::Resolved(_) => panic!("a network request is not resolved at once"),
    };
    assert_eq!(request.method, "GET");
    assert_eq!(request.url, "https://example.com/x");
    let found = fetch_send_complete(&mut state, id, ok_response("the body")).unwrap();
    assert_eq!(found.status, 200);
    assert_eq!(found.status_text, "OK");
    assert_eq!(found.url, "https://example.com/x");
    assert_eq!(
        found.headers,
        vec![("content-type".to_string(), "text/plain".to_string())]
    );
    assert_eq!(
        fetch_read_body(&mut state, id),
        Ok(ResponseBody::Stream("the body"))
    );
    assert_eq!(
        fetch_read_body(&mut state, id),
        Err(Error::InvalidRequestId(1))
    );
}

#[test]
fn unsupported_scheme_is_rejected_and_takes_no_id() {
    let mut state: FetchState<&'static str> = FetchState::new();
    let out = fetch(&mut state, config("GET", "ftp://host/path"), true);
    assert_eq!(out, Err(Error::SchemeNotSupported("ftp".to_string())));
    let next = fetch(&mut state, config("GET", "https://example.com/"), true);
    assert_eq!(next, Ok(1));
}

#[test]
fn denied_url_is_rejected_and_takes_no_id() {
    let mut state: FetchState<&'static str> = FetchState::new();
    let out = fetch(&mut state, config("GET", "https://example.com/x"), false);
    assert_eq!(
        out,
        Err(Error::UrlNotAllowed("https://example.com/x".to_string()))
    );
    assert_eq!(fetch(&mut state, config("GET", "http://a.b/"), true), Ok(1));
}

#[test]
fn malformed_url_is_rejected() {
    let mut state: FetchState<&'static str> = FetchState::new();
    let out = fetch(&mut state, config("GET", "not a url"), true);
    assert_eq!(out, Err(Error::MalformedInput(MalformedInput::Url)));
}

#[test]
fn malformed_method_is_rejected_before_the_scheme() {
    let mut state: FetchState<&'static str> = FetchState::new();
    let out = fetch(&mut state, config("GE T", "ftp://host/path"), true);
    assert_eq!(out, Err(Error::MalformedInput(MalformedInput::Method)));
    let empty = fetch(&mut state, config("", "https://example.com/"), true);
    assert_eq!(empty, Err(Error::MalformedInput(MalformedInput::Method)));
}

#[test]
fn resolving_unknown_id_fails() {
    let mut state: FetchState<&'static str> = FetchState::new();
    assert_eq!(fetch_send(&mut state, 7), Err(Error::InvalidRequestId(7)));
}

#[test]
fn resolving_twice_fails() {
    let mut state: FetchState<&'static str> = FetchState::new();
    let id = fetch(&mut state, config("GET", "https://example.com/x"), true).unwrap();
    assert!(fetch_send(&mut state, id).is_ok());
    assert_eq!(fetch_send(&mut state, id), Err(Error::InvalidRequestId(id)));
}

#[test]
fn reading_unresolved_body_fails() {
    let mut state: FetchState<&'static str> = FetchState::new();
    let id = fetch(&mut state, config("GET", "https://example.com/x"), true).unwrap();
    assert_eq!(
        fetch_read_body(&mut state, id),
        Err(Error::InvalidRequestId(id))
    );
    let _ = fetch_send(&mut state, id);
    assert_eq!(
        fetch_read_body(&mut state, id),
        Err(Error::InvalidRequestId(id))
    );
}

#[test]
fn cancelled_request_reports_cancellation_once() {
    let mut state: FetchState<&'static str> = FetchState::new();
    let id = fetch(&mut state, config("GET", "https://example.com/x"), true).unwrap();
    assert_eq!(fetch_cancel(&mut state, id), Ok(()));
    assert_eq!(fetch_cancel(&mut state, id), Ok(()));
    assert_eq!(fetch_send(&mut state, id), Err(Error::RequestCanceled));
    assert_eq!(fetch_send(&mut state, id), Err(Error::InvalidRequestId(id)));
    assert_eq!(
        fetch_read_body(&mut state, id),
        Err(Error::InvalidRequestId(id))
    );
}

#[test]
fn cancelling_unknown_id_fails() {
    let mut state: FetchState<&'static str> = FetchState::new();
    assert_eq!(fetch_cancel(&mut state, 3), Err(Error::InvalidRequestId(3)));
    let id = fetch(&mut state, config("GET", "https://example.com/x"), true).unwrap();
    let _ = fetch_send(&mut state, id);
    assert_eq!(
        fetch_cancel(&mut state, id),
        Err(Error::InvalidRequestId(id))
    );
}

#[test]
fn transport_failure_is_handed_on() {
    let mut state: FetchState<&'static str> = FetchState::new();
    let id = fetch(&mut state, config("GET", "https://example.com/x"), true).unwrap();
    let _ = fetch_send(&mut state, id);
    let out = fetch_send_complete(&mut state, id, Err("connection refused".to_string()));
    assert_eq!(
        out,
        Err(Error::TransportError("connection refused".to_string()))
    );
    assert_eq!(
        fetch_read_body(&mut state, id),
        Err(Error::InvalidRequestId(id))
    );
}

#[test]
fn completing_what_is_not_in_flight_fails() {
    let mut state: FetchState<&'static str> = FetchState::new();
    assert_eq!(
        fetch_send_complete(&mut state, 1, ok_response("x")),
        Err(Error::InvalidRequestId(1))
    );
    let id = fetch(&mut state, config("GET", "https://example.com/x"), true).unwrap();
    assert_eq!(
        fetch_send_complete(&mut state, id, ok_response("x")),
        Err(Error::InvalidRequestId(id))
    );
    let _ = fetch_send(&mut state, id);
    assert!(fetch_send_complete(&mut state, id, ok_response("x")).is_ok());
    assert_eq!(
        fetch_send_complete(&mut state, id, ok_response("x")),
        Err(Error::InvalidRequestId(id))
    );
}

#[test]
fn header_value_that_is_no_text_fails_the_resolve() {
    let mut state: FetchState<&'static str> = FetchState::new();
    let id = fetch(&mut state, config("GET", "https://example.com/x"), true).unwrap();
    let _ = fetch_send(&mut state, id);
    let response = TransportResponse {
        status: 200,
        url: "https://example.com/x".to_string(),
        headers: vec![
            ("a".to_string(), b"fine".to_vec()),
            ("b".to_string(), vec![0xff, 0xfe]),
        ],
        body: "x",
    };
    let out = fetch_send_complete(&mut state, id, Ok(response));
    assert_eq!(out, Err(Error::TransportError(HEADER_NOT_TEXT.to_string())));
    assert_eq!(
        fetch_read_body(&mut state, id),
        Err(Error::InvalidRequestId(id))
    );
}

#[test]
fn status_without_a_phrase_has_empty_text() {
    let mut state: FetchState<&'static str> = FetchState::new();
    let id = fetch(&mut state, config("GET", "https://example.com/x"), true).unwrap();
    let _ = fetch_send(&mut state, id);
    let response = TransportResponse {
        status: 299,
        url: "https://example.com/y".to_string(),
        headers: Vec::new(),
        body: "x",
    };
    let found = fetch_send_complete(&mut state, id, Ok(response)).unwrap();
    assert_eq!(found.status, 299);
    assert_eq!(found.status_text, "");
    assert_eq!(found.url, "https://example.com/y");
    let id = fetch(&mut state, config("GET", "https://example.com/x"), true).unwrap();
    let _ = fetch_send(&mut state, id);
    let response = TransportResponse {
        status: 404,
        url: "https://example.com/y".to_string(),
        headers: Vec::new(),
        body: "x",
    };
    let found = fetch_send_complete(&mut state, id, Ok(response)).unwrap();
    assert_eq!(found.status_text, "Not Found");
}

#[test]
fn data_url_resolves_without_the_transport() {
    let mut state: FetchState<&'static str> = FetchState::new();
    let id = fetch(
        &mut state,
        config("GET", "data:text/plain;base64,SGVsbG8="),
        false,
    )
    .unwrap();
    let step = fetch_send(&mut state, id).unwrap();
    let found = match step {
        SendStep::Resolved(found) => found,
        SendStep::Drive(_) => panic!("a data URL is not sent"),
    };
    assert_eq!(found.status, 200);
    assert_eq!(found.status_text, "OK");
    assert_eq!(
        found.headers,
        vec![("content-type".to_string(), "text/plain".to_string())]
    );
    assert_eq!(found.url, SYNTHETIC_URL);
    assert_eq!(
        fetch_read_body(&mut state, id),
        Ok(ResponseBody::Buffered(b"Hello".to_vec()))
    );
    assert_eq!(
        fetch_read_body(&mut state, id),
        Err(Error::InvalidRequestId(id))
    );
}

#[test]
fn data_url_does_not_depend_on_the_scope() {
    let mut allowed: FetchState<&'static str> = FetchState::new();
    let mut denied: FetchState<&'static str> = FetchState::new();
    let a = fetch(&mut allowed, config("GET", "data:,Hello%20World!"), true).unwrap();
    let d = fetch(&mut denied, config("GET", "data:,Hello%20World!"), false).unwrap();
    assert_eq!(a, d);
    assert_eq!(fetch_send(&mut allowed, a), fetch_send(&mut denied, d));
    assert_eq!(
        fetch_read_body(&mut allowed, a),
        Ok(ResponseBody::Buffered(b"Hello World!".to_vec()))
    );
    assert!(!needs_scope(&config("GET", "data:,x")));
    assert!(needs_scope(&config("GET", "http://example.com/")));
    assert!(needs_scope(&config("GET", "https://example.com/")));
    assert!(!needs_scope(&config("GET", "ftp://example.com/")));
    assert!(!needs_scope(&config("G T", "https://example.com/")));
    assert!(!needs_scope(&config("GET", "nothing")));
}

#[test]
fn data_url_without_comma_is_rejected() {
    let mut state: FetchState<&'static str> = FetchState::new();
    let out = fetch(&mut state, config("GET", "data:text/plain"), true);
    assert_eq!(out, Err(Error::DataUrlError));
}

#[test]
fn data_url_with_broken_payload_is_rejected() {
    let mut state: FetchState<&'static str> = FetchState::new();
    let out = fetch(&mut state, config("GET", "data:text/plain;base64,a"), true);
    assert_eq!(out, Err(Error::DataUrlDecodeError));
}

#[test]
fn synthetic_url_is_what_the_client_reports() {
    let response = http::Response::new(reqwest::Body::from(Vec::new()));
    let wrapped = reqwest::Response::from(response);
    assert_eq!(wrapped.url().as_str(), SYNTHETIC_URL);
}

#[test]
fn drained_body_or_its_failure() {
    assert_eq!(body_read(Ok(vec![1, 2, 3])), Ok(vec![1, 2, 3]));
    assert_eq!(
        body_read(Err("reset".to_string())),
        Err(Error::BodyReadError("reset".to_string()))
    );
}
