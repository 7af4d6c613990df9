use lsp_types::notification::{DidChangeTextDocument, DidOpenTextDocument, Exit, Initialized};
use lsp_types::notification::Notification as LspNotification;
use lsp_types::request::{Initialize, Request as LspRequest, Shutdown};
use lsp_types::Url;
use serde_json::Value;
use starlark_kit::context::TestServerContext;
use starlark_kit::lifecycle::{
    Closing, InitializeAction, InitializeError, InitializeEvent, Initializing,
};
use starlark_kit::message::{
    Message, Notification, Request, RequestId, Response, ResponseError,
};
use starlark_kit::server::{ReceiveFailure, ServerError, TestServer};

fn json(text: &str) -> Value {
    serde_json::from_str(text).unwrap()
}

fn response(id: i32, result: Option<&str>, error: Option<&str>) -> Response {
    Response {
        id: RequestId::Number(id),
        result: result.map(json),
        error: error.map(|message| ResponseError {
            code: -32603,
            message: message.to_owned(),
            data: None,
        }),
    }
}

fn notification(params: &str) -> Message {
    Message::Notification(Notification { method: "n".to_owned(), params: json(params) })
}

fn text_of(error: ServerError) -> String {
    match error {
        ServerError::NotReceived(failure) => format!("{:?}", failure),
        ServerError::UnexpectedRequest(text) => format!("request: {}", text),
        ServerError::DuplicateResponse(text) => format!("duplicate: {}", text),
        ServerError::ResponseError(text) => format!("error: {}", text),
        ServerError::InvalidResponse(text) => format!("invalid: {}", text),
    }
}

fn request_of(message: Message) -> Request {
    match message {
        Message::Request(request) => request,
        _ => panic!("a request is expected"),
    }
}

fn notification_of(message: Message) -> Notification {
    match message {
        Message::Notification(notification) => notification,
        _ => panic!("a notification is expected"),
    }
}

#[test]
fn requests_are_numbered_from_one() {
    let mut server = TestServer::new();
    assert_eq!(server.req_counter(), 0);
    for n in 1..4 {
        let request = server.new_request("m", json("[1]"));
        assert!(request.id.same(&RequestId::Number(n)));
        assert_eq!(request.method, "m");
        assert_eq!(request.params, json("[1]"));
        assert_eq!(server.req_counter(), n);
    }
    assert_eq!(server.version_counter(), 0);
}

#[test]
fn ids_of_different_kinds_are_different() {
    let number = RequestId::Number(92);
    let text = RequestId::Text("92".to_owned());
    assert!(!number.same(&text));
    assert!(!text.same(&number));
    assert!(text.same(&text.clone()));
    assert!(!text.same(&RequestId::Text("93".to_owned())));
    assert!(number.same(&number.clone()));
}

#[test]
fn what_is_sent_is_what_was_given() {
    let mut server = TestServer::new();
    let request = server.new_request("m", json("null"));
    let (message, id) = server.send_request(request);
    assert!(id.same(&RequestId::Number(1)));
    assert_eq!(request_of(message).method, "m");
    let sent = server.send_notification(Notification {
        method: "n".to_owned(),
        params: json("{}"),
    });
    assert_eq!(notification_of(sent).method, "n");
}

#[test]
fn response_is_found_among_notifications() {
    let mut server = TestServer::new();
    let id = RequestId::Number(1);
    for params in ["10", "20"] {
        let turn = server.get_response(&id, Ok(notification(params)));
        assert!(matches!(turn, Ok(None)));
    }
    let answer = response(1, Some("{\"a\": 1}"), None);
    match server.get_response(&id, Ok(Message::Response(answer))) {
        Ok(Some(value)) => assert_eq!(value, json("{\"a\": 1}")),
        _ => panic!("the result is expected"),
    }
    for params in ["10", "20", "30"] {
        match server.get_notification(Ok(notification("30"))) {
            Ok(Some(value)) => assert_eq!(value, json(params)),
            _ => panic!("a notification is expected"),
        }
    }
}

#[test]
fn response_survives_waiting_for_a_notification() {
    let mut server = TestServer::new();
    let answer = response(7, Some("true"), None);
    let turn = server.get_notification(Ok(Message::Response(answer)));
    assert!(matches!(turn, Ok(None)));
    match server.seen_response(&RequestId::Number(7)) {
        Ok(Some(value)) => assert_eq!(value, json("true")),
        _ => panic!("the result is expected"),
    }
}

#[test]
fn seen_response_is_given_though_nothing_more_comes() {
    let mut server = TestServer::new();
    let id = RequestId::Number(4);
    assert!(matches!(server.seen_response(&id), Ok(None)));
    let early = Message::Response(response(4, Some("42"), None));
    assert!(matches!(server.get_response(&RequestId::Number(3), Ok(early)), Ok(None)));
    match server.seen_response(&id) {
        Ok(Some(value)) => assert_eq!(value, json("42")),
        _ => panic!("the result is expected"),
    }
    for failure in [ReceiveFailure::Timeout, ReceiveFailure::Disconnected] {
        match server.get_response(&id, Err(failure)) {
            Ok(Some(value)) => assert_eq!(value, json("42")),
            _ => panic!("the result is expected"),
        }
    }
    match server.get_response(&id, Ok(notification("9"))) {
        Ok(Some(value)) => assert_eq!(value, json("42")),
        _ => panic!("the result is expected"),
    }
    match server.get_notification(Ok(notification("10"))) {
        Ok(Some(value)) => assert_eq!(value, json("9")),
        _ => panic!("the notification is expected"),
    }
    let error = server.get_response(&RequestId::Number(3), Err(ReceiveFailure::Timeout));
    assert_eq!(text_of(error.err().unwrap()), "Timeout");
}

#[test]
fn seen_error_is_given_though_nothing_more_comes() {
    let mut server = TestServer::new();
    let refused = Message::Response(response(4, None, Some("no")));
    assert!(server.receive(Ok(refused)).is_ok());
    let error = server.seen_response(&RequestId::Number(4)).err().unwrap();
    assert_eq!(text_of(error), "error: Response error: no");
    let odd = Message::Response(response(5, None, None));
    assert!(server.receive(Ok(odd)).is_ok());
    let error = server.seen_response(&RequestId::Number(5)).err().unwrap();
    assert_eq!(
        text_of(error),
        "invalid: Invalid response message for request 5: \
         Response { id: RequestId(I32(5)), result: None, error: None }"
    );
}

#[test]
fn notification_is_found_among_responses() {
    let mut server = TestServer::new();
    for id in 1..4 {
        let answer = Message::Response(response(id, Some("0"), None));
        assert!(matches!(server.get_notification(Ok(answer)), Ok(None)));
    }
    match server.get_notification(Ok(notification("[5]"))) {
        Ok(Some(value)) => assert_eq!(value, json("[5]")),
        _ => panic!("the notification is expected"),
    }
    for id in 1..4 {
        assert!(matches!(server.seen_response(&RequestId::Number(id)), Ok(Some(_))));
    }
    let error = server.get_notification(Err(ReceiveFailure::Timeout)).err().unwrap();
    assert_eq!(text_of(error), "Timeout");
}

#[test]
fn requests_edits_and_messages_do_not_disturb_the_numbers() {
    let mut server = TestServer::new();
    let uri = Url::parse("file:///a.bzl").unwrap();
    for n in 1..4 {
        assert!(server.next_request_id().same(&RequestId::Number(n)));
        assert!(server.receive(Ok(notification("1"))).is_ok());
        server.change_file(uri.clone(), String::new());
        assert!(server.get_notification(Err(ReceiveFailure::Timeout)).is_err());
        assert_eq!(server.version_counter(), n);
        assert_eq!(server.req_counter(), n);
    }
}

#[test]
fn receiving_numbers_nothing() {
    let mut server = TestServer::new();
    assert!(server.receive(Ok(notification("1"))).is_ok());
    assert!(server.receive(Ok(Message::Response(response(5, Some("1"), None)))).is_ok());
    assert!(server.receive(Ok(Message::Response(response(5, Some("1"), None)))).is_err());
    assert_eq!(server.req_counter(), 0);
    assert_eq!(server.version_counter(), 0);
}

#[test]
fn responses_to_other_requests_are_kept_for_them() {
    let mut server = TestServer::new();
    let other = Message::Response(response(2, Some("\"other\""), None));
    assert!(matches!(server.get_response(&RequestId::Number(1), Ok(other)), Ok(None)));
    let own = Message::Response(response(1, Some("\"own\""), None));
    match server.get_response(&RequestId::Number(1), Ok(own)) {
        Ok(Some(value)) => assert_eq!(value, json("\"own\"")),
        _ => panic!("the result is expected"),
    }
    match server.get_response(&RequestId::Number(2), Ok(notification("0"))) {
        Ok(Some(value)) => assert_eq!(value, json("\"other\"")),
        _ => panic!("the result is expected"),
    }
}

#[test]
fn failure_to_receive_is_an_error() {
    let mut server = TestServer::new();
    let error = server.receive(Err(ReceiveFailure::Timeout)).err().unwrap();
    assert_eq!(text_of(error), "Timeout");
    let id = RequestId::Number(1);
    let error = server.get_response(&id, Err(ReceiveFailure::Disconnected)).err().unwrap();
    assert_eq!(text_of(error), "Disconnected");
    let error = server.get_notification(Err(ReceiveFailure::Timeout)).err().unwrap();
    assert_eq!(text_of(error), "Timeout");
}

#[test]
fn request_from_the_server_is_an_error() {
    let mut server = TestServer::new();
    let request = Request {
        id: RequestId::Number(3),
        method: "m".to_owned(),
        params: json("null"),
    };
    let error = server.receive(Ok(Message::Request(request))).err().unwrap();
    assert_eq!(
        text_of(error),
        "request: Got a request from the server: \
         Request { id: RequestId(I32(3)), method: \"m\", params: Null }"
    );
}

#[test]
fn duplicate_response_is_an_error_and_changes_nothing() {
    let mut server = TestServer::new();
    let first = Message::Response(response(1, Some("1"), None));
    assert!(server.receive(Ok(first)).is_ok());
    let second = Message::Response(response(1, None, Some("late")));
    let error = server.receive(Ok(second)).err().unwrap();
    assert_eq!(
        text_of(error),
        "duplicate: Got a duplicate response for request ID RequestId(I32(1)): \
         Existing: Response { id: RequestId(I32(1)), result: Some(Number(1)), error: None }, \
         New: Response { id: RequestId(I32(1)), result: None, \
         error: Some(ResponseError { code: -32603, message: \"late\", data: None }) }"
    );
    match server.get_response(&RequestId::Number(1), Ok(notification("0"))) {
        Ok(Some(value)) => assert_eq!(value, json("1")),
        _ => panic!("the first result is expected"),
    }
}

#[test]
fn error_response_is_an_error() {
    let mut server = TestServer::new();
    let answer = Message::Response(response(1, None, Some("no such method")));
    let error = server.get_response(&RequestId::Number(1), Ok(answer)).err().unwrap();
    assert_eq!(text_of(error), "error: Response error: no such method");
}

#[test]
fn response_with_neither_or_both_is_invalid() {
    let mut server = TestServer::new();
    let answer = Message::Response(Response {
        id: RequestId::Text("a".to_owned()),
        result: None,
        error: None,
    });
    let id = RequestId::Text("a".to_owned());
    let error = server.get_response(&id, Ok(answer)).err().unwrap();
    assert_eq!(
        text_of(error),
        "invalid: Invalid response message for request \"a\": \
         Response { id: RequestId(String(\"a\")), result: None, error: None }"
    );
    let answer = Message::Response(response(2, Some("1"), Some("both")));
    let error = server.get_response(&RequestId::Number(2), Ok(answer)).err().unwrap();
    assert!(text_of(error).starts_with("invalid: Invalid response message for request 2: "));
}

#[test]
fn files_are_opened_and_changed_with_increasing_versions() {
    let mut server = TestServer::new();
    let uri = Url::parse("file:///a.bzl").unwrap();
    let opened = notification_of(server.open_file(uri.clone(), "x = 1".to_owned()));
    assert_eq!(opened.method, DidOpenTextDocument::METHOD);
    assert_eq!(
        opened.params,
        json(
            "{\"textDocument\": {\"uri\": \"file:///a.bzl\", \"languageId\": \"\",
              \"version\": 1, \"text\": \"x = 1\"}}"
        )
    );
    let changed = notification_of(server.change_file(uri, "x = 2".to_owned()));
    assert_eq!(changed.method, DidChangeTextDocument::METHOD);
    assert_eq!(
        changed.params,
        json(
            "{\"textDocument\": {\"uri\": \"file:///a.bzl\", \"version\": 2},
              \"contentChanges\": [{\"text\": \"x = 2\"}]}"
        )
    );
    assert_eq!(server.version_counter(), 2);
    assert_eq!(server.req_counter(), 0);
}

#[test]
fn session_starts_by_request_answer_and_notification() {
    let mut server = TestServer::new();
    let (stage, action) = server.initialize();
    match action {
        InitializeAction::Send(message) => {
            let request = request_of(message);
            assert!(request.id.same(&RequestId::Number(1)));
            assert_eq!(request.method, Initialize::METHOD);
            assert_eq!(
                request.params,
                json(
                    "{\"processId\": null, \"rootUri\": null, \"capabilities\": {
                      \"textDocument\": {\"definition\": {
                      \"dynamicRegistration\": true, \"linkSupport\": true}}}}"
                )
            );
        }
        _ => panic!("a request is expected"),
    }
    let (stage, action) = server.initialize_step(stage, InitializeEvent::Sent(Ok(())));
    assert!(matches!(action, InitializeAction::Receive));
    let (stage, action) =
        server.initialize_step(stage, InitializeEvent::Received(Ok(notification("1"))));
    assert!(matches!(action, InitializeAction::Receive));
    let answer = Message::Response(response(1, Some("{\"capabilities\": {}}"), None));
    let (stage, action) = server.initialize_step(stage, InitializeEvent::Received(Ok(answer)));
    match action {
        InitializeAction::Send(message) => {
            let sent = notification_of(message);
            assert_eq!(sent.method, Initialized::METHOD);
            assert_eq!(sent.params, json("{}"));
        }
        _ => panic!("a notification is expected"),
    }
    let (stage, action) = server.initialize_step(stage, InitializeEvent::Sent(Ok(())));
    assert!(matches!(action, InitializeAction::Ready));
    assert!(matches!(stage, Initializing::Over));
}

#[test]
fn session_fails_to_start_at_each_stage() {
    let mut server = TestServer::new();
    let (stage, _) = server.initialize();
    let (_, action) =
        server.initialize_step(stage, InitializeEvent::Sent(Err("gone".to_owned())));
    match action {
        InitializeAction::Fail(InitializeError::NotSent(reason)) => assert_eq!(reason, "gone"),
        _ => panic!("a failure is expected"),
    }
    let (stage, _) = server.initialize();
    let (stage, _) = server.initialize_step(stage, InitializeEvent::Sent(Ok(())));
    let (_, action) = server.initialize_step(
        stage,
        InitializeEvent::Received(Err(ReceiveFailure::Timeout)),
    );
    match action {
        InitializeAction::Fail(InitializeError::Session(error)) => {
            assert_eq!(text_of(error), "Timeout")
        }
        _ => panic!("a failure is expected"),
    }
    let (_, action) = server.decoded_step(Err("odd".to_owned()));
    match action {
        InitializeAction::Fail(InitializeError::NotDecoded(reason)) => assert_eq!(reason, "odd"),
        _ => panic!("a failure is expected"),
    }
    let (_, action) = server.initialize_step(
        Initializing::Announcing,
        InitializeEvent::Sent(Err("gone".to_owned())),
    );
    assert!(matches!(
        action,
        InitializeAction::Fail(InitializeError::NotSent(_))
    ));
}

#[test]
fn session_fails_to_start_on_a_result_that_cannot_be_decoded() {
    let mut server = TestServer::new();
    let (stage, _) = server.initialize();
    let (stage, _) = server.initialize_step(stage, InitializeEvent::Sent(Ok(())));
    let answer = Message::Response(response(1, Some("{}"), None));
    let (stage, action) = server.initialize_step(stage, InitializeEvent::Received(Ok(answer)));
    assert!(matches!(stage, Initializing::Over));
    match action {
        InitializeAction::Fail(InitializeError::NotDecoded(reason)) => {
            assert_eq!(reason, "missing field `capabilities`")
        }
        _ => panic!("a failure is expected"),
    }
}

#[test]
fn session_starts_at_once_if_the_answer_has_been_seen() {
    let mut server = TestServer::new();
    let early = Message::Response(response(1, Some("{\"capabilities\": {}}"), None));
    assert!(server.receive(Ok(early)).is_ok());
    let (stage, _) = server.initialize();
    let (stage, action) = server.initialize_step(stage, InitializeEvent::Sent(Ok(())));
    assert!(matches!(stage, Initializing::Announcing));
    match action {
        InitializeAction::Send(message) => {
            assert_eq!(notification_of(message).method, Initialized::METHOD)
        }
        _ => panic!("a notification is expected"),
    }
}

#[test]
fn session_ends_by_shutdown_and_exit() {
    let mut server = TestServer::new();
    let step = server.shutdown();
    assert_eq!(step.stage, Closing::Requesting);
    assert!(step.report.is_none());
    let request = request_of(step.send.unwrap());
    assert!(request.id.same(&RequestId::Number(1)));
    assert_eq!(request.method, Shutdown::METHOD);
    assert_eq!(request.params, Value::Null);
    let step = server.shutdown_step(step.stage, Ok(()));
    assert_eq!(step.stage, Closing::Exiting);
    let exit = notification_of(step.send.unwrap());
    assert_eq!(exit.method, Exit::METHOD);
    assert_eq!(exit.params, Value::Null);
    let step = server.shutdown_step(step.stage, Ok(()));
    assert_eq!(step.stage, Closing::Over);
    assert!(step.report.is_none() && step.send.is_none());
}

#[test]
fn session_that_cannot_end_properly_is_reported() {
    let server = TestServer::new();
    let step = server.shutdown_step(Closing::Requesting, Err("closed".to_owned()));
    assert_eq!(step.stage, Closing::Over);
    assert_eq!(step.report.unwrap(), "Server was already shutdown: closed");
    assert!(step.send.is_none());
    let step = server.shutdown_step(Closing::Exiting, Err("closed".to_owned()));
    assert_eq!(step.stage, Closing::Over);
    assert_eq!(step.report.unwrap(), "Could not send Exit notification: closed");
    assert!(step.send.is_none());
}

#[test]
fn file_that_parses_has_a_tree_and_its_lints() {
    let result = TestServerContext {}.parse_file_with_contents(
        "a.bzl",
        "ab".to_owned(),
        |_name: &str, content: String| Ok::<String, i32>(content),
        |tree: &String| tree.chars().collect::<Vec<char>>(),
        |lint: char| format!("lint {}", lint),
        |name: &str, e: i32| format!("{}: {}", name, e),
    );
    assert_eq!(result.ast, Some("ab".to_owned()));
    assert_eq!(result.diagnostics, vec!["lint a".to_owned(), "lint b".to_owned()]);
}

#[test]
fn file_that_does_not_parse_has_its_error() {
    let result = TestServerContext {}.parse_file_with_contents(
        "a.bzl",
        "ab".to_owned(),
        |_name: &str, _content: String| Err::<String, i32>(5),
        |tree: &String| tree.chars().collect::<Vec<char>>(),
        |lint: char| format!("lint {}", lint),
        |name: &str, e: i32| format!("{}: {}", name, e),
    );
    assert_eq!(result.ast, None);
    assert_eq!(result.diagnostics, vec!["a.bzl: 5".to_owned()]);
}
