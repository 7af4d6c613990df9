//! How a session begins and ends. Each step is told what became of the action that the
//! step before asked for, and says what to do next.

use serde_json::Value;
use vstd::prelude::*;
use vstd::string::*;

use crate::json::{self, GotoCapability, InitializeParams, Json};
use crate::message::{Id, Message, Notification, Request, RequestId};
use crate::server::{self, Fault, Incoming, ServerError, Session, TestServer};

verus! {

/// How far the start of a session has come.
pub enum Initializing {
    /// The `initialize` request with this id is being sent.
    Requesting(RequestId),
    /// The response to it is being waited for.
    Awaiting(RequestId),
    /// The `initialized` notification is being sent.
    Announcing,
    /// The session has started, or failed to.
    Over,
}

/// What became of an action.
pub enum InitializeEvent {
    /// The message was sent, or was not for the given reason.
    Sent(Result<(), String>),
    /// A message was received, or none.
    Received(Incoming),
}

/// Why a session failed to start.
pub enum InitializeError {
    NotSent(String),
    Session(ServerError),
    NotDecoded(String),
}

/// What to do next.
pub enum InitializeAction {
    /// Send a message.
    Send(Message),
    /// Wait for a message.
    Receive,
    /// The session has started.
    Ready,
    /// The session failed to start.
    Fail(InitializeError),
}

/// An event that tells what became of the action of a stage.
pub open spec fn expected(stage: Initializing, event: InitializeEvent) -> bool {
    match stage {
        Initializing::Requesting(_) => event is Sent,
        Initializing::Awaiting(_) => event is Received,
        Initializing::Announcing => event is Sent,
        Initializing::Over => false,
    }
}

/// What a client that only goes to definitions tells the server.
pub open spec fn client_capability() -> GotoCapability {
    GotoCapability { dynamic_registration: Some(true), link_support: Some(true) }
}

/// The parameters of the `initialize` request: everything but the capability is absent.
pub open spec fn initialize_json() -> Json {
    json::initialize_params_json(
        InitializeParams {
            process_id: None,
            root_path: None,
            root_uri: None,
            initialization_options: None,
            trace: None,
            workspace_folders: None,
            client_info: None,
            locale: None,
        },
        json::capabilities_json(client_capability()),
    )
}

/// The request that starts a session.
pub open spec fn is_initialize_request(message: Message, id: Id) -> bool {
    message matches Message::Request(request) && request.id@ == id && request.method@
        == "initialize"@ && json::json_of(request.params) == initialize_json()
}

/// The notification that the client has been told what the server can do.
pub open spec fn is_initialized_notification(message: Message) -> bool {
    message matches Message::Notification(notification) && notification.method@ == "initialized"@
        && json::json_of(notification.params) == Json::Object(Map::empty())
}

/// How far a session has come once it was tried to decode the result of the `initialize`
/// request.
pub open spec fn decoded_stage(fault: Option<Seq<char>>) -> Initializing {
    match fault {
        None => Initializing::Announcing,
        Some(_) => Initializing::Over,
    }
}

/// Whether `action` is what to do once it was tried to decode the result of the
/// `initialize` request.
pub open spec fn is_decoded_action(fault: Option<Seq<char>>, action: InitializeAction) -> bool {
    match fault {
        None => action matches InitializeAction::Send(message) && is_initialized_notification(
            message,
        ),
        Some(reason) => action matches InitializeAction::Fail(InitializeError::NotDecoded(text))
            && text@ == reason,
    }
}

/// How far a session has come, given what there is of the response to the `initialize`
/// request.
pub open spec fn answer_stage(id: RequestId, answer: Option<Result<Json, Fault>>) -> Initializing {
    match answer {
        None => Initializing::Awaiting(id),
        Some(Ok(result)) => decoded_stage(json::initialize_result_fault(result)),
        Some(Err(_)) => Initializing::Over,
    }
}

/// Whether `action` is what to do, given what there is of the response to the
/// `initialize` request.
pub open spec fn is_answer_action(
    answer: Option<Result<Json, Fault>>,
    action: InitializeAction,
) -> bool {
    match answer {
        None => action == InitializeAction::Receive,
        Some(Ok(result)) => is_decoded_action(json::initialize_result_fault(result), action),
        Some(Err(fault)) => action matches InitializeAction::Fail(InitializeError::Session(error))
            && error@ == fault,
    }
}

/// How far a session has come after an event.
pub open spec fn next_stage(session: Session, stage: Initializing, event: InitializeEvent)
    -> Initializing {
    match (stage, event) {
        (Initializing::Requesting(id), InitializeEvent::Sent(Ok(_))) => answer_stage(
            id,
            server::seen(session, id@),
        ),
        (Initializing::Awaiting(id), InitializeEvent::Received(incoming)) => answer_stage(
            id,
            server::response_turn(session, id@, incoming),
        ),
        _ => Initializing::Over,
    }
}

/// The session after an event.
pub open spec fn next_session(session: Session, event: InitializeEvent) -> Session {
    match event {
        InitializeEvent::Received(incoming) => server::received(session, incoming),
        _ => session,
    }
}

/// Whether `action` is what to do after an event.
pub open spec fn is_next_action(
    session: Session,
    stage: Initializing,
    event: InitializeEvent,
    action: InitializeAction,
) -> bool {
    match (stage, event) {
        (Initializing::Requesting(id), InitializeEvent::Sent(Ok(_))) => is_answer_action(
            server::seen(session, id@),
            action,
        ),
        (Initializing::Awaiting(id), InitializeEvent::Received(incoming)) => is_answer_action(
            server::response_turn(session, id@, incoming),
            action,
        ),
        (Initializing::Announcing, InitializeEvent::Sent(Ok(_))) => action
            == InitializeAction::Ready,
        (_, InitializeEvent::Sent(Err(reason))) => action == InitializeAction::Fail(
            InitializeError::NotSent(reason),
        ),
        _ => false,
    }
}

/// How far the end of a session has come.
#[derive(Clone, Copy, Debug, PartialEq, Eq, Structural)]
pub enum Closing {
    /// The `shutdown` request is being sent.
    Requesting,
    /// The `exit` notification is being sent.
    Exiting,
    /// Nothing is left to be sent.
    Over,
}

/// What to do next at the end of a session: report something, and send something, or
/// else wait until the server has stopped.
pub struct ClosingStep {
    pub stage: Closing,
    pub report: Option<String>,
    pub send: Option<Message>,
}

/// The request to shut down.
pub open spec fn is_shutdown_request(message: Message, id: Id) -> bool {
    message matches Message::Request(request) && request.id@ == id && request.method@
        == "shutdown"@ && json::json_of(request.params) == Json::Null
}

/// The notification that the server is to exit.
pub open spec fn is_exit_notification(message: Message) -> bool {
    message matches Message::Notification(notification) && notification.method@ == "exit"@
        && json::json_of(notification.params) == Json::Null
}

/// How far the end of a session has come after a message was sent, or was not.
pub open spec fn closing_stage(stage: Closing, sent: bool) -> Closing {
    if stage == Closing::Requesting && sent {
        Closing::Exiting
    } else {
        Closing::Over
    }
}

/// What there is to report after a message was sent, or was not.
pub open spec fn closing_report(stage: Closing, sent: Result<(), String>) -> Option<Seq<char>> {
    match (stage, sent) {
        (Closing::Requesting, Err(reason)) => Some("Server was already shutdown: "@ + reason@),
        (Closing::Exiting, Err(reason)) => Some("Could not send Exit notification: "@ + reason@),
        _ => None,
    }
}

pub open spec fn optional_text(text: Option<String>) -> Option<Seq<char>> {
    match text {
        Some(text) => Some(text@),
        None => None,
    }
}

impl TestServer {
    /// Starts a session: the `initialize` request is to be sent.
    pub fn initialize(&mut self) -> (first: (Initializing, InitializeAction))
        requires
            old(self).wf(),
            old(self)@.req_counter < i32::MAX,
        ensures
            final(self).wf(),
            final(self)@ == server::requested(old(self)@),
            first.0 matches Initializing::Requesting(id) && id@ == server::next_id(old(self)@),
            first.1 matches InitializeAction::Send(message) && is_initialize_request(
                message,
                server::next_id(old(self)@),
            ),
    {
        let capabilities = json::goto_capabilities(
            GotoCapability { dynamic_registration: Some(true), link_support: Some(true) },
        );
        let params = json::initialize_params(
            InitializeParams {
                process_id: None,
                root_path: None,
                root_uri: None,
                initialization_options: None,
                trace: None,
                workspace_folders: None,
                client_info: None,
                locale: None,
            },
            capabilities,
        );
        let request = self.new_request("initialize", params);
        let (message, id) = self.send_request(request);
        (Initializing::Requesting(id), InitializeAction::Send(message))
    }

    /// What follows the attempt to decode the result of the `initialize` request: the
    /// `initialized` notification is to be sent, unless the attempt failed.
    pub fn decoded_step(&self, decoded: Result<(), String>) -> (next: (
        Initializing,
        InitializeAction,
    ))
        ensures
            next.0 == decoded_stage(json::decode_fault(decoded)),
            is_decoded_action(json::decode_fault(decoded), next.1),
    {
        match decoded {
            Ok(()) => {
                let params = json::initialized_params();
                let notification = Notification { method: "initialized".to_owned(), params };
                let message = self.send_notification(notification);
                (Initializing::Announcing, InitializeAction::Send(message))
            },
            Err(reason) => {
                (Initializing::Over, InitializeAction::Fail(InitializeError::NotDecoded(reason)))
            },
        }
    }

    /// What follows a look for the response to the `initialize` request: if it is there,
    /// its result is decoded.
    fn answer_step(&self, id: RequestId, answer: Result<Option<Value>, ServerError>) -> (next: (
        Initializing,
        InitializeAction,
    ))
        ensures
            next.0 == answer_stage(id, server::turn(answer)),
            is_answer_action(server::turn(answer), next.1),
    {
        match answer {
            Ok(None) => (Initializing::Awaiting(id), InitializeAction::Receive),
            Ok(Some(result)) => self.decoded_step(json::decode_initialize_result(result)),
            Err(error) => (
                Initializing::Over,
                InitializeAction::Fail(InitializeError::Session(error)),
            ),
        }
    }

    /// Goes on with the start of a session: once the `initialize` request was sent, its
    /// response is waited for unless it has been seen, its result is decoded, and then the
    /// `initialized` notification is sent.
    pub fn initialize_step(&mut self, stage: Initializing, event: InitializeEvent) -> (next: (
        Initializing,
        InitializeAction,
    ))
        requires
            old(self).wf(),
            expected(stage, event),
        ensures
            final(self).wf(),
            final(self)@ == next_session(old(self)@, event),
            next.0 == next_stage(old(self)@, stage, event),
            is_next_action(old(self)@, stage, event, next.1),
    {
        match (stage, event) {
            (Initializing::Requesting(id), InitializeEvent::Sent(Ok(()))) => {
                let answer = self.seen_response(&id);
                self.answer_step(id, answer)
            },
            (Initializing::Awaiting(id), InitializeEvent::Received(incoming)) => {
                let answer = self.get_response(&id, incoming);
                self.answer_step(id, answer)
            },
            (Initializing::Announcing, InitializeEvent::Sent(Ok(()))) => {
                (Initializing::Over, InitializeAction::Ready)
            },
            (_, InitializeEvent::Sent(Err(reason))) => {
                (Initializing::Over, InitializeAction::Fail(InitializeError::NotSent(reason)))
            },
            // No other event is expected.
            _ => (Initializing::Over, InitializeAction::Ready),
        }
    }

    /// Ends a session: the `shutdown` request is to be sent.
    pub fn shutdown(&mut self) -> (first: ClosingStep)
        requires
            old(self).wf(),
            old(self)@.req_counter < i32::MAX,
        ensures
            final(self).wf(),
            final(self)@ == server::requested(old(self)@),
            first.stage == Closing::Requesting,
            first.report is None,
            first.send matches Some(message) && is_shutdown_request(
                message,
                server::next_id(old(self)@),
            ),
    {
        let request = Request {
            id: self.next_request_id(),
            method: "shutdown".to_owned(),
            params: json::null(),
        };
        let (message, _id) = self.send_request(request);
        ClosingStep { stage: Closing::Requesting, report: None, send: Some(message) }
    }

    /// Goes on with the end of a session: once the `shutdown` request was sent, the `exit`
    /// notification follows it.
    pub fn shutdown_step(&self, stage: Closing, sent: Result<(), String>) -> (next: ClosingStep)
        requires
            stage != Closing::Over,
        ensures
            next.stage == closing_stage(stage, sent is Ok),
            optional_text(next.report) == closing_report(stage, sent),
            match next.send {
                Some(message) => next.stage == Closing::Exiting && is_exit_notification(message),
                None => next.stage == Closing::Over,
            },
    {
        match (stage, sent) {
            (Closing::Requesting, Ok(())) => {
                let notification = Notification {
                    method: "exit".to_owned(),
                    params: json::null(),
                };
                let message = self.send_notification(notification);
                ClosingStep { stage: Closing::Exiting, report: None, send: Some(message) }
            },
            (Closing::Requesting, Err(reason)) => {
                let text = "Server was already shutdown: ".to_owned().concat(reason.as_str());
                ClosingStep { stage: Closing::Over, report: Some(text), send: None }
            },
            (_, Ok(())) => ClosingStep { stage: Closing::Over, report: None, send: None },
            (_, Err(reason)) => {
                let text = "Could not send Exit notification: ".to_owned().concat(
                    reason.as_str(),
                );
                ClosingStep { stage: Closing::Over, report: Some(text), send: None }
            },
        }
    }
}

} // verus!
