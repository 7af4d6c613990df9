//! The client side of a session with a language server under test: it numbers the
//! requests and the versions of documents, and keeps what the server has sent until it
//! is asked for.

use lsp_types::Url;
use serde_json::Value;
use std::collections::VecDeque;
use vstd::prelude::*;
use vstd::string::*;

use crate::json::{self, ContentChange, DidChangeParams, Json, TextDocumentItem};
use crate::message::{self, Id, Message, Notification, Request, RequestId, Response};

verus! {

/// Why no message was received.
#[derive(Clone, Copy, Debug, PartialEq, Eq, Structural)]
pub enum ReceiveFailure {
    /// None came in time.
    Timeout,
    /// None can come any more.
    Disconnected,
}

/// What goes wrong in a session.
pub enum ServerError {
    /// No message was received.
    NotReceived(ReceiveFailure),
    /// The server sent a request.
    UnexpectedRequest(String),
    /// The server answered a request a second time.
    DuplicateResponse(String),
    /// The server answered a request with an error.
    ResponseError(String),
    /// The server answered a request with neither a result nor an error, or with both.
    InvalidResponse(String),
}

/// An error of a session, by its values.
pub enum Fault {
    NotReceived(ReceiveFailure),
    UnexpectedRequest(Seq<char>),
    DuplicateResponse(Seq<char>),
    ResponseError(Seq<char>),
    InvalidResponse(Seq<char>),
}

impl View for ServerError {
    type V = Fault;

    open spec fn view(&self) -> Fault {
        match self {
            ServerError::NotReceived(failure) => Fault::NotReceived(*failure),
            ServerError::UnexpectedRequest(text) => Fault::UnexpectedRequest(text@),
            ServerError::DuplicateResponse(text) => Fault::DuplicateResponse(text@),
            ServerError::ResponseError(text) => Fault::ResponseError(text@),
            ServerError::InvalidResponse(text) => Fault::InvalidResponse(text@),
        }
    }
}

/// The state of a session.
pub struct Session {
    /// The number of the last request.
    pub req_counter: int,
    /// The version of the last document that was opened or changed.
    pub version_counter: int,
    /// The responses that have arrived, by the id of the request.
    pub responses: Map<Id, Response>,
    /// The notifications that have arrived and were not asked for yet, the oldest first.
    pub notifications: Seq<Notification>,
}

/// The client side of a session.
pub struct TestServer {
    /// Incremented to make the id of each request.
    req_counter: i32,
    /// Incremented to make the version of each document.
    version_counter: i32,
    /// The responses that have arrived, no two for the same request.
    responses: Vec<Response>,
    /// The notifications that have arrived, drained as they are asked for.
    notifications: VecDeque<Notification>,
}

/// Responses by the id of their request.
spec fn by_id(responses: Seq<Response>) -> Map<Id, Response>
    decreases responses.len(),
{
    if responses.len() == 0 {
        Map::empty()
    } else {
        by_id(responses.drop_last()).insert(responses.last().id@, responses.last())
    }
}

proof fn lemma_by_id(responses: Seq<Response>, id: Id)
    ensures
        by_id(responses).contains_key(id) <==> exists|i: int|
            0 <= i < responses.len() && (#[trigger] responses[i]).id@ == id,
    decreases responses.len(),
{
    if responses.len() > 0 {
        let before = responses.drop_last();
        lemma_by_id(before, id);
        if by_id(before).contains_key(id) {
            let i = choose|i: int| 0 <= i < before.len() && (#[trigger] before[i]).id@ == id;
            assert(responses[i].id@ == id);
        }
        if exists|i: int| 0 <= i < responses.len() && (#[trigger] responses[i]).id@ == id {
            let i = choose|i: int| 0 <= i < responses.len() && (#[trigger] responses[i]).id@ == id;
            if i < before.len() {
                assert(before[i].id@ == id);
            }
        }
    }
}

proof fn lemma_ids_match(responses: Seq<Response>)
    ensures
        forall|id: Id| #[trigger]
            by_id(responses).contains_key(id) ==> by_id(responses)[id].id@ == id,
    decreases responses.len(),
{
    if responses.len() > 0 {
        lemma_ids_match(responses.drop_last());
    }
}

spec fn distinct_ids(responses: Seq<Response>) -> bool {
    forall|i: int, j: int|
        0 <= i < j < responses.len() ==> (#[trigger] responses[i]).id@ != (
        #[trigger] responses[j]).id@
}

proof fn lemma_by_id_index(responses: Seq<Response>, i: int)
    requires
        distinct_ids(responses),
        0 <= i < responses.len(),
    ensures
        by_id(responses).contains_key(responses[i].id@),
        by_id(responses)[responses[i].id@] == responses[i],
    decreases responses.len(),
{
    if i < responses.len() - 1 {
        let before = responses.drop_last();
        assert(distinct_ids(before)) by {
            assert forall|a: int, b: int| 0 <= a < b < before.len() implies (
            #[trigger] before[a]).id@ != (#[trigger] before[b]).id@ by {
                assert(responses[a].id@ != responses[b].id@);
            }
        }
        lemma_by_id_index(before, i);
        assert(before[i] == responses[i]);
        assert(responses[i].id@ != responses[responses.len() - 1].id@);
    }
}

/// The session after one more request was made.
pub open spec fn requested(session: Session) -> Session {
    Session { req_counter: session.req_counter + 1, ..session }
}

/// The id of the next request.
pub open spec fn next_id(session: Session) -> Id {
    Id::Number((session.req_counter + 1) as i32)
}

/// The session after one more document was opened or changed.
pub open spec fn edited(session: Session) -> Session {
    Session { version_counter: session.version_counter + 1, ..session }
}

/// The version of the next document that is opened or changed.
pub open spec fn next_version(session: Session) -> i32 {
    (session.version_counter + 1) as i32
}

/// Each response is kept under the id that it answers.
pub open spec fn ids_match(session: Session) -> bool {
    forall|id: Id| #[trigger]
        session.responses.contains_key(id) ==> session.responses[id].id@ == id
}

/// What an attempt to receive a message gives.
pub type Incoming = Result<Message, ReceiveFailure>;

/// What is wrong with an incoming message, if anything is.
pub open spec fn receive_fault(session: Session, incoming: Incoming) -> Option<Fault> {
    match incoming {
        Err(failure) => Some(Fault::NotReceived(failure)),
        Ok(Message::Request(request)) => Some(
            Fault::UnexpectedRequest(
                "Got a request from the server: "@ + message::request_debug_text(
                    request.id@,
                    request.method@,
                    json::json_of(request.params),
                ),
            ),
        ),
        Ok(Message::Response(response)) => if session.responses.contains_key(response.id@) {
            Some(
                Fault::DuplicateResponse(
                    "Got a duplicate response for request ID "@ + message::id_debug_text(
                        response.id@,
                    ) + ": Existing: "@ + message::debug_text(session.responses[response.id@])
                        + ", New: "@ + message::debug_text(response),
                ),
            )
        } else {
            None
        },
        Ok(Message::Notification(_)) => None,
    }
}

/// The session after an incoming message: a response is kept under its id, a
/// notification goes to the end of the queue. Nothing else changes anything.
pub open spec fn received(session: Session, incoming: Incoming) -> Session {
    if receive_fault(session, incoming) is Some {
        session
    } else {
        match incoming {
            Ok(Message::Response(response)) => Session {
                responses: session.responses.insert(response.id@, response),
                ..session
            },
            Ok(Message::Notification(notification)) => Session {
                notifications: session.notifications.push(notification),
                ..session
            },
            _ => session,
        }
    }
}

/// What a response tells: its result, if it has one and no error.
pub open spec fn response_outcome(id: Id, response: Response) -> Result<Json, Fault> {
    match (response.result, response.error) {
        (Some(result), None) => Ok(json::json_of(result)),
        (None, Some(error)) => Err(Fault::ResponseError("Response error: "@ + error.message@)),
        _ => Err(
            Fault::InvalidResponse(
                "Invalid response message for request "@ + message::id_text(id) + ": "@
                    + message::debug_text(response),
            ),
        ),
    }
}

/// What the response to a request tells, if it has been seen.
pub open spec fn seen(session: Session, id: Id) -> Option<Result<Json, Fault>> {
    if session.responses.contains_key(id) {
        Some(response_outcome(id, session.responses[id]))
    } else {
        None
    }
}

/// What one turn of waiting for a response comes to: what the response tells if it had
/// been seen before, a fault of the message that came in, what the response tells if it
/// is there by now, or else nothing yet.
pub open spec fn response_turn(session: Session, id: Id, incoming: Incoming) -> Option<
    Result<Json, Fault>,
> {
    if session.responses.contains_key(id) {
        seen(session, id)
    } else {
        match receive_fault(session, incoming) {
            Some(fault) => Some(Err(fault)),
            None => seen(received(session, incoming), id),
        }
    }
}

/// What one turn of waiting for a notification comes to: a fault of the message that
/// came in, the parameters of the oldest notification if there is one by now, or else
/// nothing yet.
pub open spec fn notification_turn(session: Session, incoming: Incoming) -> Option<
    Result<Json, Fault>,
> {
    match receive_fault(session, incoming) {
        Some(fault) => Some(Err(fault)),
        None => {
            let notifications = received(session, incoming).notifications;
            if notifications.len() > 0 {
                Some(Ok(json::json_of(notifications[0].params)))
            } else {
                None
            }
        },
    }
}

/// The session after one turn of waiting for a notification: the one that is handed
/// out leaves the queue.
pub open spec fn notification_taken(session: Session, incoming: Incoming) -> Session {
    let after = received(session, incoming);
    if receive_fault(session, incoming) is None && after.notifications.len() > 0 {
        Session { notifications: after.notifications.drop_first(), ..after }
    } else {
        after
    }
}

/// What a turn came to, by its values: `Ok(None)` is nothing yet.
pub open spec fn turn(result: Result<Option<Value>, ServerError>) -> Option<Result<Json, Fault>> {
    match result {
        Ok(Some(value)) => Some(Ok(json::json_of(value))),
        Ok(None) => None,
        Err(error) => Some(Err(error@)),
    }
}

impl View for TestServer {
    type V = Session;

    closed spec fn view(&self) -> Session {
        Session {
            req_counter: self.req_counter as int,
            version_counter: self.version_counter as int,
            responses: by_id(self.responses@),
            notifications: self.notifications@,
        }
    }
}

impl TestServer {
    /// No two of the responses that are kept answer the same request.
    pub closed spec fn wf(&self) -> bool {
        distinct_ids(self.responses@)
    }

    /// A session in which nothing has been sent or received.
    pub fn new() -> (server: TestServer)
        ensures
            server.wf(),
            server@ == (Session {
                req_counter: 0,
                version_counter: 0,
                responses: Map::empty(),
                notifications: Seq::empty(),
            }),
    {
        let server = TestServer {
            req_counter: 0,
            version_counter: 0,
            responses: Vec::new(),
            notifications: VecDeque::new(),
        };
        assert(server@.notifications =~= Seq::empty());
        server
    }

    /// The number of the last request.
    pub fn req_counter(&self) -> (counter: i32)
        ensures
            counter == self@.req_counter,
    {
        self.req_counter
    }

    /// The version of the last document that was opened or changed.
    pub fn version_counter(&self) -> (counter: i32)
        ensures
            counter == self@.version_counter,
    {
        self.version_counter
    }

    /// What is kept under an id is a response to the request with that id.
    pub proof fn law_responses_answer_their_id(&self)
        requires
            self.wf(),
        ensures
            ids_match(self@),
    {
        lemma_ids_match(self.responses@);
    }

    /// Generates a new request id.
    pub fn next_request_id(&mut self) -> (id: RequestId)
        requires
            old(self).wf(),
            old(self)@.req_counter < i32::MAX,
        ensures
            final(self).wf(),
            final(self)@ == requested(old(self)@),
            id@ == next_id(old(self)@),
    {
        self.req_counter = self.req_counter + 1;
        RequestId::Number(self.req_counter)
    }

    /// Generates a new document version.
    pub fn next_document_version(&mut self) -> (version: i32)
        requires
            old(self).wf(),
            old(self)@.version_counter < i32::MAX,
        ensures
            final(self).wf(),
            final(self)@ == edited(old(self)@),
            version == next_version(old(self)@),
    {
        self.version_counter = self.version_counter + 1;
        self.version_counter
    }

    /// Creates a request with an automatically generated id.
    pub fn new_request(&mut self, method: &str, params: Value) -> (request: Request)
        requires
            old(self).wf(),
            old(self)@.req_counter < i32::MAX,
        ensures
            final(self).wf(),
            final(self)@ == requested(old(self)@),
            request.id@ == next_id(old(self)@),
            request.method@ == method@,
            request.params == params,
    {
        Request { id: self.next_request_id(), method: method.to_owned(), params }
    }

    /// What is sent for a request, and the id by which to wait for its response.
    pub fn send_request(&self, req: Request) -> (sent: (Message, RequestId))
        ensures
            sent.0 == Message::Request(req),
            sent.1 == req.id,
    {
        let id = req.id.clone();
        (Message::Request(req), id)
    }

    /// What is sent for a notification.
    pub fn send_notification(&self, notification: Notification) -> (sent: Message)
        ensures
            sent == Message::Notification(notification),
    {
        Message::Notification(notification)
    }

    /// The place of the response to a request among those that are kept.
    fn find(&self, id: &RequestId) -> (found: Option<usize>)
        requires
            self.wf(),
        ensures
            match found {
                Some(i) => i < self.responses@.len() && self@.responses.contains_key(id@)
                    && self@.responses[id@] == self.responses@[i as int],
                None => !self@.responses.contains_key(id@),
            },
    {
        let mut i: usize = 0;
        while i < self.responses.len()
            invariant
                i <= self.responses@.len(),
                self.wf(),
                forall|j: int|
                    0 <= j < i ==> (#[trigger] self.responses@[j]).id@ != id@,
            decreases self.responses@.len() - i,
        {
            if self.responses[i].id.same(id) {
                proof {
                    lemma_by_id_index(self.responses@, i as int);
                }
                return Some(i);
            }
            i = i + 1;
        }
        proof {
            lemma_by_id(self.responses@, id@);
        }
        None
    }

    /// Takes in a message that was received: a response is kept under its id, a
    /// notification is queued.
    ///
    /// Returns an error if no message was received, or one that cannot be: a request, or
    /// a second response to a request.
    pub fn receive(&mut self, incoming: Incoming) -> (result: Result<(), ServerError>)
        requires
            old(self).wf(),
        ensures
            final(self).wf(),
            final(self)@ == received(old(self)@, incoming),
            match result {
                Ok(_) => receive_fault(old(self)@, incoming) is None,
                Err(error) => receive_fault(old(self)@, incoming) == Some(error@),
            },
    {
        match incoming {
            Err(failure) => Err(ServerError::NotReceived(failure)),
            Ok(Message::Request(request)) => {
                let text = "Got a request from the server: ".to_owned().concat(
                    message::debug_request(&request).as_str(),
                );
                Err(ServerError::UnexpectedRequest(text))
            },
            Ok(Message::Response(response)) => {
                match self.find(&response.id) {
                    Some(i) => {
                        let text = "Got a duplicate response for request ID ".to_owned().concat(
                            message::debug_id(&response.id).as_str(),
                        ).concat(": Existing: ").concat(
                            message::debug_response(&self.responses[i]).as_str(),
                        ).concat(", New: ").concat(message::debug_response(&response).as_str());
                        Err(ServerError::DuplicateResponse(text))
                    },
                    None => {
                        let ghost before = self.responses@;
                        let ghost id = response.id@;
                        self.responses.push(response);
                        proof {
                            lemma_by_id(before, id);
                            assert(self.responses@.drop_last() =~= before);
                            assert(self.wf());
                        }
                        Ok(())
                    },
                }
            },
            Ok(Message::Notification(notification)) => {
                self.notifications.push_back(notification);
                Ok(())
            },
        }
    }

    /// What the response to a request tells, if it has been seen: its result, or an error
    /// where it has none. As long as this returns `Ok(None)`, the response has to be waited
    /// for.
    pub fn seen_response(&self, id: &RequestId) -> (result: Result<Option<Value>, ServerError>)
        requires
            self.wf(),
        ensures
            turn(result) == seen(self@, id@),
    {
        match self.find(id) {
            Some(i) => {
                let response = &self.responses[i];
                match (&response.result, &response.error) {
                    (Some(result), None) => Ok(Some(result.clone())),
                    (None, Some(error)) => {
                        let text = "Response error: ".to_owned().concat(error.message.as_str());
                        Err(ServerError::ResponseError(text))
                    },
                    _ => {
                        let text = "Invalid response message for request ".to_owned().concat(
                            message::display_id(id).as_str(),
                        ).concat(": ").concat(message::debug_response(response).as_str());
                        Err(ServerError::InvalidResponse(text))
                    },
                }
            },
            None => Ok(None),
        }
    }

    /// One turn of waiting for the response to a request: takes in a message that was
    /// received, and looks whether the response is there. Another turn is due as long as
    /// this returns `Ok(None)`.
    ///
    /// A response that had been seen before is given whatever was received, and
    /// [`TestServer::seen_response`] gives it without anything being received.
    pub fn get_response(&mut self, id: &RequestId, incoming: Incoming) -> (result: Result<
        Option<Value>,
        ServerError,
    >)
        requires
            old(self).wf(),
        ensures
            final(self).wf(),
            final(self)@ == received(old(self)@, incoming),
            turn(result) == response_turn(old(self)@, id@, incoming),
    {
        let before = self.find(id);
        match self.receive(incoming) {
            Ok(()) => {},
            Err(error) => {
                if before.is_none() {
                    return Err(error);
                }
            },
        }
        self.seen_response(id)
    }

    /// One turn of waiting for a notification: takes in a message that was received, and
    /// hands out the parameters of the oldest notification that is there. Another turn is
    /// due as long as this returns `Ok(None)`.
    pub fn get_notification(&mut self, incoming: Incoming) -> (result: Result<
        Option<Value>,
        ServerError,
    >)
        requires
            old(self).wf(),
        ensures
            final(self).wf(),
            final(self)@ == notification_taken(old(self)@, incoming),
            turn(result) == notification_turn(old(self)@, incoming),
    {
        match self.receive(incoming) {
            Ok(()) => {},
            Err(error) => {
                return Err(error);
            },
        }
        match self.notifications.pop_front() {
            Some(notification) => Ok(Some(notification.params)),
            None => Ok(None),
        }
    }

    /// The notification that a file was opened with the given contents.
    pub fn open_file(&mut self, uri: Url, contents: String) -> (sent: Message)
        requires
            old(self).wf(),
            old(self)@.version_counter < i32::MAX,
        ensures
            final(self).wf(),
            final(self)@ == edited(old(self)@),
            sent matches Message::Notification(notification) && notification.method@
                == "textDocument/didOpen"@ && json::json_of(notification.params)
                == json::did_open_json(
                json::url_text(uri),
                Seq::empty(),
                next_version(old(self)@),
                contents@,
            ),
    {
        let version = self.next_document_version();
        let item = TextDocumentItem { uri, language_id: String::new(), version, text: contents };
        let params = json::did_open_params(item);
        self.send_notification(
            Notification { method: "textDocument/didOpen".to_owned(), params },
        )
    }

    /// The notification that a file was changed to the given contents: one change without
    /// a range, whose text is the whole of the document.
    pub fn change_file(&mut self, uri: Url, contents: String) -> (sent: Message)
        requires
            old(self).wf(),
            old(self)@.version_counter < i32::MAX,
        ensures
            final(self).wf(),
            final(self)@ == edited(old(self)@),
            sent matches Message::Notification(notification) && notification.method@
                == "textDocument/didChange"@ && json::json_of(notification.params)
                == json::did_change_json(
                json::url_text(uri),
                next_version(old(self)@),
                seq![json::change_json(None, None, contents@)],
            ),
    {
        let version = self.next_document_version();
        let whole = ContentChange { range: None, range_length: None, text: contents };
        let content_changes = vec![whole];
        assert(json::changes_json(content_changes@) =~= seq![
            json::change_json(None, None, contents@),
        ]);
        let params = json::did_change_params(DidChangeParams { uri, version, content_changes });
        self.send_notification(
            Notification { method: "textDocument/didChange".to_owned(), params },
        )
    }
}

} // verus!
