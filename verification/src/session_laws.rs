//! What holds of every session.

use serde_json::Value;
use vstd::prelude::*;

use crate::context;
use crate::json::{self, Json};
use crate::lifecycle::{
    self, Closing, InitializeAction, InitializeError, InitializeEvent, Initializing,
};
use crate::message::{self, Id, Message, Notification, Request, RequestId, Response};
use crate::server::{self, Fault, Incoming, ReceiveFailure, ServerError, Session};

verus! {

/// One thing that is done in a session.
pub enum Step {
    /// A request is made.
    Request,
    /// A file is opened or changed.
    Edit,
    /// A message is taken in, whatever becomes of it, as when a response is waited for.
    Receive(Incoming),
    /// A message is taken in, and a notification is handed out if there is one.
    Notify(Incoming),
}

/// The session after one step.
pub open spec fn stepped(session: Session, step: Step) -> Session {
    match step {
        Step::Request => server::requested(session),
        Step::Edit => server::edited(session),
        Step::Receive(incoming) => server::received(session, incoming),
        Step::Notify(incoming) => server::notification_taken(session, incoming),
    }
}

/// The session after the first `n` of some steps.
pub open spec fn run(session: Session, steps: Seq<Step>, n: int) -> Session
    decreases n,
{
    if n <= 0 {
        session
    } else {
        stepped(run(session, steps, n - 1), steps[n - 1])
    }
}

proof fn lemma_run(session: Session, steps: Seq<Step>, m: int, n: int)
    requires
        0 <= m <= n,
    ensures
        run(session, steps, m).req_counter <= run(session, steps, n).req_counter,
        run(session, steps, m).version_counter <= run(session, steps, n).version_counter,
        m < n && steps[m] is Request ==> run(session, steps, m).req_counter < run(
            session,
            steps,
            n,
        ).req_counter,
        m < n && steps[m] is Edit ==> run(session, steps, m).version_counter < run(
            session,
            steps,
            n,
        ).version_counter,
    decreases n - m,
{
    if m < n {
        lemma_run(session, steps, m, n - 1);
    }
}

/// No two requests of a session have the same id, as long as there are ids, whatever else
/// is done before, between and after them.
pub proof fn law_request_ids_are_distinct(session: Session, steps: Seq<Step>, m: int, n: int)
    requires
        i32::MIN <= session.req_counter,
        0 <= m < n < steps.len(),
        steps[m] is Request,
        steps[n] is Request,
        run(session, steps, n).req_counter < i32::MAX,
    ensures
        server::next_id(run(session, steps, m)) != server::next_id(run(session, steps, n)),
{
    lemma_run(session, steps, 0, m);
    lemma_run(session, steps, m, n);
}

/// The versions of documents increase with each file that is opened or changed, as long
/// as there are versions, whatever else is done before, between and after.
pub proof fn law_versions_increase(session: Session, steps: Seq<Step>, m: int, n: int)
    requires
        i32::MIN <= session.version_counter,
        0 <= m < n < steps.len(),
        steps[m] is Edit,
        steps[n] is Edit,
        run(session, steps, n).version_counter < i32::MAX,
    ensures
        server::next_version(run(session, steps, m)) < server::next_version(
            run(session, steps, n),
        ),
{
    lemma_run(session, steps, 0, m);
    lemma_run(session, steps, m, n);
}

/// The session after several messages came in, whatever became of them.
pub open spec fn received_all(session: Session, incoming: Seq<Incoming>) -> Session
    decreases incoming.len(),
{
    if incoming.len() == 0 {
        session
    } else {
        server::received(received_all(session, incoming.drop_last()), incoming.last())
    }
}

/// The notifications among several messages, in order.
pub open spec fn notifications_in(incoming: Seq<Incoming>) -> Seq<Notification>
    decreases incoming.len(),
{
    if incoming.len() == 0 {
        Seq::empty()
    } else {
        let before = notifications_in(incoming.drop_last());
        match incoming.last() {
            Ok(Message::Notification(notification)) => before.push(notification),
            _ => before,
        }
    }
}

/// Notifications are queued in the order in which they arrive, whatever arrives
/// between them, and none is lost.
pub proof fn law_notifications_keep_their_order(session: Session, incoming: Seq<Incoming>)
    ensures
        received_all(session, incoming).notifications == session.notifications + notifications_in(
            incoming,
        ),
    decreases incoming.len(),
{
    if incoming.len() > 0 {
        law_notifications_keep_their_order(session, incoming.drop_last());
    }
    assert(received_all(session, incoming).notifications =~= session.notifications
        + notifications_in(incoming));
}

/// A response that has arrived stays as it is, whatever comes in.
pub proof fn law_responses_are_kept(session: Session, incoming: Seq<Incoming>, id: Id)
    requires
        session.responses.contains_key(id),
    ensures
        received_all(session, incoming).responses.contains_key(id),
        received_all(session, incoming).responses[id] == session.responses[id],
    decreases incoming.len(),
{
    if incoming.len() > 0 {
        law_responses_are_kept(session, incoming.drop_last(), id);
    }
}

/// What comes in is never confused with what was sent: it changes neither the count of
/// requests nor that of document versions.
pub proof fn law_receiving_makes_no_ids(session: Session, incoming: Seq<Incoming>)
    ensures
        received_all(session, incoming).req_counter == session.req_counter,
        received_all(session, incoming).version_counter == session.version_counter,
    decreases incoming.len(),
{
    if incoming.len() > 0 {
        law_receiving_makes_no_ids(session, incoming.drop_last());
    }
}

/// A second response to a request is an error that tells both, and the first one stays.
pub proof fn law_duplicates_are_refused(session: Session, first: Response, second: Response)
    requires
        first.id@ == second.id@,
        !session.responses.contains_key(first.id@),
    ensures
        server::receive_fault(session, Ok(Message::Response(first))) is None,
        ({
            let once = server::received(session, Ok(Message::Response(first)));
            &&& server::receive_fault(once, Ok(Message::Response(second))) == Some(
                Fault::DuplicateResponse(
                    "Got a duplicate response for request ID "@ + message::id_debug_text(
                        second.id@,
                    ) + ": Existing: "@ + message::response_debug_text(
                        first.id@,
                        json::optional_json(first.result),
                        message::error_view(first.error),
                    ) + ", New: "@ + message::response_debug_text(
                        second.id@,
                        json::optional_json(second.result),
                        message::error_view(second.error),
                    ),
                ),
            )
            &&& server::received(once, Ok(Message::Response(second))) == once
            &&& once.responses[first.id@] == first
        }),
{
}

/// What waiting for a response comes to, given all that comes in: what the response tells
/// if it has been seen, or else the outcome of the first turn that has one, and the session
/// then. What comes in afterwards is not taken in.
pub open spec fn wait_for_response(session: Session, id: Id, incoming: Seq<Incoming>) -> (
    Session,
    Option<Result<Json, Fault>>,
)
    decreases incoming.len(),
{
    if session.responses.contains_key(id) {
        (session, server::seen(session, id))
    } else if incoming.len() == 0 {
        (session, None)
    } else {
        let after = server::received(session, incoming[0]);
        match server::response_turn(session, id, incoming[0]) {
            Some(outcome) => (after, Some(outcome)),
            None => wait_for_response(after, id, incoming.drop_first()),
        }
    }
}

/// A response that has been seen is given to whoever asks for it: at once, without
/// anything being taken in, or with the next message, whatever that is.
pub proof fn law_seen_response_is_given(session: Session, id: Id, incoming: Seq<Incoming>)
    requires
        session.responses.contains_key(id),
    ensures
        server::seen(session, id) == Some(
            server::response_outcome(id, session.responses[id]),
        ),
        wait_for_response(session, id, incoming) == (
            session,
            Some(server::response_outcome(id, session.responses[id])),
        ),
        forall|next: Incoming| #[trigger]
            server::response_turn(session, id, next) == Some(
                server::response_outcome(id, session.responses[id]),
            ),
{
}

proof fn lemma_received_first(session: Session, incoming: Seq<Incoming>)
    requires
        incoming.len() > 0,
    ensures
        received_all(session, incoming) == received_all(
            server::received(session, incoming[0]),
            incoming.drop_first(),
        ),
    decreases incoming.len(),
{
    let rest = incoming.drop_first();
    if incoming.len() > 1 {
        lemma_received_first(session, incoming.drop_last());
        assert(incoming.drop_last().drop_first() =~= rest.drop_last());
        assert(rest.last() == incoming.last());
    } else {
        assert(incoming.drop_last() =~= Seq::empty());
        reveal_with_fuel(received_all, 2);
        assert(rest =~= Seq::empty());
    }
}

/// As long as the messages that come in decide nothing, all of them are taken in, the
/// response is not among them, and waiting goes on with what comes next.
pub proof fn law_waiting_goes_on(
    session: Session,
    id: Id,
    before: Seq<Incoming>,
    rest: Seq<Incoming>,
)
    requires
        wait_for_response(session, id, before).1 is None,
    ensures
        wait_for_response(session, id, before).0 == received_all(session, before),
        !received_all(session, before).responses.contains_key(id),
        wait_for_response(session, id, before + rest) == wait_for_response(
            received_all(session, before),
            id,
            rest,
        ),
    decreases before.len(),
{
    if before.len() == 0 {
        assert(before + rest =~= rest);
    } else {
        let after = server::received(session, before[0]);
        assert((before + rest)[0] == before[0]);
        assert((before + rest).drop_first() =~= before.drop_first() + rest);
        lemma_received_first(session, before);
        law_waiting_goes_on(after, id, before.drop_first(), rest);
    }
}

/// The response to a request is found whatever comes before it, if that decides nothing.
pub proof fn law_response_is_found(
    session: Session,
    before: Seq<Incoming>,
    response: Response,
    rest: Seq<Incoming>,
)
    requires
        wait_for_response(session, response.id@, before).1 is None,
    ensures
        wait_for_response(
            session,
            response.id@,
            before + seq![Ok(Message::Response(response))] + rest,
        ) == (
            server::received(received_all(session, before), Ok(Message::Response(response))),
            Some(server::response_outcome(response.id@, response)),
        ),
{
    let answer: Seq<Incoming> = seq![Ok(Message::Response(response))];
    assert(before + answer + rest =~= before + (answer + rest));
    law_waiting_goes_on(session, response.id@, before, answer + rest);
    assert((answer + rest)[0] == answer[0]);
}

/// Messages that are all notifications.
pub open spec fn only_notifications(incoming: Seq<Incoming>) -> bool {
    forall|i: int|
        0 <= i < incoming.len() ==> (#[trigger] incoming[i]) matches Ok(Message::Notification(_))
}

proof fn lemma_only_notifications(session: Session, id: Id, incoming: Seq<Incoming>)
    requires
        only_notifications(incoming),
        !session.responses.contains_key(id),
    ensures
        wait_for_response(session, id, incoming).1 is None,
        received_all(session, incoming) == (Session {
            notifications: session.notifications + notifications_in(incoming),
            ..session
        }),
    decreases incoming.len(),
{
    law_notifications_keep_their_order(session, incoming);
    if incoming.len() > 0 {
        let rest = incoming.drop_first();
        assert forall|i: int| 0 <= i < rest.len() implies (
        #[trigger] rest[i]) matches Ok(Message::Notification(_)) by {
            assert(rest[i] == incoming[i + 1]);
        }
        assert(incoming[0] matches Ok(Message::Notification(_)));
        lemma_received_first(session, incoming);
        lemma_only_notifications(server::received(session, incoming[0]), id, rest);
    }
}

/// The response to a request is found however many notifications come before it, and
/// these are all there to be asked for afterwards, in order.
pub proof fn law_response_is_found_among_notifications(
    session: Session,
    before: Seq<Incoming>,
    response: Response,
    rest: Seq<Incoming>,
)
    requires
        only_notifications(before),
        !session.responses.contains_key(response.id@),
    ensures
        wait_for_response(
            session,
            response.id@,
            before + seq![Ok(Message::Response(response))] + rest,
        ) == (
            Session {
                responses: session.responses.insert(response.id@, response),
                notifications: session.notifications + notifications_in(before),
                ..session
            },
            Some(server::response_outcome(response.id@, response)),
        ),
{
    lemma_only_notifications(session, response.id@, before);
    law_response_is_found(session, before, response, rest);
}

/// If the response has not been seen and does not come, waiting for it ends with the
/// failure to receive.
pub proof fn law_waiting_ends_with_the_failure_to_receive(
    session: Session,
    id: Id,
    before: Seq<Incoming>,
    failure: ReceiveFailure,
    rest: Seq<Incoming>,
)
    requires
        wait_for_response(session, id, before).1 is None,
    ensures
        wait_for_response(session, id, before + seq![Err(failure)] + rest) == (
            received_all(session, before),
            Some(Err::<Json, Fault>(Fault::NotReceived(failure))),
        ),
{
    let end: Seq<Incoming> = seq![Err(failure)];
    assert(before + end + rest =~= before + (end + rest));
    law_waiting_goes_on(session, id, before, end + rest);
    assert((end + rest)[0] == end[0]);
}

/// A response that comes in while a notification is waited for is not lost: whoever asks
/// for it gets it, though nothing more comes in.
pub proof fn law_response_survives_waiting_for_a_notification(
    session: Session,
    response: Response,
    incoming: Seq<Incoming>,
)
    requires
        !session.responses.contains_key(response.id@),
    ensures
        ({
            let taken = server::notification_taken(session, Ok(Message::Response(response)));
            wait_for_response(taken, response.id@, incoming) == (
                taken,
                Some(server::response_outcome(response.id@, response)),
            )
        }),
{
}

/// What waiting for a notification comes to, given all that comes in: the outcome of the
/// first turn that has one, and the session then.
pub open spec fn wait_for_notification(session: Session, incoming: Seq<Incoming>) -> (
    Session,
    Option<Result<Json, Fault>>,
)
    decreases incoming.len(),
{
    if incoming.len() == 0 {
        (session, None)
    } else {
        let after = server::notification_taken(session, incoming[0]);
        match server::notification_turn(session, incoming[0]) {
            Some(outcome) => (after, Some(outcome)),
            None => wait_for_notification(after, incoming.drop_first()),
        }
    }
}

/// As long as the messages that come in decide nothing, all of them are taken in, and
/// waiting for a notification goes on with what comes next.
pub proof fn law_waiting_for_a_notification_goes_on(
    session: Session,
    before: Seq<Incoming>,
    rest: Seq<Incoming>,
)
    requires
        wait_for_notification(session, before).1 is None,
    ensures
        wait_for_notification(session, before).0 == received_all(session, before),
        wait_for_notification(session, before + rest) == wait_for_notification(
            received_all(session, before),
            rest,
        ),
    decreases before.len(),
{
    if before.len() == 0 {
        assert(before + rest =~= rest);
    } else {
        let after = server::notification_taken(session, before[0]);
        assert((before + rest)[0] == before[0]);
        assert((before + rest).drop_first() =~= before.drop_first() + rest);
        lemma_received_first(session, before);
        law_waiting_for_a_notification_goes_on(after, before.drop_first(), rest);
    }
}

/// A notification ends the waiting for one, whatever comes before it, if that decides
/// nothing. The oldest one that is there is handed out.
pub proof fn law_notification_is_found(
    session: Session,
    before: Seq<Incoming>,
    notification: Notification,
    rest: Seq<Incoming>,
)
    requires
        wait_for_notification(session, before).1 is None,
    ensures
        ({
            let after = received_all(session, before);
            let queue = after.notifications.push(notification);
            wait_for_notification(
                session,
                before + seq![Ok(Message::Notification(notification))] + rest,
            ) == (
                Session { notifications: queue.drop_first(), ..after },
                Some(Ok::<Json, Fault>(json::json_of(queue[0].params))),
            )
        }),
{
    let last: Seq<Incoming> = seq![Ok(Message::Notification(notification))];
    assert(before + last + rest =~= before + (last + rest));
    law_waiting_for_a_notification_goes_on(session, before, last + rest);
    assert((last + rest)[0] == last[0]);
}

/// Messages that are all responses to different requests that have not been answered yet.
pub open spec fn only_new_responses(session: Session, incoming: Seq<Incoming>) -> bool {
    forall|i: int|
        0 <= i < incoming.len() ==> ((#[trigger] incoming[i]) matches Ok(Message::Response(response))
            && !received_all(session, incoming.take(i)).responses.contains_key(response.id@))
}

proof fn lemma_only_new_responses(session: Session, incoming: Seq<Incoming>)
    requires
        only_new_responses(session, incoming),
        session.notifications.len() == 0,
    ensures
        wait_for_notification(session, incoming).1 is None,
        received_all(session, incoming).notifications.len() == 0,
    decreases incoming.len(),
{
    if incoming.len() > 0 {
        let before = incoming.drop_last();
        assert forall|i: int| 0 <= i < before.len() implies ((
        #[trigger] before[i]) matches Ok(Message::Response(response)) && !received_all(
            session,
            before.take(i),
        ).responses.contains_key(response.id@)) by {
            assert(before[i] == incoming[i]);
            assert(before.take(i) =~= incoming.take(i));
        }
        lemma_only_new_responses(session, before);
        let last: Seq<Incoming> = seq![incoming.last()];
        law_waiting_for_a_notification_goes_on(session, before, last);
        assert(before + last =~= incoming);
        assert(incoming[incoming.len() - 1] == last[0]);
        assert(incoming.take(incoming.len() - 1) =~= before);
        reveal_with_fuel(wait_for_notification, 2);
        assert(last.drop_first() =~= Seq::empty());
    }
}

/// A notification is found however many responses come before it, and these are all there
/// to be asked for afterwards.
pub proof fn law_notification_is_found_among_responses(
    session: Session,
    before: Seq<Incoming>,
    notification: Notification,
    rest: Seq<Incoming>,
)
    requires
        session.notifications.len() == 0,
        only_new_responses(session, before),
    ensures
        wait_for_notification(
            session,
            before + seq![Ok(Message::Notification(notification))] + rest,
        ) == (
            received_all(session, before),
            Some(Ok::<Json, Fault>(json::json_of(notification.params))),
        ),
{
    lemma_only_new_responses(session, before);
    law_notification_is_found(session, before, notification, rest);
    let after = received_all(session, before);
    assert(after.notifications.push(notification).drop_first() =~= after.notifications);
}

/// If no notification comes, waiting for one ends with the failure to receive.
pub proof fn law_waiting_for_a_notification_ends_with_the_failure_to_receive(
    session: Session,
    before: Seq<Incoming>,
    failure: ReceiveFailure,
    rest: Seq<Incoming>,
)
    requires
        wait_for_notification(session, before).1 is None,
    ensures
        wait_for_notification(session, before + seq![Err(failure)] + rest) == (
            received_all(session, before),
            Some(Err::<Json, Fault>(Fault::NotReceived(failure))),
        ),
{
    let end: Seq<Incoming> = seq![Err(failure)];
    assert(before + end + rest =~= before + (end + rest));
    law_waiting_for_a_notification_goes_on(session, before, end + rest);
    assert((end + rest)[0] == end[0]);
}

/// Notifications are handed out oldest first, one for each that is taken.
pub proof fn law_oldest_notification_is_handed_out(session: Session, incoming: Incoming)
    requires
        server::receive_fault(session, incoming) is None,
        session.notifications.len() > 0,
    ensures
        server::notification_turn(session, incoming) == Some(
            Ok::<Json, Fault>(json::json_of(session.notifications[0].params)),
        ),
        server::notification_taken(session, incoming).notifications
            == session.notifications.drop_first() + notifications_in(seq![incoming]),
{
    let one: Seq<Incoming> = seq![incoming];
    assert(one.drop_last() =~= Seq::empty());
    reveal_with_fuel(notifications_in, 2);
    assert(server::notification_taken(session, incoming).notifications
        =~= session.notifications.drop_first() + notifications_in(one));
}

/// A result is given if and only if the response has one, and no error.
pub proof fn law_result_is_given_without_error(id: Id, response: Response)
    ensures
        server::response_outcome(id, response) is Ok <==> response.result is Some
            && response.error is None,
        response.error is Some && response.result is None ==> server::response_outcome(
            id,
            response,
        ) == Err::<Json, Fault>(
            Fault::ResponseError("Response error: "@ + response.error->Some_0.message@),
        ),
{
}

/// What a response tells is what it holds, whatever request it answers: the JSON value of
/// its result if it has one and no error, the message of its error if it has one and no
/// result, and else that it is invalid.
pub proof fn law_response_tells_what_it_holds(id: Id, response: Response)
    ensures
        response.error is None ==> (response.result matches Some(result)
            ==> server::response_outcome(id, response) == Ok::<Json, Fault>(
            json::json_of(result),
        )),
        response.result is None ==> (response.error matches Some(error)
            ==> server::response_outcome(id, response) == Err::<Json, Fault>(
            Fault::ResponseError("Response error: "@ + error.message@),
        )),
        (response.result is Some <==> response.error is Some) ==> server::response_outcome(
            id,
            response,
        ) == Err::<Json, Fault>(
            Fault::InvalidResponse(
                "Invalid response message for request "@ + message::id_text(id) + ": "@
                    + message::response_debug_text(
                    response.id@,
                    match response.result {
                        Some(result) => Some(json::json_of(result)),
                        None => None,
                    },
                    message::error_view(response.error),
                ),
            ),
        ),
{
}

/// The result of a response does not depend on the request that it answers, nor on anything
/// else in the response.
pub proof fn law_results_are_given_alike(
    first: Id,
    second: Id,
    a: Response,
    b: Response,
)
    requires
        a.result is Some,
        b.result is Some,
        json::json_of(a.result->Some_0) == json::json_of(b.result->Some_0),
        a.error is None,
        b.error is None,
    ensures
        server::response_outcome(first, a) == server::response_outcome(second, b),
        server::response_outcome(first, a) is Ok,
{
}

/// A response that comes in for a request without one is kept for it: it is what is seen
/// of that request from then on, and nothing else is changed.
pub proof fn law_new_response_is_kept(session: Session, response: Response, other: Id)
    requires
        !session.responses.contains_key(response.id@),
    ensures
        server::receive_fault(session, Ok(Message::Response(response))) is None,
        ({
            let after = server::received(session, Ok(Message::Response(response)));
            &&& after.responses.contains_key(response.id@)
            &&& after.responses[response.id@] == response
            &&& server::seen(after, response.id@) == Some(
                server::response_outcome(response.id@, response),
            )
            &&& other != response.id@ ==> server::seen(after, other) == server::seen(
                session,
                other,
            )
            &&& after.responses == session.responses.insert(response.id@, response)
            &&& after.notifications == session.notifications
            &&& after.req_counter == session.req_counter
            &&& after.version_counter == session.version_counter
        }),
{
}

/// A notification that comes in is queued behind all others, as it is, and nothing else is
/// changed.
pub proof fn law_notification_is_queued(session: Session, notification: Notification)
    ensures
        server::receive_fault(session, Ok(Message::Notification(notification))) is None,
        ({
            let after = server::received(session, Ok(Message::Notification(notification)));
            &&& after.notifications == session.notifications.push(notification)
            &&& after.responses == session.responses
            &&& after.req_counter == session.req_counter
            &&& after.version_counter == session.version_counter
        }),
{
}

/// A failure to receive is told as it is, a request of the server is told by its contents,
/// and neither changes anything.
pub proof fn law_failures_and_requests_change_nothing(
    session: Session,
    failure: ReceiveFailure,
    request: Request,
)
    ensures
        server::receive_fault(session, Err(failure)) == Some(Fault::NotReceived(failure)),
        server::received(session, Err(failure)) == session,
        server::receive_fault(session, Ok(Message::Request(request))) == Some(
            Fault::UnexpectedRequest(
                "Got a request from the server: "@ + message::request_debug_text(
                    request.id@,
                    request.method@,
                    json::json_of(request.params),
                ),
            ),
        ),
        server::received(session, Ok(Message::Request(request))) == session,
{
}

/// Whoever waits for a response that has not been seen is told of what is wrong with the
/// message that comes in, or else gets the response if it is that message, or else nothing.
pub proof fn law_each_message_is_looked_at(session: Session, id: Id, incoming: Incoming)
    requires
        !session.responses.contains_key(id),
    ensures
        server::seen(session, id) is None,
        server::receive_fault(session, incoming) matches Some(fault) ==> server::response_turn(
            session,
            id,
            incoming,
        ) == Some(Err::<Json, Fault>(fault)),
        incoming matches Ok(Message::Response(response)) ==> (response.id@ == id
            ==> server::response_turn(session, id, incoming) == Some(
            server::response_outcome(id, response),
        )),
        incoming matches Ok(Message::Response(response)) ==> (response.id@ != id
            && !session.responses.contains_key(response.id@) ==> server::response_turn(
            session,
            id,
            incoming,
        ) is None),
        incoming matches Ok(Message::Notification(_)) ==> server::response_turn(
            session,
            id,
            incoming,
        ) is None,
{
}

/// Whoever waits for a notification while none is queued is told of what is wrong with the
/// message that comes in, or else gets its parameters if it is a notification, or else
/// nothing. What is handed out is not kept; a response is kept.
pub proof fn law_each_message_is_looked_at_for_a_notification(
    session: Session,
    incoming: Incoming,
)
    ensures
        server::receive_fault(session, incoming) matches Some(fault)
            ==> server::notification_turn(session, incoming) == Some(Err::<Json, Fault>(fault))
            && server::notification_taken(session, incoming) == session,
        session.notifications.len() == 0 ==> (incoming matches Ok(
            Message::Notification(notification),
        ) ==> server::notification_turn(session, incoming) == Some(
            Ok::<Json, Fault>(json::json_of(notification.params)),
        ) && server::notification_taken(session, incoming) == session),
        session.notifications.len() == 0 && server::receive_fault(session, incoming) is None
            && incoming->Ok_0 is Response ==> server::notification_turn(session, incoming) is None,
        server::notification_taken(session, incoming).responses == server::received(
            session,
            incoming,
        ).responses,
        server::notification_taken(session, incoming).req_counter == session.req_counter,
        server::notification_taken(session, incoming).version_counter == session.version_counter,
{
    if let Ok(Message::Notification(notification)) = incoming {
        if session.notifications.len() == 0 {
            assert(session.notifications.push(notification).drop_first()
                =~= session.notifications);
        }
    }
}

/// What a turn came to is told by the value, the nothing or the error that it returned.
pub proof fn law_turns_are_told_as_they_are(result: Result<Option<Value>, ServerError>)
    ensures
        match result {
            Ok(Some(value)) => server::turn(result) == Some(
                Ok::<Json, Fault>(json::json_of(value)),
            ),
            Ok(None) => server::turn(result) is None,
            Err(ServerError::NotReceived(failure)) => server::turn(result) == Some(
                Err::<Json, Fault>(Fault::NotReceived(failure)),
            ),
            Err(ServerError::UnexpectedRequest(text)) => server::turn(result) == Some(
                Err::<Json, Fault>(Fault::UnexpectedRequest(text@)),
            ),
            Err(ServerError::DuplicateResponse(text)) => server::turn(result) == Some(
                Err::<Json, Fault>(Fault::DuplicateResponse(text@)),
            ),
            Err(ServerError::ResponseError(text)) => server::turn(result) == Some(
                Err::<Json, Fault>(Fault::ResponseError(text@)),
            ),
            Err(ServerError::InvalidResponse(text)) => server::turn(result) == Some(
                Err::<Json, Fault>(Fault::InvalidResponse(text@)),
            ),
        },
{
}

/// Two ids are the same if and only if both are the same number, or both the same text.
pub proof fn law_ids_are_told_apart(a: RequestId, b: RequestId)
    ensures
        a@ == b@ <==> match (a, b) {
            (RequestId::Number(m), RequestId::Number(n)) => m == n,
            (RequestId::Text(s), RequestId::Text(t)) => s@ == t@,
            _ => false,
        },
        a matches RequestId::Number(n) ==> a@ == Id::Number(n),
{
}

/// Requests are counted one by one: the id of the next one is the number of those before it,
/// plus one, and making one changes nothing but the count.
pub proof fn law_requests_are_counted(session: Session)
    requires
        i32::MIN <= session.req_counter < i32::MAX,
    ensures
        server::next_id(session) matches Id::Number(n) && n == session.req_counter + 1,
        server::requested(session).req_counter == session.req_counter + 1,
        server::requested(session).version_counter == session.version_counter,
        server::requested(session).responses == session.responses,
        server::requested(session).notifications == session.notifications,
{
}

/// Versions are counted one by one: that of the next document that is opened or changed is
/// one more than the last, and nothing but the count changes.
pub proof fn law_versions_are_counted(session: Session)
    requires
        i32::MIN <= session.version_counter < i32::MAX,
    ensures
        server::next_version(session) == session.version_counter + 1,
        server::edited(session).version_counter == session.version_counter + 1,
        server::edited(session).req_counter == session.req_counter,
        server::edited(session).responses == session.responses,
        server::edited(session).notifications == session.notifications,
{
}

/// How far the start of a session has come after some events, and the session then.
pub open spec fn initialize_run(session: Session, id: RequestId, events: Seq<InitializeEvent>) -> (
    Session,
    Initializing,
)
    decreases events.len(),
{
    if events.len() == 0 {
        (session, Initializing::Requesting(id))
    } else {
        let (before, stage) = initialize_run(session, id, events.drop_last());
        let event = events.last();
        (
            lifecycle::next_session(before, event),
            lifecycle::next_stage(before, stage, event),
        )
    }
}

/// The events after which the `initialize` request has been answered: the request was
/// sent, then messages came in until the response was there, and it has a result that can
/// be decoded.
pub open spec fn answered(session: Session, id: RequestId, events: Seq<InitializeEvent>) -> bool {
    let responses = initialize_run(session, id, events).0.responses;
    &&& events.len() >= 1
    &&& events[0] matches InitializeEvent::Sent(Ok(_))
    &&& forall|i: int| 0 < i < events.len() ==> #[trigger] events[i] is Received
    &&& responses.contains_key(id@)
    &&& server::response_outcome(id@, responses[id@]) matches Ok(result)
        && json::initialize_result_fault(result) is None
}

proof fn lemma_initialize_run(session: Session, id: RequestId, events: Seq<InitializeEvent>)
    ensures
        match initialize_run(session, id, events).1 {
            Initializing::Requesting(i) => i == id && events.len() == 0,
            Initializing::Awaiting(i) => i == id && events.len() >= 1 && (
            events[0] matches InitializeEvent::Sent(Ok(_))) && forall|k: int|
                0 < k < events.len() ==> #[trigger] events[k] is Received,
            Initializing::Announcing => answered(session, id, events),
            Initializing::Over => true,
        },
    decreases events.len(),
{
    if events.len() > 0 {
        let before = events.drop_last();
        lemma_initialize_run(session, id, before);
        match initialize_run(session, id, events).1 {
            Initializing::Awaiting(_) | Initializing::Announcing => {
                assert forall|k: int| 0 < k < events.len() implies #[trigger] events[k]
                    is Received by {
                    if k < before.len() {
                        assert(before[k] == events[k]);
                    }
                }
                assert(before.len() > 0 ==> before[0] == events[0]);
            },
            _ => {},
        }
    }
}

/// The server is told that the client is initialized only after it has answered the
/// `initialize` request with a result, and the result could be decoded.
pub proof fn law_initialized_follows_the_answer(
    session: Session,
    id: RequestId,
    events: Seq<InitializeEvent>,
)
    requires
        initialize_run(session, id, events).1 is Announcing,
    ensures
        answered(session, id, events),
{
    lemma_initialize_run(session, id, events);
}

/// A document is told as it is: by its own URL, language, version and text where it is
/// opened, and by its own URL and version and the changes, in order, where it is changed. A
/// change without a range tells its text and nothing else.
pub proof fn law_documents_are_told_as_they_are(
    uri: Seq<char>,
    language: Seq<char>,
    version: i32,
    text: Seq<char>,
    changes: Seq<Json>,
)
    ensures
        json::did_open_json(uri, language, version, text) == Json::Object(
            map![
                "textDocument"@ => Json::Object(
                    map![
                        "uri"@ => Json::Str(uri),
                        "languageId"@ => Json::Str(language),
                        "version"@ => Json::Int(version as int),
                        "text"@ => Json::Str(text),
                    ],
                ),
            ],
        ),
        json::did_change_json(uri, version, changes) == Json::Object(
            map![
                "textDocument"@ => Json::Object(
                    map!["uri"@ => Json::Str(uri), "version"@ => Json::Int(version as int)],
                ),
                "contentChanges"@ => Json::Array(changes),
            ],
        ),
        json::change_json(None, None, text) == Json::Object(map!["text"@ => Json::Str(text)]),
{
}

/// A session ends with the `shutdown` request and, right after it, the `exit`
/// notification; only a request that could not be sent is not followed by one. After two
/// attempts to send, nothing is left to be sent.
pub proof fn law_exit_follows_shutdown(first: bool, second: bool)
    ensures
        lifecycle::closing_stage(Closing::Requesting, first) == Closing::Exiting <==> first,
        !first ==> lifecycle::closing_stage(Closing::Requesting, first) == Closing::Over,
        lifecycle::closing_stage(Closing::Exiting, second) == Closing::Over,
{
}

/// What follows each event at the start of a session. Once the request was sent, and after
/// each message, its response is looked for: until it is there the next message is waited
/// for, a fault ends the start, and a result is answered by the `initialized` notification
/// if it can be decoded. Once that was sent the session has started. What could not be sent
/// ends the start.
pub proof fn law_each_event_leads_to_its_action(
    session: Session,
    stage: Initializing,
    event: InitializeEvent,
    action: InitializeAction,
)
    requires
        lifecycle::expected(stage, event),
        lifecycle::is_next_action(session, stage, event, action),
    ensures
        ({
            let next = lifecycle::next_stage(session, stage, event);
            let after = lifecycle::next_session(session, event);
            let id = match stage {
                Initializing::Requesting(id) => Some(id),
                Initializing::Awaiting(id) => Some(id),
                _ => None,
            };
            let answer = match event {
                InitializeEvent::Sent(_) => server::seen(session, id->Some_0@),
                InitializeEvent::Received(incoming) => server::response_turn(
                    session,
                    id->Some_0@,
                    incoming,
                ),
            };
            let sent = match event {
                InitializeEvent::Sent(sent) => Some(sent),
                _ => None,
            };
            &&& event matches InitializeEvent::Received(incoming) ==> after == server::received(
                session,
                incoming,
            )
            &&& event is Sent ==> after == session
            &&& (sent matches Some(Err(reason)) ==> next == Initializing::Over && action
                == InitializeAction::Fail(InitializeError::NotSent(reason)))
            &&& stage is Announcing && (sent matches Some(Ok(_))) ==> next == Initializing::Over
                && action == InitializeAction::Ready
            &&& id is Some && !(sent matches Some(Err(_))) ==> match answer {
                None => next == Initializing::Awaiting(id->Some_0) && action
                    == InitializeAction::Receive,
                Some(Err(fault)) => next == Initializing::Over && (action matches InitializeAction::Fail(
                    InitializeError::Session(error),
                ) && error@ == fault),
                Some(Ok(result)) => match json::initialize_result_fault(result) {
                    Some(reason) => next == Initializing::Over && (
                    action matches InitializeAction::Fail(InitializeError::NotDecoded(text))
                        && text@ == reason),
                    None => next == Initializing::Announcing && (
                    action matches InitializeAction::Send(Message::Notification(notification))
                        && notification.method@ == "initialized"@ && json::json_of(
                        notification.params,
                    ) == Json::Object(Map::empty())),
                },
            }
        }),
{
}

/// Each stage of the start waits for the outcome of its own action: a stage that sends for
/// whether it was sent, one that waits for a message for that.
pub proof fn law_each_stage_expects_its_outcome(stage: Initializing, event: InitializeEvent)
    ensures
        lifecycle::expected(stage, event) <==> match (stage, event) {
            (Initializing::Requesting(_), InitializeEvent::Sent(_)) => true,
            (Initializing::Announcing, InitializeEvent::Sent(_)) => true,
            (Initializing::Awaiting(_), InitializeEvent::Received(_)) => true,
            _ => false,
        },
{
}

/// The request that starts a session tells the server that the client goes to definitions,
/// with links and dynamic registration, and nothing else.
pub proof fn law_start_tells_what_the_client_can_do(message: Message, id: Id)
    requires
        lifecycle::is_initialize_request(message, id),
    ensures
        message matches Message::Request(request) && request.id@ == id && request.method@
            == "initialize"@ && json::json_of(request.params) == Json::Object(
            map![
                "processId"@ => Json::Null,
                "rootUri"@ => Json::Null,
                "capabilities"@ => Json::Object(
                    map![
                        "textDocument"@ => Json::Object(
                            map![
                                "definition"@ => Json::Object(
                                    map![
                                        "linkSupport"@ => Json::Bool(true),
                                        "dynamicRegistration"@ => Json::Bool(true),
                                    ],
                                ),
                            ],
                        ),
                    ],
                ),
            ],
        ),
{
}

/// At the end of a session the `shutdown` request is sent and, if that could be, the `exit`
/// notification, both without parameters. What could not be sent is reported, with the
/// reason, and nothing else is.
pub proof fn law_end_is_sent_or_reported(
    first: Result<(), String>,
    second: Result<(), String>,
    message: Message,
    id: Id,
)
    ensures
        lifecycle::closing_stage(Closing::Requesting, first is Ok) == (if first is Ok {
            Closing::Exiting
        } else {
            Closing::Over
        }),
        lifecycle::closing_stage(Closing::Exiting, second is Ok) == Closing::Over,
        lifecycle::closing_report(Closing::Requesting, first) == (match first {
            Ok(_) => None,
            Err(reason) => Some("Server was already shutdown: "@ + reason@),
        }),
        lifecycle::closing_report(Closing::Exiting, second) == (match second {
            Ok(_) => None,
            Err(reason) => Some("Could not send Exit notification: "@ + reason@),
        }),
        lifecycle::is_shutdown_request(message, id) <==> (message matches Message::Request(request)
            && request.id@ == id && request.method@ == "shutdown"@ && json::json_of(request.params)
            == Json::Null),
        lifecycle::is_exit_notification(message) <==> (message matches Message::Notification(
            notification,
        ) && notification.method@ == "exit"@ && json::json_of(notification.params) == Json::Null),
{
}

/// A report is told by its text if there is one, and a failure to decode by its reason.
pub proof fn law_texts_are_told_as_they_are(report: Option<String>, decoded: Result<(), String>)
    ensures
        report matches Some(text) ==> lifecycle::optional_text(report) == Some(text@),
        report is None ==> lifecycle::optional_text(report) is None,
        decoded matches Err(reason) ==> json::decode_fault(decoded) == Some(reason@),
        decoded is Ok ==> json::decode_fault(decoded) is None,
{
}

/// Each lint gives one diagnostic, in its place.
pub proof fn law_each_lint_gives_its_diagnostic<L, D, F: Fn(L) -> D>(
    f: F,
    lints: Seq<L>,
    diagnostics: Seq<D>,
    i: int,
)
    requires
        context::mapped(f, lints, diagnostics),
    ensures
        diagnostics.len() == lints.len(),
        0 <= i < lints.len() ==> f.ensures((lints[i],), diagnostics[i]),
{
}

} // verus!
