//! One WebSocket connection: whether it is opened, and what is done at each event.

use super::gate::{gate_decides, is_loopback, GateDecision, PeerIp};
use super::Response;
use super::protocol::{
    answers, first_action, handle_message, next_after, or_null, outcome_of, parse_json,
    parsed_json, resume_message, value_or_null, Action, ActionOutcome, ClientMsg, Next, ServerMsg,
};
use serde_json::Value;
use vstd::prelude::*;

verus! {

/// What a client sends along when it asks for a WebSocket.
#[derive(Debug)]
pub struct WsQuery {
    pub token: Option<String>,
}

/// What becomes of a request for a WebSocket.
#[derive(Debug)]
pub enum WsDecision {
    /// The connection is opened.
    Upgrade,
    /// The request is answered with this response instead.
    Refuse(Response),
}

/// Whether `decision` is what becomes of a request for a WebSocket that brings
/// `params`, where the token to give is `auth_token`.
pub open spec fn token_decides(
    params: WsQuery,
    auth_token: Seq<char>,
    decision: WsDecision,
) -> bool {
    let valid = params.token is Some && params.token->0@ == auth_token;
    match decision {
        WsDecision::Upgrade => valid,
        WsDecision::Refuse(response) => !valid && response.is_text(
            401,
            "Invalid or missing token"@,
        ),
    }
}

/// Open a WebSocket for a client that gives the auth token, and for no other.
pub fn ws_handler(params: &WsQuery, auth_token: &String) -> (decision: WsDecision)
    ensures
        token_decides(*params, auth_token@, decision),
{
    let valid = match &params.token {
        Some(token) => *token == *auth_token,
        None => false,
    };
    if valid {
        WsDecision::Upgrade
    } else {
        WsDecision::Refuse(
            Response::Text { status: 401, body: "Invalid or missing token".to_string() },
        )
    }
}

/// What arrived from the client.
#[derive(Debug)]
pub enum ClientFrame {
    /// A text, as the message it holds, or why it holds none.
    Text(Result<ClientMsg, String>),
    Ping(Vec<u8>),
    Close,
    /// The connection has ended.
    End,
    /// Anything else: binary data, a pong, or a frame that could not be received.
    Other,
}

/// What has just happened on a connection.
#[derive(Debug)]
pub enum SocketEvent {
    Received(ClientFrame),
    /// An action for the client is done.
    Acted(ActionOutcome),
    /// The polling loop has published the sessions, as JSON text.
    SessionsPublished(String),
    /// A notification was published, as JSON text.
    NotificationPublished(String),
    /// Something was sent to the client, or could not be.
    Sent { delivered: bool },
}

/// What is to be done on a connection.
#[derive(Debug)]
pub enum SocketAction {
    /// Wait for whatever happens next.
    Wait,
    /// Do something for the client.
    Act(Action),
    /// Send this message.
    Send(ServerMsg),
    /// Answer a ping with the data it brought.
    Pong(Vec<u8>),
    /// Close the connection.
    Stop,
}

/// Whether `action` is what is to be done after `event`.
pub open spec fn reacts(event: SocketEvent, action: SocketAction) -> bool {
    match event {
        SocketEvent::Received(ClientFrame::Text(Ok(msg))) => action == SocketAction::Act(
            first_action(msg),
        ),
        SocketEvent::Received(ClientFrame::Text(Err(error))) => action matches SocketAction::Send(
            ServerMsg::Error { message },
        ) && message@ == "Invalid message: "@ + error@,
        SocketEvent::Received(ClientFrame::Ping(data)) => action == SocketAction::Pong(data),
        SocketEvent::Received(ClientFrame::Close) => action == SocketAction::Stop,
        SocketEvent::Received(ClientFrame::End) => action == SocketAction::Stop,
        SocketEvent::Received(ClientFrame::Other) => action == SocketAction::Wait,
        SocketEvent::Acted(outcome) => action == (match next_after(outcome) {
            Next::Perform(next) => SocketAction::Act(next),
            Next::Reply(reply) => SocketAction::Send(reply),
        }),
        SocketEvent::SessionsPublished(json) => action == SocketAction::Send(
            ServerMsg::SessionsUpdated { data: or_null(parsed_json(json@)) },
        ),
        SocketEvent::NotificationPublished(json) => action == SocketAction::Send(
            ServerMsg::Notification { data: or_null(parsed_json(json@)) },
        ),
        SocketEvent::Sent { delivered: true } => action == SocketAction::Wait,
        SocketEvent::Sent { delivered: false } => action == SocketAction::Stop,
    }
}

/// The message that tells a client of a text that holds no message.
pub fn invalid_message(error: &str) -> (reply: ServerMsg)
    ensures
        reply matches ServerMsg::Error { message } && message@ == "Invalid message: "@ + error@,
{
    ServerMsg::Error { message: "Invalid message: ".to_string().concat(error) }
}

/// The message that pushes the sessions, from what was read of the published text.
pub fn sessions_updated(parsed: Option<Value>) -> (msg: ServerMsg)
    ensures
        msg == (ServerMsg::SessionsUpdated { data: or_null(parsed) }),
{
    ServerMsg::SessionsUpdated { data: value_or_null(parsed) }
}

/// The message that pushes a notification, from what was read of the published text.
pub fn notification(parsed: Option<Value>) -> (msg: ServerMsg)
    ensures
        msg == (ServerMsg::Notification { data: or_null(parsed) }),
{
    ServerMsg::Notification { data: value_or_null(parsed) }
}

/// What is to be done on a connection after `event`.
pub fn handle_socket(event: SocketEvent) -> (action: SocketAction)
    ensures
        reacts(event, action),
{
    match event {
        SocketEvent::Received(frame) => match frame {
            ClientFrame::Text(parsed) => match parsed {
                Ok(msg) => SocketAction::Act(handle_message(msg)),
                Err(error) => SocketAction::Send(invalid_message(error.as_str())),
            },
            ClientFrame::Ping(data) => SocketAction::Pong(data),
            ClientFrame::Close => SocketAction::Stop,
            ClientFrame::End => SocketAction::Stop,
            ClientFrame::Other => SocketAction::Wait,
        },
        SocketEvent::Acted(outcome) => match resume_message(outcome) {
            Next::Perform(next) => SocketAction::Act(next),
            Next::Reply(reply) => SocketAction::Send(reply),
        },
        SocketEvent::SessionsPublished(json) => SocketAction::Send(
            sessions_updated(parse_json(json.as_str())),
        ),
        SocketEvent::NotificationPublished(json) => SocketAction::Send(
            notification(parse_json(json.as_str())),
        ),
        SocketEvent::Sent { delivered } => if delivered {
            SocketAction::Wait
        } else {
            SocketAction::Stop
        },
    }
}

/// A client gets a WebSocket only if it may connect at all and gives the auth token:
/// remote access being enabled does not do away with the token.
pub proof fn law_remote_clients_still_need_the_token(
    peer: PeerIp,
    remote_enabled: bool,
    gate: GateDecision,
    params: WsQuery,
    auth_token: Seq<char>,
    socket: WsDecision,
)
    requires
        gate_decides(peer, remote_enabled, gate),
        token_decides(params, auth_token, socket),
    ensures
        gate is Forward && socket is Upgrade <==> (is_loopback(peer) || remote_enabled)
            && params.token is Some && params.token->0@ == auth_token,
{
}

/// A connection is closed only because the client closed it, it has ended, or
/// something could not be sent.
pub proof fn law_only_these_close_the_connection(event: SocketEvent, action: SocketAction)
    requires
        reacts(event, action),
    ensures
        action is Stop <==> event == SocketEvent::Received(ClientFrame::Close) || event
            == SocketEvent::Received(ClientFrame::End) || event == (SocketEvent::Sent {
            delivered: false,
        }),
{
}

/// Every text of a client gets an answer on its connection: an error at once where the
/// text holds no message, and otherwise what the message asks for, or an error, after
/// the one or two actions that the message takes.
pub proof fn law_every_text_is_answered(
    text: Result<ClientMsg, String>,
    first: SocketAction,
    outcome: ActionOutcome,
    second: SocketAction,
    last_outcome: ActionOutcome,
    third: SocketAction,
)
    requires
        reacts(SocketEvent::Received(ClientFrame::Text(text)), first),
        first matches SocketAction::Act(action) ==> outcome_of(action, outcome) && reacts(
            SocketEvent::Acted(outcome),
            second,
        ),
        second matches SocketAction::Act(action) ==> outcome_of(action, last_outcome) && reacts(
            SocketEvent::Acted(last_outcome),
            third,
        ),
    ensures
        match text {
            Err(_) => first matches SocketAction::Send(reply) && reply is Error,
            Ok(msg) => first is Act && match second {
                SocketAction::Send(reply) => answers(msg, reply),
                SocketAction::Act(_) => third matches SocketAction::Send(reply) && answers(
                    msg,
                    reply,
                ),
                _ => false,
            },
        },
{
}

/// A WebSocket is opened exactly for a client that gives the auth token, all of it and
/// nothing else; any other is answered with status 401.
pub proof fn law_only_the_token_opens_a_socket(
    params: WsQuery,
    auth_token: String,
    decision: WsDecision,
)
    requires
        call_ensures(ws_handler, (&params, &auth_token), decision),
    ensures
        decision is Upgrade <==> params.token is Some && params.token->0@.len() == auth_token@.len()
            && forall|i: int|
            0 <= i < auth_token@.len() ==> #[trigger] params.token->0@[i] == auth_token@[i],
        decision matches WsDecision::Refuse(response) ==> (
        response matches Response::Text { status, body } && status == 401 && body@
            == "Invalid or missing token"@),
{
    if params.token is Some && params.token->0@.len() == auth_token@.len() && (forall|i: int|
        0 <= i < auth_token@.len() ==> #[trigger] params.token->0@[i] == auth_token@[i]) {
        assert(params.token->0@ =~= auth_token@);
    }
}

/// A message that a client sends leads to the action it asks for, and what came of an
/// action to the next action or to the answer, as the protocol has it.
pub proof fn law_socket_follows_the_protocol(
    msg: ClientMsg,
    first: Action,
    received: SocketAction,
    outcome: ActionOutcome,
    next: Next,
    acted: SocketAction,
)
    requires
        call_ensures(handle_message, (msg,), first),
        call_ensures(
            handle_socket,
            (SocketEvent::Received(ClientFrame::Text(Ok(msg))),),
            received,
        ),
        call_ensures(resume_message, (outcome,), next),
        call_ensures(handle_socket, (SocketEvent::Acted(outcome),), acted),
    ensures
        received == SocketAction::Act(first),
        next matches Next::Perform(action) ==> acted == SocketAction::Act(action),
        next matches Next::Reply(reply) ==> acted == SocketAction::Send(reply),
{
}

/// What the client sent beside messages: a ping is answered with its own data, a text
/// that holds no message with why it holds none, an end of the connection ends it, and
/// anything else changes nothing. What could not be sent ends the connection.
pub proof fn law_frames_are_dealt_with(event: SocketEvent, action: SocketAction)
    requires
        call_ensures(handle_socket, (event,), action),
    ensures
        event matches SocketEvent::Received(ClientFrame::Ping(data)) ==> (
        action matches SocketAction::Pong(echo) && echo@ == data@),
        action is Pong ==> event is Received && event->Received_0 is Ping,
        event matches SocketEvent::Received(ClientFrame::Text(Err(error))) ==> (
        action matches SocketAction::Send(ServerMsg::Error { message }) && message@
            == "Invalid message: "@ + error@),
        action is Stop <==> event == SocketEvent::Received(ClientFrame::Close) || event
            == SocketEvent::Received(ClientFrame::End) || event == (SocketEvent::Sent {
            delivered: false,
        }),
        action is Wait <==> event == SocketEvent::Received(ClientFrame::Other) || event == (
        SocketEvent::Sent { delivered: true }),
{
}

/// What is published reaches the client as the JSON value that its text holds, and as
/// null where it holds none: sessions as an update of the sessions, a notification as a
/// notification.
pub proof fn law_publications_reach_the_client(json: String, data: Value, action: SocketAction)
    requires
        Some(data) == (if parsed_json(json@) is Some {
            parsed_json(json@)
        } else {
            parsed_json("null"@)
        }),
    ensures
        call_ensures(handle_socket, (SocketEvent::SessionsPublished(json),), action) ==> action
            == SocketAction::Send(ServerMsg::SessionsUpdated { data }),
        call_ensures(handle_socket, (SocketEvent::NotificationPublished(json),), action) ==> action
            == SocketAction::Send(ServerMsg::Notification { data }),
{
}

/// The messages that are made on the way hold what they are made from.
pub proof fn law_pushed_messages_hold_their_data(
    error: &str,
    invalid: ServerMsg,
    parsed: Value,
    update: ServerMsg,
    notice: ServerMsg,
)
    requires
        call_ensures(invalid_message, (error,), invalid),
        call_ensures(sessions_updated, (Some(parsed),), update),
        call_ensures(notification, (Some(parsed),), notice),
    ensures
        invalid matches ServerMsg::Error { message } && message@ == "Invalid message: "@ + error@,
        update == (ServerMsg::SessionsUpdated { data: parsed }),
        notice == (ServerMsg::Notification { data: parsed }),
{
}

} // verus!
