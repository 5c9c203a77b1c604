//! The messages of the WebSocket protocol, and which actions answer which message.

use serde_json::Value;
use vstd::prelude::*;

verus! {

/// A JSON value of `serde_json`. It is only carried along, never looked into.
#[verifier::external_type_specification]
#[verifier::external_body]
pub struct ExValue(Value);

/// The JSON value that `serde_json::from_str` reads from a text; `None` where it
/// reports an error.
pub uninterp spec fn parsed_json(text: Seq<char>) -> Option<Value>;

/// `serde_json::from_str` into a JSON value. Claimed: what is read depends on the
/// text alone. The error is dropped.
#[verifier::external_body]
pub(crate) fn parse_json(text: &str) -> (value: Option<Value>)
    ensures
        value == parsed_json(text@),
{
    serde_json::from_str(text).ok()
}

/// The default of `serde_json::Value`. Claimed: it is JSON's null, the value that
/// the text `null` is read as.
#[verifier::external_body]
fn null_json() -> (value: Value)
    ensures
        parsed_json("null"@) == Some(value),
{
    Value::default()
}

/// `value`, or JSON's null where there is none.
pub open spec fn or_null(value: Option<Value>) -> Value {
    match value {
        Some(v) => v,
        None => parsed_json("null"@)->0,
    }
}

/// `value`, or JSON's null where there is none.
pub fn value_or_null(value: Option<Value>) -> (data: Value)
    ensures
        data == or_null(value),
        value is None ==> parsed_json("null"@) == Some(data),
{
    match value {
        Some(v) => v,
        None => null_json(),
    }
}

/// Client to server messages
#[derive(Debug)]
pub enum ClientMsg {
    GetSessions,
    GetConversation { session_id: String },
    StopSession { pid: u32 },
    OpenSession { pid: u32, project_path: String },
    RenameSession { session_id: String, new_name: String },
    GetMemoryFiles,
}

/// Server to client messages
#[derive(Debug)]
pub enum ServerMsg {
    Sessions { data: Value },
    Conversation { data: Value },
    SessionsUpdated { data: Value },
    Error { message: String },
    /// The command was carried out.
    Done,
    Notification { data: Value },
    MemoryFiles { data: Value },
}

/// What is to be done for a client.
#[derive(Debug)]
pub enum Action {
    /// Find the running sessions.
    DetectSessions,
    /// Read a session's conversation.
    ReadConversation { session_id: String },
    /// Stop a session.
    StopSession { pid: u32 },
    /// Bring a session's window to the front.
    OpenSession { pid: u32, project_path: String },
    /// Write a session's title where the agent keeps it (its native JSONL format).
    WriteNativeTitle { session_id: String, new_name: String },
    /// Load c9watch's own custom titles, set this one and save them (fallback).
    SaveCustomTitle { session_id: String, new_name: String },
    /// Read the memory files.
    ReadMemoryFiles,
}

/// What came of an action. A failure comes with its message; what was found comes as
/// JSON, or as `None` where it cannot be written as JSON.
#[derive(Debug)]
pub enum ActionOutcome {
    SessionsDetected(Result<Option<Value>, String>),
    ConversationRead(Result<Option<Value>, String>),
    SessionStopped(Result<(), String>),
    SessionOpened(Result<(), String>),
    /// Whether the native title was written is not reported.
    NativeTitleWritten { session_id: String, new_name: String },
    CustomTitleSaved(Result<(), String>),
    MemoryFilesRead(Result<Option<Value>, String>),
}

/// How a message is dealt with after an action.
#[derive(Debug)]
pub enum Next {
    /// Another action is to be done.
    Perform(Action),
    /// The client is answered.
    Reply(ServerMsg),
}

/// The action that a message asks for first.
pub open spec fn first_action(msg: ClientMsg) -> Action {
    match msg {
        ClientMsg::GetSessions => Action::DetectSessions,
        ClientMsg::GetConversation { session_id } => Action::ReadConversation { session_id },
        ClientMsg::StopSession { pid } => Action::StopSession { pid },
        ClientMsg::OpenSession { pid, project_path } => Action::OpenSession { pid, project_path },
        ClientMsg::RenameSession { session_id, new_name } => Action::WriteNativeTitle {
            session_id,
            new_name,
        },
        ClientMsg::GetMemoryFiles => Action::ReadMemoryFiles,
    }
}

/// The answer to a command that returns nothing.
pub open spec fn command_reply(outcome: Result<(), String>) -> ServerMsg {
    match outcome {
        Ok(_) => ServerMsg::Done,
        Err(message) => ServerMsg::Error { message },
    }
}

/// How a message is dealt with after an action with this outcome.
pub open spec fn next_after(outcome: ActionOutcome) -> Next {
    match outcome {
        ActionOutcome::SessionsDetected(Ok(found)) => Next::Reply(
            ServerMsg::Sessions { data: or_null(found) },
        ),
        ActionOutcome::ConversationRead(Ok(found)) => Next::Reply(
            ServerMsg::Conversation { data: or_null(found) },
        ),
        ActionOutcome::MemoryFilesRead(Ok(found)) => Next::Reply(
            ServerMsg::MemoryFiles { data: or_null(found) },
        ),
        ActionOutcome::SessionsDetected(Err(message)) => Next::Reply(ServerMsg::Error { message }),
        ActionOutcome::ConversationRead(Err(message)) => Next::Reply(ServerMsg::Error { message }),
        ActionOutcome::MemoryFilesRead(Err(message)) => Next::Reply(ServerMsg::Error { message }),
        ActionOutcome::SessionStopped(outcome) => Next::Reply(command_reply(outcome)),
        ActionOutcome::SessionOpened(outcome) => Next::Reply(command_reply(outcome)),
        ActionOutcome::CustomTitleSaved(outcome) => Next::Reply(command_reply(outcome)),
        ActionOutcome::NativeTitleWritten { session_id, new_name } => Next::Perform(
            Action::SaveCustomTitle { session_id, new_name },
        ),
    }
}

/// The action that a message asks for first. What its outcome leads to,
/// [`resume_message`] says.
pub fn handle_message(msg: ClientMsg) -> (action: Action)
    ensures
        action == first_action(msg),
{
    match msg {
        ClientMsg::GetSessions => Action::DetectSessions,
        ClientMsg::GetConversation { session_id } => Action::ReadConversation { session_id },
        ClientMsg::StopSession { pid } => Action::StopSession { pid },
        ClientMsg::OpenSession { pid, project_path } => Action::OpenSession { pid, project_path },
        ClientMsg::RenameSession { session_id, new_name } => Action::WriteNativeTitle {
            session_id,
            new_name,
        },
        ClientMsg::GetMemoryFiles => Action::ReadMemoryFiles,
    }
}

/// How a message is dealt with after an action.
pub fn resume_message(outcome: ActionOutcome) -> (next: Next)
    ensures
        next == next_after(outcome),
{
    match outcome {
        ActionOutcome::SessionsDetected(result) => Next::Reply(
            match result {
                Ok(found) => ServerMsg::Sessions { data: value_or_null(found) },
                Err(message) => ServerMsg::Error { message },
            },
        ),
        ActionOutcome::ConversationRead(result) => Next::Reply(
            match result {
                Ok(found) => ServerMsg::Conversation { data: value_or_null(found) },
                Err(message) => ServerMsg::Error { message },
            },
        ),
        ActionOutcome::MemoryFilesRead(result) => Next::Reply(
            match result {
                Ok(found) => ServerMsg::MemoryFiles { data: value_or_null(found) },
                Err(message) => ServerMsg::Error { message },
            },
        ),
        ActionOutcome::SessionStopped(result) => Next::Reply(reply_to_command(result)),
        ActionOutcome::SessionOpened(result) => Next::Reply(reply_to_command(result)),
        ActionOutcome::CustomTitleSaved(result) => Next::Reply(reply_to_command(result)),
        ActionOutcome::NativeTitleWritten { session_id, new_name } => Next::Perform(
            Action::SaveCustomTitle { session_id, new_name },
        ),
    }
}

/// The answer to a command that returns nothing.
fn reply_to_command(outcome: Result<(), String>) -> (reply: ServerMsg)
    ensures
        reply == command_reply(outcome),
{
    match outcome {
        Ok(_) => ServerMsg::Done,
        Err(message) => ServerMsg::Error { message },
    }
}

/// Whether `outcome` is an outcome of `action`.
pub open spec fn outcome_of(action: Action, outcome: ActionOutcome) -> bool {
    match action {
        Action::DetectSessions => outcome is SessionsDetected,
        Action::ReadConversation { .. } => outcome is ConversationRead,
        Action::StopSession { .. } => outcome is SessionStopped,
        Action::OpenSession { .. } => outcome is SessionOpened,
        Action::WriteNativeTitle { session_id, new_name } => outcome
            == ActionOutcome::NativeTitleWritten { session_id, new_name },
        Action::SaveCustomTitle { .. } => outcome is CustomTitleSaved,
        Action::ReadMemoryFiles => outcome is MemoryFilesRead,
    }
}

/// Whether `reply` may answer `msg`: what the message asks for, or an error.
pub open spec fn answers(msg: ClientMsg, reply: ServerMsg) -> bool {
    reply is Error || match msg {
        ClientMsg::GetSessions => reply is Sessions,
        ClientMsg::GetConversation { .. } => reply is Conversation,
        ClientMsg::GetMemoryFiles => reply is MemoryFiles,
        _ => reply is Done,
    }
}

/// Every message but a renaming is answered after its one action, with what it asks
/// for or an error.
pub proof fn law_one_action_answers(msg: ClientMsg, outcome: ActionOutcome)
    requires
        !(msg is RenameSession),
        outcome_of(first_action(msg), outcome),
    ensures
        next_after(outcome) is Reply,
        answers(msg, next_after(outcome)->Reply_0),
{
}

/// A renaming writes the native title first, then, whatever came of that, the custom
/// title, both with the name and for the session that the message gives; it is
/// answered by what came of the custom title.
pub proof fn law_renaming_writes_both_titles(
    session_id: String,
    new_name: String,
    written: ActionOutcome,
    saved: Result<(), String>,
)
    requires
        outcome_of(first_action(ClientMsg::RenameSession { session_id, new_name }), written),
    ensures
        first_action(ClientMsg::RenameSession { session_id, new_name })
            == (Action::WriteNativeTitle { session_id, new_name }),
        next_after(written) == Next::Perform(Action::SaveCustomTitle { session_id, new_name }),
        next_after(ActionOutcome::CustomTitleSaved(saved)) == Next::Reply(command_reply(saved)),
{
}

/// No message is left without an answer, and none takes more than two actions.
pub proof fn law_every_message_is_answered(
    msg: ClientMsg,
    first: ActionOutcome,
    second: ActionOutcome,
)
    requires
        outcome_of(first_action(msg), first),
        next_after(first) matches Next::Perform(action) ==> outcome_of(action, second),
    ensures
        match next_after(first) {
            Next::Reply(reply) => answers(msg, reply),
            Next::Perform(_) => next_after(second) is Reply && answers(
                msg,
                next_after(second)->Reply_0,
            ),
        },
{
}

/// The failure of an action reaches the client with its message.
pub proof fn law_failures_reach_the_client(outcome: ActionOutcome, message: String)
    requires
        outcome == ActionOutcome::SessionsDetected(Err(message)) || outcome
            == ActionOutcome::ConversationRead(Err(message)) || outcome
            == ActionOutcome::MemoryFilesRead(Err(message)) || outcome
            == ActionOutcome::SessionStopped(Err(message)) || outcome
            == ActionOutcome::SessionOpened(Err(message)) || outcome
            == ActionOutcome::CustomTitleSaved(Err(message)),
    ensures
        next_after(outcome) == Next::Reply(ServerMsg::Error { message }),
{
}

/// The action that a message leads to is of its kind and carries the message's own
/// operands, and no other: two messages lead to the same action only if they are the
/// same message.
pub proof fn law_actions_carry_their_operands(msg: ClientMsg, action: Action)
    requires
        call_ensures(handle_message, (msg,), action),
    ensures
        action is DetectSessions <==> msg is GetSessions,
        action is ReadMemoryFiles <==> msg is GetMemoryFiles,
        action is StopSession <==> msg is StopSession,
        action matches Action::StopSession { pid } ==> msg == (ClientMsg::StopSession { pid }),
        action is ReadConversation <==> msg is GetConversation,
        action matches Action::ReadConversation { session_id } ==> msg == (
        ClientMsg::GetConversation { session_id }),
        action is OpenSession <==> msg is OpenSession,
        action matches Action::OpenSession { pid, project_path } ==> msg == (
        ClientMsg::OpenSession { pid, project_path }),
        action is WriteNativeTitle <==> msg is RenameSession,
        action matches Action::WriteNativeTitle { session_id, new_name } ==> msg == (
        ClientMsg::RenameSession { session_id, new_name }),
{
}

/// What an action found reaches the client unchanged, in the message of its kind; what
/// could not be written as JSON reaches it as null.
pub proof fn law_findings_reach_the_client(outcome: ActionOutcome, next: Next, null: Value)
    requires
        call_ensures(resume_message, (outcome,), next),
        parsed_json("null"@) == Some(null),
    ensures
        outcome matches ActionOutcome::SessionsDetected(Ok(Some(found))) ==> next == Next::Reply(
            ServerMsg::Sessions { data: found },
        ),
        outcome matches ActionOutcome::SessionsDetected(Ok(None)) ==> next == Next::Reply(
            ServerMsg::Sessions { data: null },
        ),
        outcome matches ActionOutcome::ConversationRead(Ok(Some(found))) ==> next == Next::Reply(
            ServerMsg::Conversation { data: found },
        ),
        outcome matches ActionOutcome::ConversationRead(Ok(None)) ==> next == Next::Reply(
            ServerMsg::Conversation { data: null },
        ),
        outcome matches ActionOutcome::MemoryFilesRead(Ok(Some(found))) ==> next == Next::Reply(
            ServerMsg::MemoryFiles { data: found },
        ),
        outcome matches ActionOutcome::MemoryFilesRead(Ok(None)) ==> next == Next::Reply(
            ServerMsg::MemoryFiles { data: null },
        ),
{
}

/// A command that was carried out is acknowledged; one that failed, and a request that
/// found nothing to send, is answered with the message of the failure.
pub proof fn law_commands_are_acknowledged(
    outcome: ActionOutcome,
    next: Next,
    command: Result<(), String>,
    request: Result<Option<Value>, String>,
)
    requires
        call_ensures(resume_message, (outcome,), next),
    ensures
        outcome == ActionOutcome::SessionStopped(command) || outcome
            == ActionOutcome::SessionOpened(command) || outcome == ActionOutcome::CustomTitleSaved(
            command,
        ) ==> {
            &&& next is Reply
            &&& next->Reply_0 is Done <==> command is Ok
            &&& command is Err ==> next->Reply_0 == (ServerMsg::Error {
                message: command->Err_0,
            })
        },
        request is Err && (outcome == ActionOutcome::SessionsDetected(request) || outcome
            == ActionOutcome::ConversationRead(request) || outcome
            == ActionOutcome::MemoryFilesRead(request)) ==> next == Next::Reply(
            ServerMsg::Error { message: request->Err_0 },
        ),
        next is Perform <==> outcome is NativeTitleWritten,
{
}

/// A renaming ends in the custom title of the session and with the name that the client
/// gave, after the native title of the same.
pub proof fn law_renaming_keeps_session_and_name(
    msg: ClientMsg,
    action: Action,
    outcome: ActionOutcome,
    next: Next,
)
    requires
        msg is RenameSession,
        call_ensures(handle_message, (msg,), action),
        action matches Action::WriteNativeTitle { session_id, new_name } && outcome == (
        ActionOutcome::NativeTitleWritten { session_id, new_name }),
        call_ensures(resume_message, (outcome,), next),
    ensures
        action == (Action::WriteNativeTitle {
            session_id: msg->RenameSession_session_id,
            new_name: msg->new_name,
        }),
        next == Next::Perform(
            Action::SaveCustomTitle {
                session_id: msg->RenameSession_session_id,
                new_name: msg->new_name,
            },
        ),
{
}

/// A value that is there is kept, and null stands in only for one that is not.
pub proof fn law_null_only_where_nothing_is(value: Option<Value>, data: Value)
    requires
        call_ensures(value_or_null, (value,), data),
    ensures
        value is Some ==> data == value->0,
        value is None ==> parsed_json("null"@) == Some(data),
{
}

} // verus!
