//! The state that a connection's reading side shares with its writing side, and
//! the decisions each side takes on it.
use vstd::prelude::*;

use crate::json::{
    json_plain_char, json_string, json_string_literal, lemma_json_escape_plain, quoted,
};
use crate::messages::ChatErrors;

verus! {

/// What the reading side of a connection tells the writing side.
#[derive(Debug)]
pub struct ReciverFeedback {
    /// The client closed the connection.
    pub closed: bool,
    /// An error to report to the client.
    pub error: Option<ChatErrors>,
}

impl ReciverFeedback {
    /// An open connection with nothing to report.
    pub fn new() -> (r: Self)
        ensures
            !r.closed,
            r.error is None,
    {
        ReciverFeedback { closed: false, error: None }
    }
}

/// A message to send to a client.
#[derive(Debug, PartialEq, Eq, Structural)]
pub struct MessageSend {}

impl MessageSend {
    /// The message for the text `str` (it carries nothing yet).
    #[allow(unused_variables)]
    pub fn from_str(str: &str) -> (r: Self)
        ensures
            r == (MessageSend {}),
    {
        Self {}
    }
}

/// An error report sent to a client.
#[derive(Debug)]
pub struct MessageSendError {
    pub kind: String,
}

/// The JSON object `{"kind":<kind>}` that reports an error of kind `kind`.
pub open spec fn error_report_text(kind: Seq<char>) -> Seq<char> {
    seq!['{', '"', 'k', 'i', 'n', 'd', '"', ':'] + json_string_literal(kind) + seq!['}']
}

impl MessageSendError {
    /// The report of an error of kind `str`.
    pub fn from_error(str: &str) -> (r: Self)
        ensures
            r.kind@ == str@,
    {
        Self { kind: str.to_owned() }
    }

    /// The report as JSON.
    pub fn format(&self) -> (s: String)
        ensures
            s@ == error_report_text(self.kind@),
            (forall|i: int| 0 <= i < self.kind@.len() ==> json_plain_char(#[trigger] self.kind@[i]))
                ==> s@ == seq!['{', '"', 'k', 'i', 'n', 'd', '"', ':'] + quoted(self.kind@) + seq!['}'],
    {
        proof {
            if forall|i: int| 0 <= i < self.kind@.len() ==> json_plain_char(#[trigger] self.kind@[i]) {
                lemma_json_escape_plain(self.kind@);
            }
        }
        let head = "{\"kind\":";
        let tail = "}";
        proof {
            reveal_strlit("{\"kind\":");
            reveal_strlit("}");
        }
        match json_string(&self.kind) {
            Ok(lit) => {
                let mut s = head.to_owned();
                s.append(lit.as_str());
                s.append(tail);
                s
            },
            Err(_) => String::new(),
        }
    }
}

/// The text the writing side reports for `e`.
pub open spec fn error_kind_text(e: ChatErrors) -> Seq<char> {
    match e {
        ChatErrors::BadFormat => "Bad format!: Can serialize the JSON"@,
        ChatErrors::UserDontExist => "User Dont exist"@,
    }
}

/// The kind of error report sent to a client for `e`.
pub fn error_kind(e: ChatErrors) -> (r: &'static str)
    ensures
        r@ == error_kind_text(e),
{
    match e {
        ChatErrors::BadFormat => "Bad format!: Can serialize the JSON",
        ChatErrors::UserDontExist => "User Dont exist",
    }
}

/// What the writing side of a connection does next.
#[derive(Debug)]
pub enum SendAction {
    /// The connection is closed: stop.
    Stop,
    /// Send this text to the client, then wait.
    Send(String),
    /// Nothing to send: wait.
    Wait,
}

/// The next step of the writing side, given what the reading side reports.
pub fn sending_step(state: &ReciverFeedback) -> (a: SendAction)
    ensures
        state.closed ==> a is Stop,
        !state.closed && state.error is None ==> a is Wait,
        !state.closed && state.error is Some ==> (a matches SendAction::Send(t) && t@ == error_report_text(
            error_kind_text(state.error->0),
        )),
{
    if state.closed {
        return SendAction::Stop;
    }
    match state.error {
        Some(err) => {
            let report = MessageSendError::from_error(error_kind(err));
            SendAction::Send(report.format())
        },
        None => SendAction::Wait,
    }
}

/// The kind of a frame that the reading side received.
#[derive(Debug, Clone, Copy, PartialEq, Eq, Structural)]
pub enum FrameKind {
    Close,
    Text,
    Binary,
    Other,
}

/// What the reading side of a connection does with a frame.
#[derive(Debug, Clone, Copy, PartialEq, Eq, Structural)]
pub enum ReceiveAction {
    /// The client closed the connection: stop reading.
    Stop,
    /// Read the frame as a text message and handle it.
    HandleText,
    /// Read the frame as a binary message and handle it.
    HandleBinary,
    /// Ignore the frame.
    Skip,
}

/// The shared state after the reading side received a frame of kind `frame`.
pub open spec fn after_frame(state: ReciverFeedback, frame: FrameKind) -> ReciverFeedback {
    match frame {
        FrameKind::Close => ReciverFeedback { closed: true, ..state },
        _ => state,
    }
}

/// The action the reading side takes on a frame of kind `frame`.
pub open spec fn action_for_frame(frame: FrameKind) -> ReceiveAction {
    match frame {
        FrameKind::Close => ReceiveAction::Stop,
        FrameKind::Text => ReceiveAction::HandleText,
        FrameKind::Binary => ReceiveAction::HandleBinary,
        FrameKind::Other => ReceiveAction::Skip,
    }
}

/// The reading side's step on a frame: a close frame marks the connection closed.
pub fn receive_step(state: &mut ReciverFeedback, frame: FrameKind) -> (a: ReceiveAction)
    ensures
        *final(state) == after_frame(*old(state), frame),
        a == action_for_frame(frame),
        frame != FrameKind::Close ==> *final(state) == *old(state),
        frame == FrameKind::Close ==> final(state).closed && final(state).error == old(state).error,
{
    match frame {
        FrameKind::Close => {
            state.closed = true;
            ReceiveAction::Stop
        },
        FrameKind::Text => ReceiveAction::HandleText,
        FrameKind::Binary => ReceiveAction::HandleBinary,
        FrameKind::Other => ReceiveAction::Skip,
    }
}

} // verus!
