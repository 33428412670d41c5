//! The Telegram-style update normalizer: the shapes of inbound updates
//! reduced to the plain values the pipeline reads, their conversion to the
//! canonical `(conversation_id, sender, raw_text)` triple, and the outgoing
//! message built from a state. A broadcast/inline query is normalized to the
//! sentinel text `/unsupported`: inline and group surfaces get no support,
//! so credentials never reach a multi-party surface.

use vstd::prelude::*;

use crate::state::State;

verus! {

/// The conversation a message belongs to: a private 1:1 chat with the
/// sender's username, or any other chat kind.
#[derive(Debug, Clone, PartialEq, Eq)]
pub enum MessageChat {
    Private { id: i64, username: Option<String> },
    Other { id: i64 },
}

/// The payload of a message: text, or anything else.
#[derive(Debug, Clone, PartialEq, Eq)]
pub enum MessageKind {
    Text { data: String },
    Other,
}

/// The shape of an inbound update: a message, a button callback, an inline
/// query, or an unrecognized shape.
#[derive(Debug, Clone, PartialEq, Eq)]
pub enum UpdateKind {
    Message { chat: MessageChat, kind: MessageKind },
    CallbackQuery { chat: MessageChat, data: String },
    InlineQuery { from_id: i64, from_username: Option<String> },
    Other,
}

/// An inbound update.
#[derive(Debug, Clone, PartialEq, Eq)]
pub struct Update {
    pub kind: UpdateKind,
}

/// What normalizing an update yields: text from a private chat passes
/// through with the sender's username; a callback payload from a private
/// chat counts as text; an inline query is normalized to the sentinel
/// `/unsupported`; any other shape — a non-private chat, a non-text
/// message, an unrecognized update — yields the id `-1` with nothing else.
pub open spec fn telegram_update_outcome(
    u: Update,
    r: (i64, Option<String>, Option<String>),
) -> bool {
    match u.kind {
        UpdateKind::Message { chat, kind } => match (chat, kind) {
            (MessageChat::Private { id, username }, MessageKind::Text { data }) => r == (
                id,
                username,
                Some(data),
            ),
            _ => r == (-1i64, None::<String>, None::<String>),
        },
        UpdateKind::CallbackQuery { chat, data } => match chat {
            MessageChat::Private { id, username } => r == (id, username, Some(data)),
            MessageChat::Other { .. } => r == (-1i64, None::<String>, None::<String>),
        },
        UpdateKind::InlineQuery { from_id, from_username } => r.0 == from_id && r.1 == from_username
            && (r.2 matches Some(t) && t@ == "/unsupported"@),
        UpdateKind::Other => r == (-1i64, None::<String>, None::<String>),
    }
}

/// An outgoing message: the target conversation, the body text, and the
/// fixed set of quick commands to offer.
#[derive(Debug, Clone, PartialEq, Eq)]
pub struct OutgoingMessage {
    pub id: i64,
    pub text: String,
    pub commands: Vec<String>,
}

/// Service wiring for a Telegram-style transport; the decisions live in the
/// associated functions.
pub struct TelegramService {}

impl TelegramService {
    /// A fresh service value.
    pub fn new() -> TelegramService {
        TelegramService {  }
    }

    /// Returns the canonical triple for each update, as
    /// `telegram_update_outcome` describes.
    pub fn parse_update(update: Update) -> (r: (i64, Option<String>, Option<String>))
        ensures
            telegram_update_outcome(update, r),
    {
        match update.kind {
            UpdateKind::Message { chat, kind } => match (chat, kind) {
                (MessageChat::Private { id, username }, MessageKind::Text { data }) => (
                    id,
                    username,
                    Some(data),
                ),
                _ => (-1, None, None),
            },
            UpdateKind::CallbackQuery { chat, data } => match chat {
                MessageChat::Private { id, username } => (id, username, Some(data)),
                MessageChat::Other { .. } => (-1, None, None),
            },
            UpdateKind::InlineQuery { from_id, from_username } => (
                from_id,
                from_username,
                Some(String::from_str("/unsupported")),
            ),
            UpdateKind::Other => (-1, None, None),
        }
    }

    /// Wraps the reply message of a state for sending: the conversation id,
    /// the body text (empty where the state holds none), and the fixed quick
    /// commands.
    pub fn get_telegram_ui(state: &State) -> (r: OutgoingMessage)
        requires
            state.id is Some,
        ensures
            r.id == state.id->Some_0,
            r.text@ == match state.message {
                Some(m) => m@,
                None => Seq::<char>::empty(),
            },
            r.commands@.len() == 2,
            r.commands@[0]@ == "/balance"@,
            r.commands@[1]@ == "/help"@,
    {
        let id = match state.id {
            Some(i) => i,
            None => unreached(),
        };
        let text = match &state.message {
            Some(m) => m.clone(),
            None => String::new(),
        };
        let mut commands: Vec<String> = Vec::new();
        commands.push(String::from_str("/balance"));
        commands.push(String::from_str("/help"));
        OutgoingMessage { id, text, commands }
    }
}

} // verus!
