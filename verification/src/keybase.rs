//! The Keybase-style update normalizer: the shape of an inbound Keybase chat
//! notification, reduced to the plain values the pipeline reads, and its
//! conversion to the canonical `(conversation_id, sender, raw_text)` triple.
//! The transport adapter fills these values from the provider's payload.

use vstd::prelude::*;

use crate::markup::{html_to_markdown, markdown_of};
use crate::state::State;

verus! {

/// The text payload of a message.
#[derive(Debug, Clone, PartialEq, Eq)]
pub struct Text {
    pub body: Option<String>,
}

/// The content of a message; `kind` is the provider's content type tag.
#[derive(Debug, Clone, PartialEq, Eq)]
pub struct Content {
    pub kind: String,
    pub text: Option<Text>,
}

/// The sender of a message.
#[derive(Debug, Clone, PartialEq, Eq)]
pub struct Sender {
    pub uid: String,
    pub username: Option<String>,
    pub device_id: String,
    pub device_name: String,
}

/// The channel a message arrived on.
#[derive(Debug, Clone, PartialEq, Eq)]
pub struct Channel {
    pub name: String,
    pub members_type: String,
    pub topic_type: String,
}

/// Paging information of a notification batch.
#[derive(Debug, Clone, PartialEq, Eq)]
pub struct Pagination {
    pub next: String,
    pub previous: String,
    pub num: u32,
    pub last: bool,
}

/// A message summary; every field the provider may omit is optional.
#[derive(Debug, Clone, PartialEq, Eq)]
pub struct Message {
    pub id: Option<i64>,
    pub conversation_id: String,
    pub channel: Option<Channel>,
    pub sender: Option<Sender>,
    pub content: Option<Content>,
    pub pagination: Option<Pagination>,
}

/// A chat notification event.
#[derive(Debug, Clone, PartialEq, Eq)]
pub struct Event {
    pub source: String,
    pub msg: Option<Message>,
}

/// An inbound notification: a chat event, or some other notification kind.
#[derive(Debug, Clone, PartialEq, Eq)]
pub enum Notification {
    Chat(Event),
    Other,
}

/// Message has unexpected schema or other parsing error.
#[derive(Debug, Clone, PartialEq, Eq, Structural)]
pub struct KeybaseMessageParseError;

impl KeybaseMessageParseError {
    /// The user-facing text of this error.
    pub fn text(&self) -> (r: String)
        ensures
            r@ == "Error parsing Keybase message."@,
    {
        String::from_str("Error parsing Keybase message.")
    }
}

/// Keybase is not running.
#[derive(Debug, Clone, PartialEq, Eq, Structural)]
pub struct KeybaseNotRunningError;

impl KeybaseNotRunningError {
    /// The user-facing text of this error.
    pub fn text(&self) -> (r: String)
        ensures
            r@ == "Keybase is not running"@,
    {
        String::from_str("Keybase is not running")
    }
}

/// What normalizing a Keybase notification yields: the message id, sender
/// username and text body where all required fields are present, and a
/// parse error where the notification is no chat event or a required field
/// is absent.
pub open spec fn keybase_update_outcome(
    n: Notification,
    r: Result<(i64, Option<String>, Option<String>), KeybaseMessageParseError>,
) -> bool {
    match n {
        Notification::Chat(ev) => match ev.msg {
            Some(msg) => match (msg.id, msg.sender, msg.content) {
                (Some(id), Some(sender), Some(content)) => match content.text {
                    Some(text) => r == Ok::<_, KeybaseMessageParseError>(
                        (id, sender.username, text.body),
                    ),
                    None => r is Err,
                },
                _ => r is Err,
            },
            None => r is Err,
        },
        Notification::Other => r is Err,
    }
}

/// Service wiring for a Keybase-style transport; the decisions live in the
/// associated functions.
pub struct KeybaseService {}

impl KeybaseService {
    /// A fresh service value.
    pub fn new() -> KeybaseService {
        KeybaseService {  }
    }

    /// Normalizes an inbound notification to the canonical triple, as
    /// `keybase_update_outcome` describes.
    pub fn parse_update(notification: Notification) -> (r: Result<
        (i64, Option<String>, Option<String>),
        KeybaseMessageParseError,
    >)
        ensures
            keybase_update_outcome(notification, r),
    {
        match notification {
            Notification::Chat(ev) => {
                let msg = match ev.msg {
                    Some(m) => m,
                    None => {
                        return Err(KeybaseMessageParseError);
                    },
                };
                let id = match msg.id {
                    Some(i) => i,
                    None => {
                        return Err(KeybaseMessageParseError);
                    },
                };
                let sender = match msg.sender {
                    Some(s) => s,
                    None => {
                        return Err(KeybaseMessageParseError);
                    },
                };
                let content = match msg.content {
                    Some(c) => c,
                    None => {
                        return Err(KeybaseMessageParseError);
                    },
                };
                let text = match content.text {
                    Some(t) => t,
                    None => {
                        return Err(KeybaseMessageParseError);
                    },
                };
                Ok((id, sender.username, text.body))
            },
            Notification::Other => Err(KeybaseMessageParseError),
        }
    }

    /// Returns the next outgoing message from the current state: the
    /// conversation id, and the reply text translated to Markdown markers.
    pub fn get_keybase_ui(state: &State) -> (r: (i64, String))
        requires
            state.id is Some,
        ensures
            r.0 == state.id->Some_0,
            r.1@ == match state.message {
                Some(m) => markdown_of(m@),
                None => Seq::<char>::empty(),
            },
    {
        let id = match state.id {
            Some(i) => i,
            None => unreached(),
        };
        let message = match &state.message {
            Some(m) => html_to_markdown(m.as_str()),
            None => String::new(),
        };
        (id, message)
    }
}

} // verus!
