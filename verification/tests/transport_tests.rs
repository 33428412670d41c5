use grinbot::action::Action;
use grinbot::dispatch::get_action;
use grinbot::keybase::{
    Channel, Content, Event, KeybaseNotRunningError, KeybaseService, Message, Notification,
    Pagination, Sender, Text,
};
use grinbot::reducer::screen_reducer;
use grinbot::state::{Context, Screen, Severity, State};
use grinbot::telegram::{MessageChat, MessageKind, TelegramService, Update, UpdateKind};

fn keybase_notification(id: i64, username: &str, body: &str) -> Notification {
    Notification::Chat(Event {
        source: "remote".to_string(),
        msg: Some(Message {
            id: Some(id),
            conversation_id: "1234".to_string(),
            channel: Some(Channel {
                name: "testchannel".to_string(),
                members_type: "team".to_string(),
                topic_type: "chat".to_string(),
            }),
            sender: Some(Sender {
                uid: "123456".to_string(),
                username: Some(username.to_string()),
                device_id: "1234567".to_string(),
                device_name: "MY_DEVICE".to_string(),
            }),
            content: Some(Content {
                kind: "text".to_string(),
                text: Some(Text { body: Some(body.to_string()) }),
            }),
            pagination: Some(Pagination {
                next: "1".to_string(),
                previous: "0".to_string(),
                num: 1,
                last: false,
            }),
        }),
    })
}

#[test]
fn keybase_raw_callback_query_update() {
    let notification = keybase_notification(99, "user123", "/home");
    let (id, from_user, message) = KeybaseService::parse_update(notification).unwrap();
    assert_eq!(
        Action::Home(99),
        get_action(id, &from_user, message, &"user123".to_string())
    );
}

#[test]
fn keybase_raw_message_update() {
    let notification = keybase_notification(99, "user123", "/back");
    let (id, from_user, message) = KeybaseService::parse_update(notification).unwrap();
    assert_eq!(
        Action::Back(99),
        get_action(id, &from_user, message, &"user123".to_string())
    );
}

#[test]
fn keybase_missing_field_is_error() {
    let no_msg = Notification::Chat(Event { source: "remote".to_string(), msg: None });
    let err = KeybaseService::parse_update(no_msg).unwrap_err();
    assert_eq!(err.text(), "Error parsing Keybase message.");
    assert!(KeybaseService::parse_update(Notification::Other).is_err());
}

#[test]
fn keybase_not_running_text() {
    assert_eq!(KeybaseNotRunningError.text(), "Keybase is not running");
}

#[test]
fn raw_inline_query_update() {
    let update = Update {
        kind: UpdateKind::InlineQuery { from_id: 99, from_username: Some("user123".to_string()) },
    };
    let (id, from_user, message) = TelegramService::parse_update(update);
    assert_eq!(
        Action::ModeNotSupported(99),
        get_action(id, &from_user, message, &"user123".to_string())
    );
}

#[test]
fn telegram_raw_callback_query_update() {
    let update = Update {
        kind: UpdateKind::Message {
            chat: MessageChat::Private { id: 99, username: Some("user123".to_string()) },
            kind: MessageKind::Text { data: "/home".to_string() },
        },
    };
    let (id, from_user, message) = TelegramService::parse_update(update);
    assert_eq!(
        Action::Home(99),
        get_action(id, &from_user, message, &"user123".to_string())
    );
}

#[test]
fn telegram_raw_message_update() {
    let update = Update {
        kind: UpdateKind::Message {
            chat: MessageChat::Private { id: 99, username: Some("user123".to_string()) },
            kind: MessageKind::Text { data: "/back".to_string() },
        },
    };
    let (id, from_user, message) = TelegramService::parse_update(update);
    assert_eq!(
        Action::Back(99),
        get_action(id, &from_user, message, &"user123".to_string())
    );
}

#[test]
fn raw_wrong_username() {
    let update = Update {
        kind: UpdateKind::Message {
            chat: MessageChat::Private { id: 101, username: Some("user321".to_string()) },
            kind: MessageKind::Text { data: "abc 123".to_string() },
        },
    };
    let (id, from_user, message) = TelegramService::parse_update(update);
    assert_eq!(
        Action::WrongUsername(101),
        get_action(id, &from_user, message, &"user123".to_string())
    );
}

#[test]
fn telegram_group_message_is_other_shape() {
    // A non-private conversation is not a supported shape: nothing of it is
    // kept, not even the chat id.
    let update = Update {
        kind: UpdateKind::Message {
            chat: MessageChat::Other { id: 55 },
            kind: MessageKind::Text { data: "/home".to_string() },
        },
    };
    assert_eq!(TelegramService::parse_update(update), (-1, None, None));
}

#[test]
fn telegram_non_text_message_is_other_shape() {
    let update = Update {
        kind: UpdateKind::Message {
            chat: MessageChat::Private { id: 56, username: Some("user123".to_string()) },
            kind: MessageKind::Other,
        },
    };
    assert_eq!(TelegramService::parse_update(update), (-1, None, None));
}

#[test]
fn telegram_group_callback_is_other_shape() {
    let update = Update {
        kind: UpdateKind::CallbackQuery {
            chat: MessageChat::Other { id: 57 },
            data: "/home".to_string(),
        },
    };
    assert_eq!(TelegramService::parse_update(update), (-1, None, None));
}

#[test]
fn telegram_unrecognized_update_shape() {
    let update = Update { kind: UpdateKind::Other };
    assert_eq!(TelegramService::parse_update(update), (-1, None, None));
}

fn test_state() -> State {
    State {
        screen: Screen::Home,
        prev_screen: Screen::Home,
        id: None,
        message: None,
        context: Context {
            wallet_dir: "wallets/test".to_string(),
            owner_endpoint: "http://127.0.0.1:3420/v2/owner".to_string(),
            wallet_password: "pw".to_string(),
        },
        error_level: None,
    }
}

#[test]
fn inline_query_reduces_to_mode_not_supported() {
    // A broadcast/inline-style notification normalizes to "/unsupported" and,
    // once past the identity check, reduces to a warning with the screen
    // unchanged.
    let update = Update {
        kind: UpdateKind::InlineQuery { from_id: 99, from_username: Some("user123".to_string()) },
    };
    let (id, from_user, message) = TelegramService::parse_update(update);
    assert_eq!(message, Some("/unsupported".to_string()));
    let action = get_action(id, &from_user, message, "user123");
    assert_eq!(action, Action::ModeNotSupported(99));
    let state = test_state();
    let next = screen_reducer(&state, &action, None);
    assert_eq!(next.screen, state.screen);
    assert_eq!(next.error_level, Some(Severity::Warn));
    assert_eq!(
        next.message,
        Some("For security reasons, inline and group messages are not supported.".to_string())
    );
}

#[test]
fn keybase_ui_markdown() {
    let mut state = test_state();
    state.id = Some(42);
    state.message = Some("<b>Success:</b>\n<pre>sent</pre> <i>ok</i>".to_string());
    let (id, message) = KeybaseService::get_keybase_ui(&state);
    assert_eq!(id, 42);
    assert_eq!(message, "*Success:*\n```sent``` _ok_");
}

#[test]
fn telegram_ui_quick_commands() {
    let mut state = test_state();
    state.id = Some(42);
    state.message = Some("hello".to_string());
    let outgoing = TelegramService::get_telegram_ui(&state);
    assert_eq!(outgoing.id, 42);
    assert_eq!(outgoing.text, "hello");
    assert_eq!(outgoing.commands, vec!["/balance".to_string(), "/help".to_string()]);
}

#[test]
fn telegram_ui_empty_message() {
    let mut state = test_state();
    state.id = Some(43);
    let outgoing = TelegramService::get_telegram_ui(&state);
    assert_eq!(outgoing.text, "");
}
