use grinbot::action::{Action, CommandParseError, SendCommand};
use grinbot::amount::amount_token_valid;
use grinbot::dispatch::{get_command, get_username_action, tokenize_command};
use url::Url;

#[test]
fn home_command() {
    let command = get_command("/home", 99, vec![]);
    assert_eq!(command, Action::Home(99));
}

#[test]
fn balance_command() {
    let command = get_command("/balance", 99, vec![]);
    assert_eq!(command, Action::Balance(99));
}

#[test]
fn unknown_command() {
    let command = get_command("/abcd", 100, vec![]);
    assert_eq!(command, Action::Unknown(100));
}

#[test]
fn no_username() {
    let command = get_username_action(101, &None, &"user123".to_string());
    assert_eq!(command, Some(Action::NoUsername(101)));
}

#[test]
fn wrong_username() {
    let command = get_username_action(101, &Some("user321".to_string()), &"user123".to_string());
    assert_eq!(command, Some(Action::WrongUsername(101)));
}

#[test]
fn send_command() {
    let command = get_command("/send", 102, vec!["0.01", "https://recipient123.org"]);
    let url = Url::parse("https://recipient123.org").ok().unwrap();
    assert_eq!(command, Action::Send(102, "0.01".to_string(), String::from(url)));
}

#[test]
fn no_recipient_send_command() {
    let command = get_command("/send", 103, vec!["0.01"]);
    assert_eq!(
        command,
        Action::CommandError(
            103,
            CommandParseError::WrongNumberOfArgsError(SendCommand::usage())
        )
    );
}

#[test]
fn no_amount_send_command() {
    let command = get_command("/send", 103, vec!["https://recipient123.org"]);
    assert_eq!(
        command,
        Action::CommandError(
            103,
            CommandParseError::WrongNumberOfArgsError(SendCommand::usage())
        )
    );
}

#[test]
fn supported_commands_map_to_actions() {
    assert_eq!(get_command("/home", 1, vec![]), Action::Home(1));
    assert_eq!(get_command("/create", 2, vec![]), Action::Create(2));
    assert_eq!(get_command("/balance", 3, vec![]), Action::Balance(3));
    assert_eq!(get_command("/help", 4, vec![]), Action::Help(4));
    assert_eq!(get_command("/start", 5, vec![]), Action::Help(5));
    assert_eq!(get_command("/back", 6, vec![]), Action::Back(6));
    assert_eq!(get_command("/unsupported", 7, vec![]), Action::ModeNotSupported(7));
}

#[test]
fn send_with_valid_arguments() {
    let command = get_command("/send", 8, vec!["0.01", "https://recipient.example.org"]);
    assert_eq!(
        command,
        Action::Send(8, "0.01".to_string(), "https://recipient.example.org/".to_string())
    );
}

#[test]
fn send_with_bad_amount() {
    let command = get_command("/send", 9, vec!["abc", "https://recipient.example.org"]);
    assert_eq!(command, Action::CommandError(9, CommandParseError::AmountParseError));
}

#[test]
fn send_with_bad_url() {
    let command = get_command("/send", 10, vec!["0.01", "not-a-url"]);
    assert_eq!(command, Action::CommandError(10, CommandParseError::UrlParseError));
}

#[test]
fn send_with_three_arguments_is_arity_error() {
    let command = get_command("/send", 11, vec!["0.01", "https://recipient.example.org", "x"]);
    assert_eq!(
        command,
        Action::CommandError(
            11,
            CommandParseError::WrongNumberOfArgsError(SendCommand::usage())
        )
    );
}

#[test]
fn send_normalizes_destination() {
    // The destination is the parsed URL's serialization, not the raw token.
    let parsed = SendCommand::parse(vec!["0.5", "https://recipient123.org"]).unwrap();
    assert_eq!(parsed.amount, "0.5");
    assert_eq!(parsed.destination, Some("https://recipient123.org/".to_string()));
}

#[test]
fn identity_guard_matrix() {
    assert_eq!(get_username_action(12, &None, "alice"), Some(Action::NoUsername(12)));
    assert_eq!(
        get_username_action(12, &Some("bob".to_string()), "alice"),
        Some(Action::WrongUsername(12))
    );
    assert_eq!(get_username_action(12, &Some("alice".to_string()), "alice"), None);
}

#[test]
fn tokenize_splits_on_single_space() {
    let (command_type, parameters) = tokenize_command("/send 0.01 https://recipient123.org");
    assert_eq!(command_type, "/send");
    assert_eq!(parameters, vec!["0.01", "https://recipient123.org"]);
}

#[test]
fn tokenize_without_arguments() {
    let (command_type, parameters) = tokenize_command("/home");
    assert_eq!(command_type, "/home");
    assert!(parameters.is_empty());
}

#[test]
fn tokenize_keeps_empty_tokens() {
    let (command_type, parameters) = tokenize_command("/send  x");
    assert_eq!(command_type, "/send");
    assert_eq!(parameters, vec!["", "x"]);
}

#[test]
fn amount_token_grammar() {
    assert!(amount_token_valid("0.01"));
    assert!(amount_token_valid("1"));
    assert!(amount_token_valid("1."));
    assert!(amount_token_valid(".5"));
    assert!(amount_token_valid("1e3"));
    assert!(amount_token_valid("+.5e-2"));
    assert!(amount_token_valid("-42.75E+1"));
    assert!(amount_token_valid("inf"));
    assert!(amount_token_valid("Infinity"));
    assert!(amount_token_valid("NaN"));
    assert!(!amount_token_valid(""));
    assert!(!amount_token_valid("."));
    assert!(!amount_token_valid("abc"));
    assert!(!amount_token_valid("1.2.3"));
    assert!(!amount_token_valid("e3"));
    assert!(!amount_token_valid("--1"));
    assert!(!amount_token_valid("1e"));
    assert!(!amount_token_valid("0x1"));
}

#[test]
fn usage_text_value() {
    assert_eq!(
        SendCommand::usage(),
        "Wrong number of arguments.\n\nUsage: <pre>/send 0.001 http://some-recipient123.org</pre>"
    );
}

#[test]
fn parse_error_texts() {
    assert_eq!(CommandParseError::UrlParseError.text(), "UrlParseError");
    assert_eq!(CommandParseError::AmountParseError.text(), "AmountParseError");
    assert_eq!(
        CommandParseError::WrongNumberOfArgsError("usage".to_string()).text(),
        "usage"
    );
}
