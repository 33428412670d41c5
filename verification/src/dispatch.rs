//! From raw text to a typed action: tokenizing a command, checking the
//! sender's identity against the single configured authorized identity, and
//! dispatching the command name to its action.

use vstd::prelude::*;

use crate::action::{parse_outcome, Action, CommandParseError, SendCommand};
use crate::amount::is_amount_token;
use crate::destination::url_parse;
use crate::strutil::{split_char, split_str, str_eq, str_views};

verus! {

/// The command name and argument tokens of a raw command: the pieces between
/// single spaces, the first being the name, the rest the arguments in order.
pub open spec fn tokenized(raw: Seq<char>, cmd: Seq<char>, args: Seq<Seq<char>>) -> bool {
    let tokens = split_char(raw, ' ');
    cmd == tokens[0] && args == tokens.skip(1)
}

/// Splits a command into its name and its parameters.
pub fn tokenize_command<'a>(raw_command: &'a str) -> (r: (&'a str, Vec<&'a str>))
    ensures
        tokenized(raw_command@, r.0@, str_views(r.1@)),
{
    let tokens = split_str(raw_command, ' ');
    proof {
        crate::strutil::lemma_split_char_nonempty(raw_command@, ' ');
        assert(tokens@[0]@ == split_char(raw_command@, ' ')[0]);
    }
    let command_type = tokens[0];
    let mut args: Vec<&'a str> = Vec::new();
    let mut i: usize = 1;
    while i < tokens.len()
        invariant
            1 <= i <= tokens@.len(),
            str_views(tokens@) == split_char(raw_command@, ' '),
            args@.len() == i - 1,
            forall|j: int| 0 <= j < args@.len() ==> args@[j]@ == str_views(tokens@)[j + 1],
        decreases tokens@.len() - i,
    {
        let t = tokens[i];
        args.push(t);
        i += 1;
    }
    proof {
        assert(str_views(args@) =~~= split_char(raw_command@, ' ').skip(1));
    }
    (command_type, args)
}

/// What the identity guard returns: no username yields `NoUsername`, a
/// username other than the configured one yields `WrongUsername`, a match
/// yields nothing and the caller proceeds to the command.
pub open spec fn guard_outcome(
    id: i64,
    username: Option<String>,
    config_user: Seq<char>,
    r: Option<Action>,
) -> bool {
    match username {
        None => r == Some(Action::NoUsername(id)),
        Some(u) => if u@ != config_user {
            r == Some(Action::WrongUsername(id))
        } else {
            r is None
        },
    }
}

/// Gets the action associated with the sender's username, if the sender may
/// not use the wallet.
pub fn get_username_action(id: i64, username: &Option<String>, config_user: &str) -> (r: Option<
    Action,
>)
    ensures
        guard_outcome(id, *username, config_user@, r),
{
    match username {
        None => Some(Action::NoUsername(id)),
        Some(current_username) => {
            if !str_eq(current_username.as_str(), config_user) {
                Some(Action::WrongUsername(id))
            } else {
                None
            }
        },
    }
}

/// What `/send` dispatches to: the parsed command's action, or the parse
/// error wrapped as `CommandError`.
pub open spec fn send_outcome(id: i64, args: Seq<Seq<char>>, r: Action) -> bool {
    match r {
        Action::Send(i, amount, dest) => i == id && parse_outcome(
            args,
            Ok(SendCommand { amount, destination: Some(dest) }),
        ),
        Action::CommandError(i, e) => i == id && parse_outcome(args, Err(e)),
        _ => false,
    }
}

/// `/send` with two arguments whose destination is an absolute URL but
/// whose amount is not a number token always dispatches to the amount
/// parse error, whatever the tokens hold.
pub proof fn lemma_send_bad_amount_yields_amount_error(
    id: i64,
    args: Seq<Seq<char>>,
    r: Action,
)
    requires
        args.len() == 2,
        url_parse(args[1]) is Some,
        !is_amount_token(args[0]),
        send_outcome(id, args, r),
    ensures
        r == Action::CommandError(id, CommandParseError::AmountParseError),
{
}

/// `/send` with two arguments whose destination is not an absolute URL
/// always dispatches to the URL parse error, whatever the amount token
/// holds: the destination is checked before the amount.
pub proof fn lemma_send_bad_url_yields_url_error(id: i64, args: Seq<Seq<char>>, r: Action)
    requires
        args.len() == 2,
        url_parse(args[1]) is None,
        send_outcome(id, args, r),
    ensures
        r == Action::CommandError(id, CommandParseError::UrlParseError),
{
}

/// The dispatch table from a command name and arguments to an action.
pub open spec fn command_outcome(id: i64, cmd: Seq<char>, args: Seq<Seq<char>>, r: Action) -> bool {
    if cmd == "/home"@ {
        r == Action::Home(id)
    } else if cmd == "/create"@ {
        r == Action::Create(id)
    } else if cmd == "/send"@ {
        send_outcome(id, args, r)
    } else if cmd == "/balance"@ {
        r == Action::Balance(id)
    } else if cmd == "/help"@ {
        r == Action::Help(id)
    } else if cmd == "/start"@ {
        r == Action::Help(id)
    } else if cmd == "/back"@ {
        r == Action::Back(id)
    } else if cmd == "/unsupported"@ {
        r == Action::ModeNotSupported(id)
    } else {
        r == Action::Unknown(id)
    }
}

/// Dispatches a command entered by the user, as `command_outcome` describes.
pub fn get_command(command_type: &str, id: i64, command: Vec<&str>) -> (r: Action)
    ensures
        command_outcome(id, command_type@, str_views(command@), r),
{
    if str_eq(command_type, "/home") {
        Action::Home(id)
    } else if str_eq(command_type, "/create") {
        Action::Create(id)
    } else if str_eq(command_type, "/send") {
        match SendCommand::parse(command) {
            Ok(send_command) => {
                let amount = send_command.amount;
                match send_command.destination {
                    Some(destination) => Action::Send(id, amount, destination),
                    None => unreached(),
                }
            },
            Err(error) => Action::CommandError(id, error),
        }
    } else if str_eq(command_type, "/balance") {
        Action::Balance(id)
    } else if str_eq(command_type, "/help") {
        Action::Help(id)
    } else if str_eq(command_type, "/start") {
        Action::Help(id)
    } else if str_eq(command_type, "/back") {
        Action::Back(id)
    } else if str_eq(command_type, "/unsupported") {
        Action::ModeNotSupported(id)
    } else {
        Action::Unknown(id)
    }
}

/// What the whole inbound pipeline after normalization yields: no text maps
/// to `Unknown`; otherwise the identity guard may short-circuit, and an
/// authorized sender's text is tokenized and dispatched.
pub open spec fn action_outcome(
    id: i64,
    username: Option<String>,
    message: Option<String>,
    config_user: Seq<char>,
    r: Action,
) -> bool {
    match message {
        None => r == Action::Unknown(id),
        Some(msg) => match username {
            None => r == Action::NoUsername(id),
            Some(u) => if u@ != config_user {
                r == Action::WrongUsername(id)
            } else {
                command_outcome(
                    id,
                    split_char(msg@, ' ')[0],
                    split_char(msg@, ' ').skip(1),
                    r,
                )
            },
        },
    }
}

/// Turns a normalized update into an action: the identity guard runs before
/// the command is looked at.
pub fn get_action(
    id: i64,
    from_user: &Option<String>,
    message: Option<String>,
    config_user: &str,
) -> (r: Action)
    ensures
        action_outcome(id, *from_user, message, config_user@, r),
{
    if let Some(msg) = message {
        let (command_type, parameters) = tokenize_command(msg.as_str());
        match get_username_action(id, from_user, config_user) {
            Some(action) => action,
            None => get_command(command_type, id, parameters),
        }
    } else {
        Action::Unknown(id)
    }
}

} // verus!
