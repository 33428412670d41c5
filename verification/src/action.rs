//! Typed actions produced from user commands, and the parsing of the
//! `/send` command's arguments: exactly two tokens, validated in a fixed
//! order — argument count, then destination URL, then amount.

use vstd::prelude::*;

use crate::amount::is_amount_token;
use crate::destination::url_parse;
use crate::strutil::str_views;

verus! {

/// Errors associated with parsing commands.
#[derive(Debug, Clone, PartialEq, Eq)]
pub enum CommandParseError {
    WrongNumberOfArgsError(String),
    UrlParseError,
    AmountParseError,
}

/// The user-facing text of a command parse error: the carried usage message
/// for a wrong argument count, else the error's name.
pub open spec fn parse_error_text(e: CommandParseError) -> Seq<char> {
    match e {
        CommandParseError::WrongNumberOfArgsError(m) => m@,
        CommandParseError::UrlParseError => "UrlParseError"@,
        CommandParseError::AmountParseError => "AmountParseError"@,
    }
}

impl CommandParseError {
    /// Renders the error as its user-facing text.
    pub fn text(&self) -> (r: String)
        ensures
            r@ == parse_error_text(*self),
    {
        match self {
            CommandParseError::WrongNumberOfArgsError(m) => m.clone(),
            CommandParseError::UrlParseError => String::from_str("UrlParseError"),
            CommandParseError::AmountParseError => String::from_str("AmountParseError"),
        }
    }
}

/// Actions that modify the application state, each carrying the originating
/// conversation id. `Send` carries the validated amount token and the
/// serialization of the destination URL.
#[derive(Debug, Clone, PartialEq, Eq)]
pub enum Action {
    Home(i64),
    Create(i64),
    Send(i64, String, String),
    Balance(i64),
    Help(i64),
    NoUsername(i64),
    WrongUsername(i64),
    ModeNotSupported(i64),
    Back(i64),
    CommandError(i64, CommandParseError),
    Unknown(i64),
}

/// The usage text shown when `/send` gets the wrong number of arguments.
pub open spec fn usage_text() -> Seq<char> {
    "Wrong number of arguments.\n\nUsage: <pre>/send 0.001 http://some-recipient123.org</pre>"@
}

/// What `SendCommand::parse` returns for the argument tokens `args`:
/// not exactly two tokens fails with the usage text; then a destination
/// that is no absolute URL fails; then an amount that is no number fails;
/// otherwise the parsed command holds the amount token and the
/// destination's serialization.
pub open spec fn parse_outcome(
    args: Seq<Seq<char>>,
    r: Result<SendCommand, CommandParseError>,
) -> bool {
    if args.len() != 2 {
        r matches Err(e) && (e matches CommandParseError::WrongNumberOfArgsError(m) && m@
            == usage_text())
    } else if url_parse(args[1]) is None {
        r matches Err(e) && e is UrlParseError
    } else if !is_amount_token(args[0]) {
        r matches Err(e) && e is AmountParseError
    } else {
        r matches Ok(sc) && (sc.amount@ == args[0] && (sc.destination matches Some(d) && url_parse(
            args[1],
        ) == Some(d@)))
    }
}

/// A parsed send command: the validated amount token and the destination
/// URL's serialization.
#[derive(Debug, Clone, PartialEq, Eq)]
pub struct SendCommand {
    pub amount: String,
    pub destination: Option<String>,
}

impl SendCommand {
    /// The usage text for `/send`.
    pub fn usage() -> (r: String)
        ensures
            r@ == usage_text(),
    {
        String::from_str(
            "Wrong number of arguments.\n\nUsage: <pre>/send 0.001 http://some-recipient123.org</pre>",
        )
    }

    /// Converts string tokens of user command parameters to a validated
    /// destination URL and amount, as `parse_outcome` describes.
    pub fn parse(command: Vec<&str>) -> (r: Result<SendCommand, CommandParseError>)
        ensures
            parse_outcome(str_views(command@), r),
    {
        if command.len() != 2 {
            return Err(CommandParseError::WrongNumberOfArgsError(SendCommand::usage()));
        }
        let destination = match crate::destination::url_parse_normalized(command[1]) {
            Some(u) => u,
            None => {
                return Err(CommandParseError::UrlParseError);
            },
        };
        if !crate::amount::amount_token_valid(command[0]) {
            return Err(CommandParseError::AmountParseError);
        }
        Ok(SendCommand { amount: String::from_str(command[0]), destination: Some(destination) })
    }
}

} // verus!
