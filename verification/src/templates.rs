//! The texts of reply messages: templates for the wallet seed and the help
//! screen, and the fixed wrappers and notices that the reducer puts into the
//! state. Texts use the small neutral markup subset (bold, preformatted,
//! italics) that transport adapters translate or strip.

use vstd::prelude::*;

verus! {

/// The message returning the user's recovery phrase after wallet creation.
pub open spec fn seed_text(seed: Seq<char>) -> Seq<char> {
    "Your recovery phrase is:\n<pre>"@ + seed + "</pre>"@
}

/// Message returning the user's seed after wallet creation.
pub struct SeedTemplate {
    pub seed: String,
}

impl SeedTemplate {
    /// The rendered seed message.
    pub fn render(&self) -> (r: String)
        ensures
            r@ == seed_text(self.seed@),
    {
        String::from_str("Your recovery phrase is:\n<pre>").concat(self.seed.as_str()).concat(
            "</pre>",
        )
    }
}

/// The static help text.
pub open spec fn help_text() -> Seq<char> {
    "<b>Grin Bot commands</b>\n/create - create a new wallet\n/send <amount> <url> - send grin to a recipient\n/balance - show the wallet balance\n/home - home screen\n/back - go back\n/help - this help"@
}

/// Help text.
pub struct HelpTemplate {}

impl HelpTemplate {
    /// The rendered help message.
    pub fn render(&self) -> (r: String)
        ensures
            r@ == help_text(),
    {
        String::from_str(
            "<b>Grin Bot commands</b>\n/create - create a new wallet\n/send <amount> <url> - send grin to a recipient\n/balance - show the wallet balance\n/home - home screen\n/back - go back\n/help - this help",
        )
    }
}

/// An error reply: the error text behind a fixed prefix.
pub open spec fn error_text(e: Seq<char>) -> Seq<char> {
    "Error: "@ + e
}

/// Builds the error reply for `e`.
pub fn error_message(e: &str) -> (r: String)
    ensures
        r@ == error_text(e@),
{
    String::from_str("Error: ").concat(e)
}

/// A success reply: the wallet collaborator's text behind a bold marker.
pub open spec fn success_text(m: Seq<char>) -> Seq<char> {
    "<b>Success:</b>\n"@ + m
}

/// Builds the success reply for `m`.
pub fn success_message(m: &str) -> (r: String)
    ensures
        r@ == success_text(m@),
{
    String::from_str("<b>Success:</b>\n").concat(m)
}

/// The notice for a sender without a username.
pub open spec fn no_username_text() -> Seq<char> {
    "You must have a username to use Grin Bot."@
}

/// The notice for a sender whose username does not match the configured one.
pub open spec fn wrong_username_text() -> Seq<char> {
    "Your username does not match the username in the Grin Bot config."@
}

/// The notice for inline or group messages.
pub open spec fn mode_not_supported_text() -> Seq<char> {
    "For security reasons, inline and group messages are not supported."@
}

} // verus!
