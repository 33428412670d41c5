//! The main UI reducer: a pure transition from a state and an action to the
//! next state. Actions that need the wallet collaborator (`Create`, `Send`,
//! `Balance`) take its outcome as an argument; the caller performs the call
//! and hands the result in, so a collaborator failure is never fatal — it
//! becomes a user-visible message with a severity.

use vstd::prelude::*;

use crate::action::{parse_error_text, Action};
use crate::state::{ctx_eq, Screen, Severity, State};
use crate::templates::{
    error_text, help_text, mode_not_supported_text, no_username_text, seed_text, success_text,
    wrong_username_text, HelpTemplate, SeedTemplate,
};

verus! {

/// An opaque failure of the external wallet collaborator, passed through
/// unchanged.
#[derive(Debug, Clone, PartialEq, Eq)]
pub struct WalletOperationError {
    pub message: String,
}

/// A call the wallet collaborator is asked to make, with the plain values it
/// needs.
#[derive(Debug, Clone, PartialEq, Eq)]
pub enum WalletCall {
    CreateWallet { wallet_dir: String, wallet_password: String },
    SendTx { amount: String, destination: String, wallet_dir: String, owner_endpoint: String },
    Balance { wallet_dir: String, owner_endpoint: String },
}

/// Whether an action makes the reducer consult the wallet collaborator.
pub open spec fn action_needs_wallet(a: Action) -> bool {
    a matches Action::Create(_) || a matches Action::Send(_, _, _) || a matches Action::Balance(_)
}

/// The transition relation of the reducer: how the next state `r` follows
/// from the state `s`, the action `a`, and the wallet outcome `w` (consulted
/// only by `Create`, `Send` and `Balance`). The context is threaded through
/// unchanged; `prev_screen` carries over except where noted.
pub open spec fn reduces(
    s: State,
    a: Action,
    w: Option<Result<String, WalletOperationError>>,
    r: State,
) -> bool {
    ctx_eq(r.context, s.context) && match a {
        Action::Home(id) => r.screen == Screen::Home && r.prev_screen == Screen::Home && r.id
            == Some(id) && r.message is None && r.error_level is None,
        Action::Create(id) => r.screen == Screen::Create && r.prev_screen == s.prev_screen && r.id
            == Some(id) && match w {
            Some(Ok(seed)) => r.message matches Some(m) && m@ == seed_text(seed@)
                && r.error_level is None,
            Some(Err(e)) => r.message matches Some(m) && m@ == error_text(e.message@)
                && r.error_level == Some(Severity::Error),
            None => false,
        },
        Action::Send(id, _amount, _destination) => r.screen == Screen::Send && r.prev_screen
            == s.prev_screen && r.id == Some(id) && match w {
            Some(Ok(msg)) => r.message matches Some(m) && m@ == success_text(msg@)
                && r.error_level is None,
            Some(Err(e)) => r.message matches Some(m) && m@ == error_text(e.message@)
                && r.error_level == Some(Severity::Info),
            None => false,
        },
        Action::Balance(id) => r.screen == Screen::Balance && r.prev_screen == s.prev_screen
            && r.id == Some(id) && match w {
            Some(Ok(msg)) => r.message matches Some(m) && m@ == success_text(msg@)
                && r.error_level is None,
            Some(Err(e)) => r.message matches Some(m) && m@ == error_text(e.message@)
                && r.error_level == Some(Severity::Info),
            None => false,
        },
        Action::Help(id) => r.screen == Screen::Help && r.prev_screen == s.prev_screen && r.id
            == Some(id) && (r.message matches Some(m) && m@ == help_text())
            && r.error_level is None,
        Action::NoUsername(id) => r.screen == s.screen && r.prev_screen == s.prev_screen && r.id
            == Some(id) && (r.message matches Some(m) && m@ == no_username_text())
            && r.error_level == Some(Severity::Warn),
        Action::WrongUsername(id) => r.screen == s.screen && r.prev_screen == s.prev_screen && r.id
            == Some(id) && (r.message matches Some(m) && m@ == wrong_username_text())
            && r.error_level == Some(Severity::Warn),
        Action::ModeNotSupported(id) => r.screen == s.screen && r.prev_screen == s.prev_screen
            && r.id == Some(id) && (r.message matches Some(m) && m@ == mode_not_supported_text())
            && r.error_level == Some(Severity::Warn),
        Action::Back(id) => r.screen == s.prev_screen && r.prev_screen == Screen::Home && r.id
            == Some(id) && r.message is None && r.error_level is None,
        Action::CommandError(id, error) => r.screen == s.screen && r.prev_screen == s.prev_screen
            && r.id == Some(id) && (r.message matches Some(m) && m@ == error_text(
            parse_error_text(error),
        )) && r.error_level == Some(Severity::Error),
        Action::Unknown(id) => r.screen == s.screen && r.prev_screen == s.prev_screen && r.id
            == Some(id) && r.message is None && r.error_level == Some(Severity::Error),
    }
}

/// The wallet call an action requires, with the values the collaborator
/// needs taken from the action and the state's context; `None` for actions
/// that do not touch the collaborator.
pub fn wallet_call_of(state: &State, action: &Action) -> (r: Option<WalletCall>)
    ensures
        match *action {
            Action::Create(_) => r matches Some(c) && (c matches WalletCall::CreateWallet {
                wallet_dir,
                wallet_password,
            } && wallet_dir@ == state.context.wallet_dir@ && wallet_password@
                == state.context.wallet_password@),
            Action::Send(_, amount, destination) => r matches Some(c) && (c
                matches WalletCall::SendTx {
                amount: a,
                destination: d,
                wallet_dir,
                owner_endpoint,
            } && a@ == amount@ && d@ == destination@ && wallet_dir@ == state.context.wallet_dir@
                && owner_endpoint@ == state.context.owner_endpoint@),
            Action::Balance(_) => r matches Some(c) && (c matches WalletCall::Balance {
                wallet_dir,
                owner_endpoint,
            } && wallet_dir@ == state.context.wallet_dir@ && owner_endpoint@
                == state.context.owner_endpoint@),
            _ => r is None,
        },
        r is Some <==> action_needs_wallet(*action),
{
    match action {
        Action::Create(_) => Some(
            WalletCall::CreateWallet {
                wallet_dir: state.context.wallet_dir.clone(),
                wallet_password: state.context.wallet_password.clone(),
            },
        ),
        Action::Send(_, amount, destination) => Some(
            WalletCall::SendTx {
                amount: amount.clone(),
                destination: destination.clone(),
                wallet_dir: state.context.wallet_dir.clone(),
                owner_endpoint: state.context.owner_endpoint.clone(),
            },
        ),
        Action::Balance(_) => Some(
            WalletCall::Balance {
                wallet_dir: state.context.wallet_dir.clone(),
                owner_endpoint: state.context.owner_endpoint.clone(),
            },
        ),
        _ => None,
    }
}

/// The main UI reducer: returns the new state for an action, as `reduces`
/// describes. For actions that need the wallet collaborator, `wallet` holds
/// the outcome of the call that `wallet_call_of` named.
pub fn screen_reducer(
    state: &State,
    action: &Action,
    wallet: Option<Result<String, WalletOperationError>>,
) -> (r: State)
    requires
        action_needs_wallet(*action) ==> wallet is Some,
    ensures
        reduces(*state, *action, wallet, r),
{
    let context = state.context.duplicate();
    match action {
        Action::Home(id) => State {
            prev_screen: Screen::Home,
            screen: Screen::Home,
            id: Some(*id),
            message: None,
            context,
            error_level: None,
        },
        Action::Create(id) => {
            let (message, error_level) = match wallet {
                Some(Ok(seed)) => (SeedTemplate { seed }.render(), None),
                Some(Err(e)) => (
                    crate::templates::error_message(e.message.as_str()),
                    Some(Severity::Error),
                ),
                None => unreached(),
            };
            State {
                screen: Screen::Create,
                prev_screen: state.prev_screen,
                id: Some(*id),
                message: Some(message),
                context,
                error_level,
            }
        },
        Action::Send(id, _amount, _destination) => {
            let (message, error_level) = match wallet {
                Some(Ok(msg)) => (crate::templates::success_message(msg.as_str()), None),
                Some(Err(e)) => (
                    crate::templates::error_message(e.message.as_str()),
                    Some(Severity::Info),
                ),
                None => unreached(),
            };
            State {
                screen: Screen::Send,
                prev_screen: state.prev_screen,
                id: Some(*id),
                message: Some(message),
                context,
                error_level,
            }
        },
        Action::Balance(id) => {
            let (message, error_level) = match wallet {
                Some(Ok(msg)) => (crate::templates::success_message(msg.as_str()), None),
                Some(Err(e)) => (
                    crate::templates::error_message(e.message.as_str()),
                    Some(Severity::Info),
                ),
                None => unreached(),
            };
            State {
                screen: Screen::Balance,
                prev_screen: state.prev_screen,
                id: Some(*id),
                message: Some(message),
                context,
                error_level,
            }
        },
        Action::Help(id) => State {
            screen: Screen::Help,
            prev_screen: state.prev_screen,
            id: Some(*id),
            message: Some(HelpTemplate {  }.render()),
            context,
            error_level: None,
        },
        Action::NoUsername(id) => State {
            screen: state.screen,
            prev_screen: state.prev_screen,
            id: Some(*id),
            message: Some(String::from_str("You must have a username to use Grin Bot.")),
            context,
            error_level: Some(Severity::Warn),
        },
        Action::WrongUsername(id) => State {
            screen: state.screen,
            prev_screen: state.prev_screen,
            id: Some(*id),
            message: Some(
                String::from_str(
                    "Your username does not match the username in the Grin Bot config.",
                ),
            ),
            context,
            error_level: Some(Severity::Warn),
        },
        Action::ModeNotSupported(id) => State {
            screen: state.screen,
            prev_screen: state.prev_screen,
            id: Some(*id),
            message: Some(
                String::from_str(
                    "For security reasons, inline and group messages are not supported.",
                ),
            ),
            context,
            error_level: Some(Severity::Warn),
        },
        Action::Back(id) => State {
            screen: state.prev_screen,
            prev_screen: Screen::Home,
            id: Some(*id),
            message: None,
            context,
            error_level: None,
        },
        Action::CommandError(id, error) => State {
            screen: state.screen,
            prev_screen: state.prev_screen,
            id: Some(*id),
            message: Some(crate::templates::error_message(error.text().as_str())),
            context,
            error_level: Some(Severity::Error),
        },
        Action::Unknown(id) => State {
            screen: state.screen,
            prev_screen: state.prev_screen,
            id: Some(*id),
            message: None,
            context,
            error_level: Some(Severity::Error),
        },
    }
}

/// Every transition records the conversation id of its action, so a state's
/// `id` is `None` only before the first inbound update is processed.
pub proof fn lemma_id_set_by_transition(
    s: State,
    a: Action,
    w: Option<Result<String, WalletOperationError>>,
    r: State,
)
    requires
        reduces(s, a, w, r),
    ensures
        r.id is Some,
{
}

/// Applying `Home` twice in sequence ends in the same terminal state as
/// applying it once: the second application changes nothing the first did
/// not already establish.
pub proof fn lemma_home_idempotent(s: State, mid: State, r: State, id: i64)
    requires
        reduces(s, Action::Home(id), None, mid),
        reduces(mid, Action::Home(id), None, r),
    ensures
        mid.screen == Screen::Home,
        r.screen == mid.screen,
        r.prev_screen == mid.prev_screen,
        r.id == mid.id,
        r.message == mid.message,
        r.error_level == mid.error_level,
        ctx_eq(r.context, mid.context),
{
}

/// `Back` always resets `prev_screen` to `Home`, clears the message, and
/// returns to the previously recorded screen.
pub proof fn lemma_back_resets_prev(s: State, r: State, id: i64)
    requires
        reduces(s, Action::Back(id), None, r),
    ensures
        r.prev_screen == Screen::Home,
        r.screen == s.prev_screen,
        r.message is None,
        r.error_level is None,
{
}

/// From a state whose `prev_screen` is `Home` — as the initial state's is —
/// every transition keeps `prev_screen` at `Home`: no action records any
/// other previous screen.
pub proof fn lemma_prev_screen_home_invariant(
    s: State,
    a: Action,
    w: Option<Result<String, WalletOperationError>>,
    r: State,
)
    requires
        reduces(s, a, w, r),
        s.prev_screen == Screen::Home,
    ensures
        r.prev_screen == Screen::Home,
{
}

/// Round trip through `Back`: invoked after any non-`Back`, non-`Home`
/// transition, `Back` brings the screen to the `prev_screen` captured before
/// that transition, and resets `prev_screen` to `Home`.
pub proof fn lemma_back_round_trip(
    s: State,
    a: Action,
    w: Option<Result<String, WalletOperationError>>,
    mid: State,
    r: State,
    id: i64,
)
    requires
        !(a matches Action::Back(_)),
        !(a matches Action::Home(_)),
        reduces(s, a, w, mid),
        reduces(mid, Action::Back(id), None, r),
    ensures
        r.screen == s.prev_screen,
        r.prev_screen == Screen::Home,
{
}

} // verus!
