//! The application state: which screen the user is on, the previous screen,
//! the conversation, the reply message, and its severity, together with the
//! configuration context that the wallet collaborator needs.

use vstd::prelude::*;

verus! {

/// Screens (the user's current view, shown via a chat message and quick
/// commands).
#[derive(Clone, Copy, Debug, PartialEq, Eq, Structural)]
pub enum Screen {
    Home,
    Create,
    Send,
    Balance,
    Help,
}

impl Default for Screen {
    /// The screen shown before any command arrives.
    fn default() -> (r: Screen)
        ensures
            r == Screen::Home,
    {
        Screen::Home
    }
}

/// Severity of a reply message, ordered `Info < Warn < Error`; used only
/// for downstream logging, never for control flow.
#[derive(Clone, Copy, Debug, PartialEq, Eq, Structural, PartialOrd, Ord)]
pub enum Severity {
    Info,
    Warn,
    Error,
}

/// Configuration needed by the wallet collaborator: directory, endpoint and
/// password. It is threaded through every transition unchanged and is opaque
/// to the control logic.
#[derive(Clone, Debug)]
pub struct Context {
    pub wallet_dir: String,
    pub owner_endpoint: String,
    pub wallet_password: String,
}

/// Character-for-character equality of two contexts.
pub open spec fn ctx_eq(a: Context, b: Context) -> bool {
    a.wallet_dir@ == b.wallet_dir@ && a.owner_endpoint@ == b.owner_endpoint@
        && a.wallet_password@ == b.wallet_password@
}

impl Context {
    /// A context equal to this one, character for character.
    pub fn duplicate(&self) -> (r: Context)
        ensures
            ctx_eq(r, *self),
    {
        Context {
            wallet_dir: self.wallet_dir.clone(),
            owner_endpoint: self.owner_endpoint.clone(),
            wallet_password: self.wallet_password.clone(),
        }
    }
}

impl Default for Context {
    /// An empty configuration.
    fn default() -> (r: Context)
        ensures
            r.wallet_dir@ == Seq::<char>::empty(),
            r.owner_endpoint@ == Seq::<char>::empty(),
            r.wallet_password@ == Seq::<char>::empty(),
    {
        Context { wallet_dir: String::new(), owner_endpoint: String::new(), wallet_password: String::new() }
    }
}

/// Application state: which screen the user is on, the previous screen, the
/// reply message to return. `id` is `None` only before the first inbound
/// update is processed. Every transition produces a new value; nothing is
/// mutated in place.
#[derive(Clone, Debug)]
pub struct State {
    pub screen: Screen,
    pub prev_screen: Screen,
    pub id: Option<i64>,
    pub message: Option<String>,
    pub context: Context,
    pub error_level: Option<Severity>,
}

/// The part of a state that can be logged.
#[derive(Clone, Debug)]
pub struct LoggableState {
    pub screen: Screen,
    pub prev_screen: Screen,
    pub id: Option<i64>,
    pub message: Option<String>,
}

impl LoggableState {
    /// The loggable part of `state`.
    pub fn new(state: State) -> (r: LoggableState)
        ensures
            r.screen == state.screen,
            r.prev_screen == state.prev_screen,
            r.id == state.id,
            r.message == state.message,
    {
        LoggableState {
            screen: state.screen,
            prev_screen: state.prev_screen,
            id: state.id,
            message: state.message,
        }
    }
}

} // verus!
