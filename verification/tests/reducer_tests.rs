use grinbot::action::{Action, CommandParseError};
use grinbot::markup::html_to_markdown;
use grinbot::reducer::{screen_reducer, wallet_call_of, WalletCall, WalletOperationError};
use grinbot::state::{Context, LoggableState, Screen, Severity, State};
use grinbot::templates::{HelpTemplate, SeedTemplate};
use grinbot::wallet::{
    seed_from_wallet_output, ApiSecretMissingError, CreateWalletError, RpcError,
    WalletExistsError,
};

fn initial_state() -> State {
    State {
        screen: Screen::Home,
        prev_screen: Screen::Home,
        id: None,
        message: None,
        context: Context {
            wallet_dir: "wallets/test".to_string(),
            owner_endpoint: "http://127.0.0.1:3420/v2/owner".to_string(),
            wallet_password: "pw".to_string(),
        },
        error_level: None,
    }
}

#[test]
fn home_resets_screen() {
    let state = initial_state();
    let next = screen_reducer(&state, &Action::Home(5), None);
    assert_eq!(next.screen, Screen::Home);
    assert_eq!(next.prev_screen, Screen::Home);
    assert_eq!(next.id, Some(5));
    assert_eq!(next.message, None);
    assert_eq!(next.error_level, None);
    assert_eq!(next.context.wallet_dir, "wallets/test");
}

#[test]
fn create_success_seed_message() {
    let state = initial_state();
    let next = screen_reducer(&state, &Action::Create(6), Some(Ok("word1 word2".to_string())));
    assert_eq!(next.screen, Screen::Create);
    assert_eq!(
        next.message,
        Some("Your recovery phrase is:\n<pre>word1 word2</pre>".to_string())
    );
    assert_eq!(next.error_level, None);
}

#[test]
fn create_failure_error_message() {
    let state = initial_state();
    let outcome = Some(Err(WalletOperationError { message: "Wallet exists".to_string() }));
    let next = screen_reducer(&state, &Action::Create(6), outcome);
    assert_eq!(next.screen, Screen::Create);
    assert_eq!(next.message, Some("Error: Wallet exists".to_string()));
    assert_eq!(next.error_level, Some(Severity::Error));
}

#[test]
fn send_success_message() {
    let state = initial_state();
    let action = Action::Send(7, "0.01".to_string(), "https://recipient123.org/".to_string());
    let next = screen_reducer(&state, &action, Some(Ok("tx posted".to_string())));
    assert_eq!(next.screen, Screen::Send);
    assert_eq!(next.message, Some("<b>Success:</b>\ntx posted".to_string()));
    assert_eq!(next.error_level, None);
}

#[test]
fn send_failure_info_level() {
    let state = initial_state();
    let action = Action::Send(7, "0.01".to_string(), "https://recipient123.org/".to_string());
    let outcome = Some(Err(WalletOperationError { message: "no funds".to_string() }));
    let next = screen_reducer(&state, &action, outcome);
    assert_eq!(next.message, Some("Error: no funds".to_string()));
    assert_eq!(next.error_level, Some(Severity::Info));
}

#[test]
fn balance_transitions() {
    let state = initial_state();
    let next = screen_reducer(&state, &Action::Balance(8), Some(Ok("total 10".to_string())));
    assert_eq!(next.screen, Screen::Balance);
    assert_eq!(next.message, Some("<b>Success:</b>\ntotal 10".to_string()));
    assert_eq!(next.error_level, None);

    let outcome = Some(Err(WalletOperationError { message: "offline".to_string() }));
    let next = screen_reducer(&state, &Action::Balance(8), outcome);
    assert_eq!(next.message, Some("Error: offline".to_string()));
    assert_eq!(next.error_level, Some(Severity::Info));
}

#[test]
fn help_shows_help_text() {
    let state = initial_state();
    let next = screen_reducer(&state, &Action::Help(9), None);
    assert_eq!(next.screen, Screen::Help);
    assert_eq!(next.message, Some(HelpTemplate {}.render()));
    assert_eq!(next.error_level, None);
}

#[test]
fn no_username_notice() {
    let state = initial_state();
    let next = screen_reducer(&state, &Action::NoUsername(10), None);
    assert_eq!(next.screen, state.screen);
    assert_eq!(
        next.message,
        Some("You must have a username to use Grin Bot.".to_string())
    );
    assert_eq!(next.error_level, Some(Severity::Warn));
}

#[test]
fn wrong_username_notice() {
    let state = initial_state();
    let next = screen_reducer(&state, &Action::WrongUsername(11), None);
    assert_eq!(next.screen, state.screen);
    assert_eq!(
        next.message,
        Some("Your username does not match the username in the Grin Bot config.".to_string())
    );
    assert_eq!(next.error_level, Some(Severity::Warn));
}

#[test]
fn back_resets_prev_screen() {
    let mut state = initial_state();
    state.screen = Screen::Send;
    state.prev_screen = Screen::Home;
    let next = screen_reducer(&state, &Action::Back(12), None);
    assert_eq!(next.prev_screen, Screen::Home);
    assert_eq!(next.screen, Screen::Home);
    assert_eq!(next.message, None);
    assert_eq!(next.error_level, None);
}

#[test]
fn back_restores_recorded_screen() {
    let mut state = initial_state();
    state.screen = Screen::Send;
    state.prev_screen = Screen::Balance;
    let next = screen_reducer(&state, &Action::Back(12), None);
    assert_eq!(next.screen, Screen::Balance);
    assert_eq!(next.prev_screen, Screen::Home);
}

#[test]
fn command_error_message() {
    let state = initial_state();
    let action = Action::CommandError(13, CommandParseError::UrlParseError);
    let next = screen_reducer(&state, &action, None);
    assert_eq!(next.screen, state.screen);
    assert_eq!(next.message, Some("Error: UrlParseError".to_string()));
    assert_eq!(next.error_level, Some(Severity::Error));
}

#[test]
fn unknown_clears_message() {
    let mut state = initial_state();
    state.message = Some("old".to_string());
    let next = screen_reducer(&state, &Action::Unknown(14), None);
    assert_eq!(next.message, None);
    assert_eq!(next.error_level, Some(Severity::Error));
}

#[test]
fn home_twice_idempotent() {
    // Applying Home twice ends on the same terminal screen as applying it
    // once.
    let state = initial_state();
    let once = screen_reducer(&state, &Action::Home(15), None);
    let twice = screen_reducer(&once, &Action::Home(15), None);
    assert_eq!(once.screen, Screen::Home);
    assert_eq!(twice.screen, once.screen);
    assert_eq!(twice.prev_screen, once.prev_screen);
    assert_eq!(twice.message, once.message);
    assert_eq!(twice.error_level, once.error_level);
}

#[test]
fn back_round_trip_from_home_rooted() {
    // A transition followed by Back brings the screen to the prev_screen
    // captured before the transition.
    let state = initial_state();
    let mid = screen_reducer(&state, &Action::Help(16), None);
    assert_eq!(mid.screen, Screen::Help);
    assert_eq!(mid.prev_screen, state.prev_screen);
    let back = screen_reducer(&mid, &Action::Back(16), None);
    assert_eq!(back.screen, state.prev_screen);
    assert_eq!(back.prev_screen, Screen::Home);
}

#[test]
fn wallet_call_for_send() {
    let state = initial_state();
    let action = Action::Send(17, "0.01".to_string(), "https://recipient123.org/".to_string());
    let call = wallet_call_of(&state, &action);
    assert_eq!(
        call,
        Some(WalletCall::SendTx {
            amount: "0.01".to_string(),
            destination: "https://recipient123.org/".to_string(),
            wallet_dir: "wallets/test".to_string(),
            owner_endpoint: "http://127.0.0.1:3420/v2/owner".to_string(),
        })
    );
}

#[test]
fn wallet_call_none_for_plain_actions() {
    let state = initial_state();
    assert_eq!(wallet_call_of(&state, &Action::Home(18)), None);
    assert_eq!(wallet_call_of(&state, &Action::Back(18)), None);
    assert_eq!(wallet_call_of(&state, &Action::Unknown(18)), None);
    assert!(wallet_call_of(&state, &Action::Create(18)).is_some());
    assert!(wallet_call_of(&state, &Action::Balance(18)).is_some());
}

#[test]
fn seed_scan_finds_phrase() {
    let output = "init\nYour recovery phrase is:\n\nword1 word2 word3\ndone";
    assert_eq!(seed_from_wallet_output(output), Some("word1 word2 word3".to_string()));
}

#[test]
fn seed_scan_missing_marker() {
    assert_eq!(seed_from_wallet_output("nothing here"), None);
}

#[test]
fn seed_scan_marker_near_end() {
    assert_eq!(seed_from_wallet_output("x\nYour recovery phrase is:\n"), None);
}

#[test]
fn html_to_markdown_tags() {
    assert_eq!(html_to_markdown("<b>x</b> <i>y</i> <pre>z</pre>"), "*x* _y_ ```z```");
    assert_eq!(html_to_markdown("plain"), "plain");
    assert_eq!(html_to_markdown("a < b"), "a < b");
}

#[test]
fn seed_template_renders() {
    let rendered = SeedTemplate { seed: "word1 word2".to_string() }.render();
    assert_eq!(rendered, "Your recovery phrase is:\n<pre>word1 word2</pre>");
}

#[test]
fn loggable_state_copies_fields() {
    let mut state = initial_state();
    state.screen = Screen::Balance;
    state.id = Some(20);
    state.message = Some("msg".to_string());
    let loggable = LoggableState::new(state);
    assert_eq!(loggable.screen, Screen::Balance);
    assert_eq!(loggable.prev_screen, Screen::Home);
    assert_eq!(loggable.id, Some(20));
    assert_eq!(loggable.message, Some("msg".to_string()));
}

#[test]
fn wallet_error_texts() {
    assert_eq!(WalletExistsError.text(), "Wallet exists");
    assert_eq!(
        ApiSecretMissingError.text(),
        ".api_secret file does not exist in wallet directory"
    );
    assert_eq!(CreateWalletError.text(), "Can't create wallet");
}

#[test]
fn rpc_error_holds_code_and_message() {
    let e = RpcError { code: -32600, message: "invalid request".to_string() };
    assert_eq!(e.code, -32600);
    assert_eq!(e.message, "invalid request");
}

#[test]
fn severity_is_ordered() {
    assert!(Severity::Info < Severity::Warn);
    assert!(Severity::Warn < Severity::Error);
}

#[test]
fn screen_and_context_defaults() {
    assert_eq!(Screen::default(), Screen::Home);
    let context = Context::default();
    assert_eq!(context.wallet_dir, "");
    assert_eq!(context.owner_endpoint, "");
    assert_eq!(context.wallet_password, "");
}

#[test]
fn help_template_lists_commands() {
    let help = HelpTemplate {}.render();
    assert!(help.contains("/send"));
    assert!(help.contains("/balance"));
    assert!(help.contains("/create"));
}
