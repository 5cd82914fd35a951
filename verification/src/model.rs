//! The session as a mathematical value, and every transition of the session
//! controller as a function on it. The executable controller is specified
//! against these functions, and the laws of the controller are proved of them.

use crate::backend::{
    login_args, logout_args, ping_args, session_token, BackendResultView, Operation,
};
use crate::clock::{clip, elapsed, ping_due, PING_INTERVAL};
use crate::components::{InputMode, InputView, MenuView};
use crate::config::ConfigView;
use crate::keys::{KeyCode, KeyEvent};
use vstd::prelude::*;

verus! {

/// The field of the credentials screen that takes the keys.
#[derive(Clone, Copy, Debug, PartialEq, Eq, Structural)]
pub enum Step {
    Username,
    Password,
}

/// The screen that is shown.
#[derive(Clone, Copy, Debug, PartialEq, Eq, Structural)]
pub enum Screen {
    Home,
    Credentials,
    Status,
    Disconnect,
    Exit,
}

/// The state of the connection to the portal.
#[derive(Clone, Copy, Debug, PartialEq, Eq, Structural)]
pub enum ConnectionStatus {
    Uninitialized,
    Connected,
    Disconnected,
    Connecting,
}

/// What an entry of the home menu does.
#[derive(Clone, Copy, Debug, PartialEq, Eq, Structural)]
pub enum HomeChoice {
    ReuseSaved,
    EnterCredentials,
    ForgetCredentials,
    Quit,
}

/// What an entry of the status menu does.
#[derive(Clone, Copy, Debug, PartialEq, Eq, Structural)]
pub enum StatusChoice {
    Reconnect,
    Disconnect,
}

/// What the status screen says of the last keepalive check that succeeded:
/// that there was none; when it was and how many seconds ago; or, while the
/// session is not connected and a check was tried, also how many seconds ago
/// the last attempt was.
#[derive(Clone, Copy, Debug, PartialEq, Eq, Structural)]
pub enum PingReport {
    Never,
    Fresh { at: i64, age: i64 },
    Stale { at: i64, age: i64, attempt_age: i64 },
}

/// What the caller has to do after a transition: write the credentials file,
/// run the backend, or both, in this order.
pub struct EffectsView {
    pub save_config: bool,
    pub call: Option<(Operation, Seq<Seq<char>>)>,
}

/// The session and the screens.
pub struct AppView {
    pub config: ConfigView,
    pub screen: Screen,
    pub username: Option<Seq<char>>,
    pub password: Option<Seq<char>>,
    pub session_token: Option<Seq<char>>,
    pub connected: ConnectionStatus,
    pub last_login: Option<int>,
    pub last_ping_attempt: Option<int>,
    pub last_ping_success: Option<int>,
    pub last_error: Option<Seq<char>>,
    pub step: Step,
    pub username_component: InputView,
    pub password_component: InputView,
    pub menu: MenuView,
    pub status_menu_for: ConnectionStatus,
    pub status_menu: MenuView,
}

/// The error that a login leaves when the backend reported success but
/// printed no second line, where the session token should stand.
pub open spec fn missing_token_message() -> Seq<char> {
    "backend reported success without a session token"@
}

/// The title of both menus.
pub open spec fn menu_title() -> Seq<char> {
    "Actions"@
}

/// The entries of the home menu: with saved credentials, logging in with
/// them, entering others, forgetting them, quitting; without, entering
/// credentials and quitting.
pub open spec fn home_labels(config: ConfigView) -> Seq<Seq<char>> {
    if config.has_credentials() {
        seq![
            "Se connecter (en tant que "@ + config.username + ")"@,
            "Rentrer ses identifiants"@,
            "Oublier les identifiants sauvegardés"@,
            "Quitter"@,
        ]
    } else {
        seq!["Rentrer ses identifiants"@, "Quitter"@]
    }
}

/// What the entry `index` of the home menu does. An index behind the entries quits.
pub open spec fn home_choice(has_credentials: bool, index: nat) -> HomeChoice {
    if has_credentials {
        if index == 0 {
            HomeChoice::ReuseSaved
        } else if index == 1 {
            HomeChoice::EnterCredentials
        } else if index == 2 {
            HomeChoice::ForgetCredentials
        } else {
            HomeChoice::Quit
        }
    } else {
        if index == 0 {
            HomeChoice::EnterCredentials
        } else {
            HomeChoice::Quit
        }
    }
}

/// What the status menu offers in each state of the connection: to
/// disconnect while connected, to reconnect or disconnect while disconnected,
/// nothing while a login is under way. Before the first login it offers to
/// disconnect.
pub open spec fn status_choices(status: ConnectionStatus) -> Seq<StatusChoice> {
    match status {
        ConnectionStatus::Uninitialized => seq![StatusChoice::Disconnect],
        ConnectionStatus::Connected => seq![StatusChoice::Disconnect],
        ConnectionStatus::Disconnected => seq![StatusChoice::Reconnect, StatusChoice::Disconnect],
        ConnectionStatus::Connecting => Seq::empty(),
    }
}

/// The entry of the status menu that stands for `choice`.
pub open spec fn status_label(choice: StatusChoice) -> Seq<char> {
    match choice {
        StatusChoice::Reconnect => "Essayer de se reconnecter"@,
        StatusChoice::Disconnect => "Se déconnecter"@,
    }
}

/// The entries of the status menu in the state `status`.
pub open spec fn status_labels(status: ConnectionStatus) -> Seq<Seq<char>> {
    status_choices(status).map_values(|choice: StatusChoice| status_label(choice))
}

/// What the entry `index` of the status menu made for `status` does.
pub open spec fn status_choice(status: ConnectionStatus, index: nat) -> Option<StatusChoice> {
    if index < status_choices(status).len() {
        Some(status_choices(status)[index as int])
    } else {
        None
    }
}

/// The text of `o`, or the empty text.
pub open spec fn text_or_empty(o: Option<Seq<char>>) -> Seq<char> {
    match o {
        Some(text) => text,
        None => Seq::empty(),
    }
}

impl EffectsView {
    /// Nothing to do.
    pub open spec fn none() -> EffectsView {
        EffectsView { save_config: false, call: None }
    }

    /// One run of the backend.
    pub open spec fn call(operation: Operation, request: Seq<Seq<char>>) -> EffectsView {
        EffectsView { save_config: false, call: Some((operation, request)) }
    }

    /// One run of the backend, if there is a request.
    pub open spec fn call_if(operation: Operation, request: Option<Seq<Seq<char>>>) -> EffectsView {
        match request {
            Some(args) => Self::call(operation, args),
            None => Self::none(),
        }
    }
}

impl AppView {
    /// The session at the start of the program: the home screen, no
    /// connection, nothing typed.
    pub open spec fn new(config: ConfigView) -> AppView {
        AppView {
            config,
            screen: Screen::Home,
            username: None,
            password: None,
            session_token: None,
            connected: ConnectionStatus::Uninitialized,
            last_login: None,
            last_ping_attempt: None,
            last_ping_success: None,
            last_error: None,
            step: Step::Username,
            username_component: InputView::new("Identifiant"@, true),
            password_component: InputView::new("Mot de passe"@, false),
            menu: MenuView::new(menu_title(), home_labels(config)),
            status_menu_for: ConnectionStatus::Uninitialized,
            status_menu: MenuView::new(
                menu_title(),
                status_labels(ConnectionStatus::Uninitialized),
            ),
        }
    }

    /// What holds of the session at all times. A connected session has a
    /// token, and before the first login there is none. The status screen and
    /// the screen that follows it are only shown to a user whose credentials
    /// are known. Each menu selects one of its entries or none, the status
    /// menu holds the entries of the state it was made for, and each cursor
    /// is within its text.
    pub open spec fn wf(self) -> bool {
        &&& self.connected == ConnectionStatus::Connected ==> self.session_token is Some
        &&& self.connected == ConnectionStatus::Uninitialized ==> self.session_token is None
        &&& self.screen == Screen::Status || self.screen == Screen::Disconnect ==> self.username is Some
            && self.password is Some
        &&& self.menu.wf()
        &&& self.status_menu.wf()
        &&& self.status_menu.options == status_labels(self.status_menu_for)
        &&& self.username_component.wf()
        &&& self.password_component.wf()
    }

    /// The arguments of a login with the credentials of the session.
    pub open spec fn login_request(self) -> Seq<Seq<char>> {
        login_args(text_or_empty(self.username), text_or_empty(self.password))
    }

    /// The session when a login starts at `now`: connecting, with the time of
    /// the login recorded.
    pub open spec fn login(self, now: int) -> AppView {
        AppView { connected: ConnectionStatus::Connecting, last_login: Some(now), ..self }
    }

    /// The session when the backend has answered a login at `now`. A success
    /// whose output has a second line connects: that line is the session
    /// token, both ping times are `now`, and the last error is cleared. A
    /// success without a second line counts as a failure. A failure
    /// disconnects and leaves the output as the last error; the token stays
    /// what it was.
    pub open spec fn finish_login(self, result: BackendResultView, now: int) -> AppView {
        if result.ok {
            match session_token(result.output) {
                Some(token) => AppView {
                    connected: ConnectionStatus::Connected,
                    session_token: Some(token),
                    last_ping_success: Some(now),
                    last_ping_attempt: Some(now),
                    last_error: None,
                    ..self
                },
                None => AppView {
                    connected: ConnectionStatus::Disconnected,
                    last_error: Some(missing_token_message()),
                    ..self
                },
            }
        } else {
            AppView {
                connected: ConnectionStatus::Disconnected,
                last_error: Some(result.output),
                ..self
            }
        }
    }

    /// The arguments of a keepalive check; none without a session token.
    pub open spec fn ping_request(self) -> Option<Seq<Seq<char>>> {
        match self.session_token {
            Some(token) => Some(ping_args(text_or_empty(self.username), token)),
            None => None,
        }
    }

    /// The session when a keepalive check starts at `now`: the time of the
    /// attempt is recorded before the backend runs. Without a session token
    /// nothing happens.
    pub open spec fn ping(self, now: int) -> AppView {
        if self.session_token is Some {
            AppView { last_ping_attempt: Some(now), ..self }
        } else {
            self
        }
    }

    /// The session when the backend has answered a keepalive check at `now`.
    /// A success connects, records `now` as the time of the last good check
    /// and clears the last error. A failure disconnects and leaves the output
    /// as the last error, but keeps the session token. The time of the
    /// attempt is not touched. Without a session token nothing happens.
    pub open spec fn finish_ping(self, result: BackendResultView, now: int) -> AppView {
        if self.session_token is None {
            self
        } else if result.ok {
            AppView {
                connected: ConnectionStatus::Connected,
                last_ping_success: Some(now),
                last_error: None,
                ..self
            }
        } else {
            AppView {
                connected: ConnectionStatus::Disconnected,
                last_error: Some(result.output),
                ..self
            }
        }
    }

    /// The session when a new login starts at `now` after a failure: the old
    /// session token is dropped.
    pub open spec fn reconnect(self, now: int) -> AppView {
        AppView { session_token: None, ..self }.login(now)
    }

    /// The arguments of a logout; none without a session token.
    pub open spec fn disconnect_request(self) -> Option<Seq<Seq<char>>> {
        match self.session_token {
            Some(token) => Some(logout_args(text_or_empty(self.username), token)),
            None => None,
        }
    }

    /// The session when the user disconnects. With a session token the
    /// backend is asked to log out and the screen stays; without one there is
    /// nothing to ask, and the program ends.
    pub open spec fn disconnect(self) -> AppView {
        if self.session_token is Some {
            self
        } else {
            self.finish_disconnect()
        }
    }

    /// The session when the backend has answered a logout: the program ends,
    /// whatever the answer was.
    pub open spec fn finish_disconnect(self) -> AppView {
        AppView { screen: Screen::Exit, ..self }
    }

    /// The session when the backend has answered the request `operation`.
    pub open spec fn complete(
        self,
        operation: Operation,
        result: BackendResultView,
        now: int,
    ) -> AppView {
        match operation {
            Operation::Login => self.finish_login(result, now),
            Operation::Ping => self.finish_ping(result, now),
            Operation::Logout => self.finish_disconnect(),
        }
    }

    /// A keepalive check is due at `now`: a login was made, there is a session
    /// token, and the last attempt is at least one ping interval old.
    pub open spec fn keepalive_due(self, now: int) -> bool {
        &&& self.connected != ConnectionStatus::Uninitialized
        &&& self.session_token is Some
        &&& ping_due(now, self.last_ping_attempt, PING_INTERVAL as int)
    }

    /// The session after the tick at `now`: a keepalive check starts if one is due.
    pub open spec fn on_tick(self, now: int) -> AppView {
        if self.keepalive_due(now) {
            self.ping(now)
        } else {
            self
        }
    }

    /// What the tick at `now` asks for: a keepalive check if one is due.
    pub open spec fn on_tick_effects(self, now: int) -> EffectsView {
        if self.keepalive_due(now) {
            EffectsView::call_if(Operation::Ping, self.ping_request())
        } else {
            EffectsView::none()
        }
    }

    /// What the status screen says at `now` of the last keepalive check that
    /// succeeded. Ages are in seconds, clipped to what an `i64` holds.
    pub open spec fn ping_report(self, now: int) -> PingReport {
        match self.last_ping_success {
            None => PingReport::Never,
            Some(at) => {
                let age = clip(elapsed(now, at)) as i64;
                match self.last_ping_attempt {
                    Some(tried) if self.connected != ConnectionStatus::Connected => {
                        PingReport::Stale {
                            at: at as i64,
                            age,
                            attempt_age: clip(elapsed(now, tried)) as i64,
                        }
                    },
                    _ => PingReport::Fresh { at: at as i64, age },
                }
            },
        }
    }

    /// The status menu made anew if the state of the connection is not the
    /// one it was made for. A menu that is up to date is left as it is, with
    /// its selection. Before the first login the menu is never made anew.
    pub open spec fn refresh_status_menu(self) -> AppView {
        if self.status_menu_for == self.connected || self.connected
            == ConnectionStatus::Uninitialized {
            self
        } else {
            AppView {
                status_menu_for: self.connected,
                status_menu: MenuView::new(menu_title(), status_labels(self.connected)),
                ..self
            }
        }
    }

    /// The session after a login with the saved credentials was chosen at `now`.
    pub open spec fn reuse_saved(self, now: int) -> AppView {
        AppView {
            username: Some(self.config.username),
            password: Some(self.config.password),
            screen: Screen::Status,
            ..self
        }.login(now)
    }

    /// The session after the password was submitted at `now`: the two texts
    /// typed are the credentials of the session and the saved credentials, the
    /// status screen is shown, and a login starts.
    pub open spec fn submit_credentials(self, now: int) -> AppView {
        let username = self.username_component.value;
        let password = self.password_component.value;
        AppView {
            username: Some(username),
            password: Some(password),
            config: self.config.with_credentials(username, password),
            screen: Screen::Status,
            ..self
        }.login(now)
    }

    /// The session after a key press on the home screen. `q` quits; Enter
    /// does what the selected entry says, and nothing without a selection;
    /// any other key goes to the menu.
    pub open spec fn home_key(self, code: KeyCode, now: int) -> AppView {
        if code == KeyCode::Char('q') || code == KeyCode::Esc {
            AppView { screen: Screen::Exit, ..self }
        } else if code == KeyCode::Enter {
            match self.menu.selected {
                None => self,
                Some(index) => match home_choice(self.config.has_credentials(), index) {
                    HomeChoice::ReuseSaved => self.reuse_saved(now),
                    HomeChoice::EnterCredentials => AppView { screen: Screen::Credentials, ..self },
                    HomeChoice::ForgetCredentials => AppView {
                        config: self.config.forget(),
                        screen: Screen::Exit,
                        ..self
                    },
                    HomeChoice::Quit => AppView { screen: Screen::Exit, ..self },
                },
            }
        } else {
            AppView { menu: self.menu.handle_key(code), ..self }
        }
    }

    /// What a key press on the home screen asks for: a login where the saved
    /// credentials were chosen, the writing of the credentials file where
    /// they were forgotten.
    pub open spec fn home_key_effects(self, code: KeyCode, now: int) -> EffectsView {
        if code == KeyCode::Enter && self.menu.selected is Some {
            match home_choice(self.config.has_credentials(), self.menu.selected->0) {
                HomeChoice::ReuseSaved => EffectsView::call(
                    Operation::Login,
                    self.reuse_saved(now).login_request(),
                ),
                HomeChoice::ForgetCredentials => EffectsView { save_config: true, call: None },
                _ => EffectsView::none(),
            }
        } else {
            EffectsView::none()
        }
    }

    /// The session after a key press on the credentials screen. The key goes
    /// to the field that is edited. Enter in the user name moves on to the
    /// password; Enter in the password submits both.
    pub open spec fn credentials_key(self, code: KeyCode, now: int) -> AppView {
        match self.step {
            Step::Username => {
                let typed = AppView {
                    username_component: self.username_component.handle_key(code),
                    ..self
                };
                if code == KeyCode::Enter {
                    AppView {
                        password_component: InputView {
                            mode: InputMode::Editing,
                            ..typed.password_component
                        },
                        step: Step::Password,
                        ..typed
                    }
                } else {
                    typed
                }
            },
            Step::Password => {
                let typed = AppView {
                    password_component: self.password_component.handle_key(code),
                    ..self
                };
                if code == KeyCode::Enter {
                    typed.submit_credentials(now)
                } else {
                    typed
                }
            },
        }
    }

    /// What a key press on the credentials screen asks for: when the password
    /// is submitted, the writing of the credentials file and one login.
    pub open spec fn credentials_key_effects(self, code: KeyCode, now: int) -> EffectsView {
        if self.step == Step::Password && code == KeyCode::Enter {
            EffectsView {
                save_config: true,
                call: Some((Operation::Login, self.credentials_key(code, now).login_request())),
            }
        } else {
            EffectsView::none()
        }
    }

    /// What Enter chooses on the status screen: what the selected entry of
    /// the menu, as it was last made, stands for.
    pub open spec fn status_selection(self) -> Option<StatusChoice> {
        match self.status_menu.selected {
            None => None,
            Some(index) => status_choice(self.status_menu_for, index),
        }
    }

    /// The session when the user asks to disconnect on the status screen: the
    /// disconnecting screen is shown and the logout starts.
    pub open spec fn leave(self) -> AppView {
        AppView { screen: Screen::Disconnect, ..self }.disconnect()
    }

    /// The session after a key press on the status screen. `q` disconnects;
    /// Enter does what the selected entry says, and nothing without a
    /// selection; any other key goes to the menu.
    pub open spec fn status_key(self, code: KeyCode, now: int) -> AppView {
        if code == KeyCode::Char('q') || code == KeyCode::Esc {
            self.leave()
        } else if code == KeyCode::Enter {
            match self.status_selection() {
                None => self,
                Some(StatusChoice::Reconnect) => self.reconnect(now),
                Some(StatusChoice::Disconnect) => self.leave(),
            }
        } else {
            AppView { status_menu: self.status_menu.handle_key(code), ..self }
        }
    }

    /// What a key press on the status screen asks for: a logout where the
    /// user disconnects and has a session token, a login where the user
    /// reconnects.
    pub open spec fn status_key_effects(self, code: KeyCode, now: int) -> EffectsView {
        if code == KeyCode::Char('q') || code == KeyCode::Esc {
            EffectsView::call_if(Operation::Logout, self.disconnect_request())
        } else if code == KeyCode::Enter {
            match self.status_selection() {
                None => EffectsView::none(),
                Some(StatusChoice::Reconnect) => EffectsView::call(
                    Operation::Login,
                    self.login_request(),
                ),
                Some(StatusChoice::Disconnect) => EffectsView::call_if(
                    Operation::Logout,
                    self.disconnect_request(),
                ),
            }
        } else {
            EffectsView::none()
        }
    }

    /// The session after a key press on the disconnecting screen: `q` ends
    /// the program at once, other keys change nothing.
    pub open spec fn disconnect_key(self, code: KeyCode) -> AppView {
        if code == KeyCode::Char('q') || code == KeyCode::Esc {
            AppView { screen: Screen::Exit, ..self }
        } else {
            self
        }
    }

    /// The session after the key event `key` at `now`. The press of Escape
    /// ends the program from every screen. Any other press goes to the screen
    /// that is shown; events that are no press change nothing.
    pub open spec fn handle_key_events(self, key: KeyEvent, now: int) -> AppView {
        if key.is_escape() {
            AppView { screen: Screen::Exit, ..self }
        } else if !key.is_press() {
            self
        } else {
            match self.screen {
                Screen::Home => self.home_key(key.code, now),
                Screen::Credentials => self.credentials_key(key.code, now),
                Screen::Status => self.status_key(key.code, now),
                Screen::Disconnect => self.disconnect_key(key.code),
                Screen::Exit => self,
            }
        }
    }

    /// What the key event `key` at `now` asks the caller to do.
    pub open spec fn key_effects(self, key: KeyEvent, now: int) -> EffectsView {
        if key.is_escape() || !key.is_press() {
            EffectsView::none()
        } else {
            match self.screen {
                Screen::Home => self.home_key_effects(key.code, now),
                Screen::Credentials => self.credentials_key_effects(key.code, now),
                Screen::Status => self.status_key_effects(key.code, now),
                Screen::Disconnect => EffectsView::none(),
                Screen::Exit => EffectsView::none(),
            }
        }
    }
}

} // verus!
