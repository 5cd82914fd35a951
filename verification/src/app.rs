//! The session controller: it owns the session and the screens, takes key
//! events, ticks and the answers of the backend, and says after each what the
//! caller has to do next. It never runs the backend or touches a file itself.

use crate::backend::{BackendRequest, BackendResult, Operation};
use crate::clock::{
    is_ping_due, now, seconds_between, time_view, PING_INTERVAL,
};
use crate::components::{Input, InputMode, Menu};
use crate::config::Config;
use crate::keys::{KeyCode, KeyEvent, KeyEventKind};
use crate::laws::key_keeps_well_formed;
use crate::model::{
    home_labels, status_labels, AppView, ConnectionStatus, EffectsView, PingReport, Screen,
    StatusChoice, Step,
};
use crate::text::{opt_view, views};
use vstd::prelude::*;
use vstd::string::*;

verus! {

/// One run of the backend that the caller has to make. Its result goes back
/// to the controller with the same operation.
#[derive(Debug)]
pub struct BackendCall {
    pub operation: Operation,
    pub request: BackendRequest,
}

/// What the caller has to do after a transition: first write the credentials
/// file, if `save_config` is set, then make the call, if there is one.
#[derive(Debug)]
pub struct Effects {
    pub save_config: bool,
    pub call: Option<BackendCall>,
}

/// The view of an optional request.
pub open spec fn request_view(request: Option<BackendRequest>) -> Option<Seq<Seq<char>>> {
    match request {
        Some(r) => Some(r@),
        None => None,
    }
}

impl View for Effects {
    type V = EffectsView;

    open spec fn view(&self) -> EffectsView {
        EffectsView {
            save_config: self.save_config,
            call: match self.call {
                Some(call) => Some((call.operation, call.request@)),
                None => None,
            },
        }
    }
}

impl Effects {
    /// Nothing to do.
    pub fn none() -> (effects: Effects)
        ensures
            effects@ == EffectsView::none(),
    {
        Effects { save_config: false, call: None }
    }

    /// One run of the backend.
    pub fn call(operation: Operation, request: BackendRequest) -> (effects: Effects)
        ensures
            effects@ == EffectsView::call(operation, request@),
    {
        Effects { save_config: false, call: Some(BackendCall { operation, request }) }
    }

    /// One run of the backend, if there is a request.
    pub fn call_if(operation: Operation, request: Option<BackendRequest>) -> (effects: Effects)
        ensures
            effects@ == EffectsView::call_if(operation, request_view(request)),
    {
        match request {
            Some(r) => Self::call(operation, r),
            None => Self::none(),
        }
    }
}

/// The session controller.
pub struct App {
    config: Config,
    screen: Screen,
    username: Option<String>,
    password: Option<String>,
    session_token: Option<String>,
    connected: ConnectionStatus,
    last_login: Option<i64>,
    last_ping_attempt: Option<i64>,
    last_ping_success: Option<i64>,
    last_error: Option<String>,
    step: Step,
    username_component: Input,
    password_component: Input,
    menu: Menu,
    status_menu_for: ConnectionStatus,
    status_menu: Menu,
}

/// The entries of the home menu.
fn home_menu_labels(config: &Config) -> (labels: Vec<String>)
    ensures
        views(labels@) == home_labels(config@),
{
    let mut labels: Vec<String> = Vec::new();
    if config.has_credentials() {
        let reuse = String::from_str("Se connecter (en tant que ").concat(
            config.username.as_str(),
        ).concat(")");
        labels.push(reuse);
        labels.push(String::from_str("Rentrer ses identifiants"));
        labels.push(String::from_str("Oublier les identifiants sauvegardés"));
        labels.push(String::from_str("Quitter"));
    } else {
        labels.push(String::from_str("Rentrer ses identifiants"));
        labels.push(String::from_str("Quitter"));
    }
    assert(views(labels@) =~= home_labels(config@));
    labels
}

/// The entries of the status menu in the state `status`.
fn status_menu_labels(status: ConnectionStatus) -> (labels: Vec<String>)
    ensures
        views(labels@) == status_labels(status),
{
    let mut labels: Vec<String> = Vec::new();
    match status {
        ConnectionStatus::Uninitialized => {
            labels.push(String::from_str("Se déconnecter"));
        },
        ConnectionStatus::Connected => {
            labels.push(String::from_str("Se déconnecter"));
        },
        ConnectionStatus::Disconnected => {
            labels.push(String::from_str("Essayer de se reconnecter"));
            labels.push(String::from_str("Se déconnecter"));
        },
        ConnectionStatus::Connecting => {},
    }
    assert(views(labels@) =~= status_labels(status));
    labels
}

/// The text of `o`, or the empty text.
fn text_or_empty(o: &Option<String>) -> (text: &str)
    ensures
        text@ == crate::model::text_or_empty(opt_view(*o)),
{
    match o {
        Some(text) => text.as_str(),
        None => {
            proof {
                reveal_strlit("");
            }
            assert(""@ =~= Seq::<char>::empty());
            ""
        },
    }
}

impl App {
    /// What the controller holds.
    pub closed spec fn view(&self) -> AppView {
        AppView {
            config: self.config@,
            screen: self.screen,
            username: opt_view(self.username),
            password: opt_view(self.password),
            session_token: opt_view(self.session_token),
            connected: self.connected,
            last_login: time_view(self.last_login),
            last_ping_attempt: time_view(self.last_ping_attempt),
            last_ping_success: time_view(self.last_ping_success),
            last_error: opt_view(self.last_error),
            step: self.step,
            username_component: self.username_component@,
            password_component: self.password_component@,
            menu: self.menu@,
            status_menu_for: self.status_menu_for,
            status_menu: self.status_menu@,
        }
    }

    /// The controller at the start of the program, with the credentials that
    /// were found saved.
    pub fn new(config: Config) -> (app: App)
        ensures
            app@ == AppView::new(config@),
            app@.wf(),
    {
        let home_menu = Menu::new("Actions", home_menu_labels(&config));
        let status_menu = Menu::new("Actions", status_menu_labels(ConnectionStatus::Uninitialized));
        App {
            config,
            screen: Screen::Home,
            username: None,
            password: None,
            session_token: None,
            connected: ConnectionStatus::Uninitialized,
            last_login: None,
            last_ping_attempt: None,
            last_ping_success: None,
            last_error: None,
            step: Step::Username,
            username_component: Input::new("Identifiant", true),
            password_component: Input::new("Mot de passe", false),
            menu: home_menu,
            status_menu_for: ConnectionStatus::Uninitialized,
            status_menu,
        }
    }

    /// Starts a login at `now` with the credentials of the session, and
    /// returns the request to run.
    pub fn login(&mut self, now: i64) -> (request: BackendRequest)
        ensures
            final(self)@ == old(self)@.login(now as int),
            request@ == old(self)@.login_request(),
            old(self)@.wf() ==> final(self)@.wf(),
    {
        self.connected = ConnectionStatus::Connecting;
        self.last_login = Some(now);
        BackendRequest::login(text_or_empty(&self.username), text_or_empty(&self.password))
    }

    /// Takes the answer of the backend to a login, received at `now`.
    pub fn finish_login(&mut self, result: &BackendResult, now: i64)
        ensures
            final(self)@ == old(self)@.finish_login(result@, now as int),
            old(self)@.wf() ==> final(self)@.wf(),
    {
        if result.ok {
            match result.session_token() {
                Some(token) => {
                    self.session_token = Some(token);
                    self.connected = ConnectionStatus::Connected;
                    self.last_ping_success = Some(now);
                    self.last_ping_attempt = Some(now);
                    self.last_error = None;
                },
                None => {
                    self.connected = ConnectionStatus::Disconnected;
                    self.last_error = Some(
                        String::from_str("backend reported success without a session token"),
                    );
                },
            }
        } else {
            self.connected = ConnectionStatus::Disconnected;
            self.last_error = Some(result.output.clone());
        }
    }

    /// Starts a keepalive check at `now` and returns the request to run.
    /// Without a session token nothing is started.
    pub fn ping(&mut self, now: i64) -> (request: Option<BackendRequest>)
        ensures
            final(self)@ == old(self)@.ping(now as int),
            request_view(request) == old(self)@.ping_request(),
            old(self)@.wf() ==> final(self)@.wf(),
    {
        match &self.session_token {
            Some(token) => {
                let request = BackendRequest::ping(text_or_empty(&self.username), token.as_str());
                self.last_ping_attempt = Some(now);
                Some(request)
            },
            None => None,
        }
    }

    /// Takes the answer of the backend to a keepalive check, received at `now`.
    pub fn finish_ping(&mut self, result: &BackendResult, now: i64)
        ensures
            final(self)@ == old(self)@.finish_ping(result@, now as int),
            old(self)@.wf() ==> final(self)@.wf(),
    {
        if self.session_token.is_some() {
            if result.ok {
                self.last_ping_success = Some(now);
                self.last_error = None;
                self.connected = ConnectionStatus::Connected;
            } else {
                self.connected = ConnectionStatus::Disconnected;
                self.last_error = Some(result.output.clone());
            }
        }
    }

    /// Drops the session token, starts a new login at `now` and returns the
    /// request to run.
    pub fn reconnect(&mut self, now: i64) -> (request: BackendRequest)
        ensures
            final(self)@ == old(self)@.reconnect(now as int),
            request@ == old(self)@.login_request(),
            old(self)@.wf() ==> final(self)@.wf(),
    {
        self.connected = ConnectionStatus::Connecting;
        self.session_token = None;
        self.login(now)
    }

    /// Starts the logout and returns the request to run. Without a session
    /// token there is nothing to run, and the program ends at once.
    pub fn disconnect(&mut self) -> (request: Option<BackendRequest>)
        ensures
            final(self)@ == old(self)@.disconnect(),
            request_view(request) == old(self)@.disconnect_request(),
            old(self)@.wf() ==> final(self)@.wf(),
    {
        match &self.session_token {
            Some(token) => Some(
                BackendRequest::logout(text_or_empty(&self.username), token.as_str()),
            ),
            None => {
                self.screen = Screen::Exit;
                None
            },
        }
    }

    /// Takes note that the logout has run: the program ends.
    pub fn finish_disconnect(&mut self)
        ensures
            final(self)@ == old(self)@.finish_disconnect(),
            old(self)@.wf() ==> final(self)@.wf(),
    {
        self.screen = Screen::Exit;
    }

    /// Takes the answer of the backend to the request `operation`, received
    /// at `now`.
    pub fn complete_at(&mut self, operation: Operation, result: &BackendResult, now: i64)
        ensures
            final(self)@ == old(self)@.complete(operation, result@, now as int),
            old(self)@.wf() ==> final(self)@.wf(),
    {
        match operation {
            Operation::Login => self.finish_login(result, now),
            Operation::Ping => self.finish_ping(result, now),
            Operation::Logout => self.finish_disconnect(),
        }
    }

    /// Takes the answer of the backend to the request `operation`, at the
    /// time that the clock shows.
    pub fn complete(&mut self, operation: Operation, result: &BackendResult)
        ensures
            exists|now: int| final(self)@ == old(self)@.complete(operation, result@, now),
            old(self)@.wf() ==> final(self)@.wf(),
    {
        let now = now();
        self.complete_at(operation, result, now);
    }

    /// Whether a keepalive check is due at `now`.
    pub fn keepalive_due(&self, now: i64) -> (due: bool)
        ensures
            due == self@.keepalive_due(now as int),
    {
        !matches!(self.connected, ConnectionStatus::Uninitialized) && self.session_token.is_some()
            && is_ping_due(now, self.last_ping_attempt, PING_INTERVAL)
    }

    /// The tick at `now`: starts a keepalive check if one is due, and returns
    /// the request to run.
    pub fn on_tick_at(&mut self, now: i64) -> (effects: Effects)
        ensures
            final(self)@ == old(self)@.on_tick(now as int),
            effects@ == old(self)@.on_tick_effects(now as int),
            old(self)@.wf() ==> final(self)@.wf(),
    {
        if self.keepalive_due(now) {
            let request = self.ping(now);
            Effects::call_if(Operation::Ping, request)
        } else {
            Effects::none()
        }
    }

    /// The tick at the time that the clock shows.
    pub fn on_tick(&mut self) -> (effects: Effects)
        ensures
            exists|now: int|
                final(self)@ == old(self)@.on_tick(now) && effects@ == old(self)@.on_tick_effects(
                    now,
                ),
            old(self)@.wf() ==> final(self)@.wf(),
    {
        let now = now();
        self.on_tick_at(now)
    }

    /// Makes the status menu anew if the state of the connection has changed
    /// since it was made; to be called before the status screen is drawn.
    pub fn refresh_status_menu(&mut self)
        ensures
            final(self)@ == old(self)@.refresh_status_menu(),
            old(self)@.wf() ==> final(self)@.wf(),
    {
        if self.status_menu_for != self.connected {
            match self.connected {
                ConnectionStatus::Uninitialized => {},
                status => {
                    self.status_menu = Menu::new("Actions", status_menu_labels(status));
                    self.status_menu_for = status;
                },
            }
        }
    }

    /// A key press on the home screen.
    fn home_key(&mut self, key: KeyEvent, now: i64) -> (effects: Effects)
        ensures
            final(self)@ == old(self)@.home_key(key.code, now as int),
            effects@ == old(self)@.home_key_effects(key.code, now as int),
    {
        match key.code {
            KeyCode::Char('q') | KeyCode::Esc => {
                self.screen = Screen::Exit;
                Effects::none()
            },
            KeyCode::Enter => {
                match self.menu.selected {
                    None => Effects::none(),
                    Some(index) => {
                        if self.config.has_credentials() {
                            if index == 0 {
                                self.username = Some(self.config.username.clone());
                                self.password = Some(self.config.password.clone());
                                self.screen = Screen::Status;
                                let request = self.login(now);
                                Effects::call(Operation::Login, request)
                            } else if index == 1 {
                                self.screen = Screen::Credentials;
                                Effects::none()
                            } else if index == 2 {
                                self.config.forget();
                                self.screen = Screen::Exit;
                                Effects { save_config: true, call: None }
                            } else {
                                self.screen = Screen::Exit;
                                Effects::none()
                            }
                        } else {
                            if index == 0 {
                                self.screen = Screen::Credentials;
                            } else {
                                self.screen = Screen::Exit;
                            }
                            Effects::none()
                        }
                    },
                }
            },
            _ => {
                self.menu.handle_key(key);
                Effects::none()
            },
        }
    }

    /// A key press on the credentials screen.
    fn credentials_key(&mut self, key: KeyEvent, now: i64) -> (effects: Effects)
        ensures
            final(self)@ == old(self)@.credentials_key(key.code, now as int),
            effects@ == old(self)@.credentials_key_effects(key.code, now as int),
    {
        match self.step {
            Step::Username => {
                let next = self.username_component.handle_key(key.code);
                if next {
                    self.password_component.mode = InputMode::Editing;
                    self.step = Step::Password;
                }
                Effects::none()
            },
            Step::Password => {
                let next = self.password_component.handle_key(key.code);
                if next {
                    let username = self.username_component.value.clone();
                    let password = self.password_component.value.clone();
                    self.config.remember(username.clone(), password.clone());
                    self.username = Some(username);
                    self.password = Some(password);
                    self.screen = Screen::Status;
                    let request = self.login(now);
                    Effects {
                        save_config: true,
                        call: Some(BackendCall { operation: Operation::Login, request }),
                    }
                } else {
                    Effects::none()
                }
            },
        }
    }

    /// The user asks to disconnect on the status screen.
    fn leave(&mut self) -> (effects: Effects)
        ensures
            final(self)@ == old(self)@.leave(),
            effects@ == EffectsView::call_if(Operation::Logout, old(self)@.disconnect_request()),
    {
        self.screen = Screen::Disconnect;
        let request = self.disconnect();
        Effects::call_if(Operation::Logout, request)
    }

    /// What the selected entry of the status menu stands for.
    fn status_selection(&self) -> (choice: Option<StatusChoice>)
        ensures
            choice == self@.status_selection(),
    {
        match self.status_menu.selected {
            None => None,
            Some(index) => match self.status_menu_for {
                ConnectionStatus::Uninitialized | ConnectionStatus::Connected => if index == 0 {
                    Some(StatusChoice::Disconnect)
                } else {
                    None
                },
                ConnectionStatus::Disconnected => if index == 0 {
                    Some(StatusChoice::Reconnect)
                } else if index == 1 {
                    Some(StatusChoice::Disconnect)
                } else {
                    None
                },
                ConnectionStatus::Connecting => None,
            },
        }
    }

    /// A key press on the status screen.
    fn status_key(&mut self, key: KeyEvent, now: i64) -> (effects: Effects)
        ensures
            final(self)@ == old(self)@.status_key(key.code, now as int),
            effects@ == old(self)@.status_key_effects(key.code, now as int),
    {
        match key.code {
            KeyCode::Char('q') | KeyCode::Esc => self.leave(),
            KeyCode::Enter => {
                match self.status_selection() {
                    None => Effects::none(),
                    Some(StatusChoice::Reconnect) => {
                        let request = self.reconnect(now);
                        Effects::call(Operation::Login, request)
                    },
                    Some(StatusChoice::Disconnect) => self.leave(),
                }
            },
            _ => {
                self.status_menu.handle_key(key);
                Effects::none()
            },
        }
    }

    /// A key press on the disconnecting screen.
    fn disconnect_key(&mut self, key: KeyEvent)
        ensures
            final(self)@ == old(self)@.disconnect_key(key.code),
    {
        match key.code {
            KeyCode::Char('q') | KeyCode::Esc => {
                self.screen = Screen::Exit;
            },
            _ => {},
        }
    }

    /// The key event `key` at `now`. Returns what the caller has to do next.
    pub fn handle_key_events_at(&mut self, key: KeyEvent, now: i64) -> (effects: Effects)
        ensures
            final(self)@ == old(self)@.handle_key_events(key, now as int),
            effects@ == old(self)@.key_effects(key, now as int),
            old(self)@.wf() ==> final(self)@.wf(),
    {
        proof {
            if old(self)@.wf() {
                key_keeps_well_formed(old(self)@, key, now as int);
            }
        }
        if key.kind == KeyEventKind::Press && key.code == KeyCode::Esc {
            self.screen = Screen::Exit;
            return Effects::none();
        }
        if key.kind != KeyEventKind::Press {
            return Effects::none();
        }
        match self.screen {
            Screen::Home => self.home_key(key, now),
            Screen::Credentials => self.credentials_key(key, now),
            Screen::Status => self.status_key(key, now),
            Screen::Disconnect => {
                self.disconnect_key(key);
                Effects::none()
            },
            Screen::Exit => Effects::none(),
        }
    }

    /// The key event `key` at the time that the clock shows. Returns what the
    /// caller has to do next.
    pub fn handle_key_events(&mut self, key: KeyEvent) -> (effects: Effects)
        ensures
            exists|now: int|
                final(self)@ == old(self)@.handle_key_events(key, now) && effects@ == old(
                    self,
                )@.key_effects(key, now),
            old(self)@.wf() ==> final(self)@.wf(),
    {
        let now = now();
        self.handle_key_events_at(key, now)
    }

    /// What the status screen says at `now` of the last keepalive check that
    /// succeeded.
    pub fn ping_report_at(&self, now: i64) -> (report: PingReport)
        ensures
            report == self@.ping_report(now as int),
    {
        match self.last_ping_success {
            None => PingReport::Never,
            Some(at) => {
                let age = seconds_between(now, at);
                match self.last_ping_attempt {
                    Some(tried) => {
                        if self.connected != ConnectionStatus::Connected {
                            PingReport::Stale { at, age, attempt_age: seconds_between(now, tried) }
                        } else {
                            PingReport::Fresh { at, age }
                        }
                    },
                    None => PingReport::Fresh { at, age },
                }
            },
        }
    }

    /// What the status screen says of the last keepalive check that
    /// succeeded, at the time that the clock shows.
    pub fn ping_report(&self) -> (report: PingReport)
        ensures
            exists|now: int| report == self@.ping_report(now),
    {
        let now = now();
        self.ping_report_at(now)
    }

    /// The saved credentials.
    pub fn config(&self) -> (config: &Config)
        ensures
            config@ == self@.config,
    {
        &self.config
    }

    /// The screen that is shown.
    pub fn screen(&self) -> (screen: Screen)
        ensures
            screen == self@.screen,
    {
        self.screen
    }

    /// The state of the connection.
    pub fn connection(&self) -> (connected: ConnectionStatus)
        ensures
            connected == self@.connected,
    {
        self.connected
    }

    /// The user name of the session.
    pub fn username(&self) -> (username: &Option<String>)
        ensures
            opt_view(*username) == self@.username,
    {
        &self.username
    }

    /// The password of the session.
    pub fn password(&self) -> (password: &Option<String>)
        ensures
            opt_view(*password) == self@.password,
    {
        &self.password
    }

    /// The session token, once a login has succeeded.
    pub fn session_token(&self) -> (token: &Option<String>)
        ensures
            opt_view(*token) == self@.session_token,
    {
        &self.session_token
    }

    /// When the last login started.
    pub fn last_login(&self) -> (at: Option<i64>)
        ensures
            time_view(at) == self@.last_login,
    {
        self.last_login
    }

    /// When the last keepalive check started; after a login, when it succeeded.
    pub fn last_ping_attempt(&self) -> (at: Option<i64>)
        ensures
            time_view(at) == self@.last_ping_attempt,
    {
        self.last_ping_attempt
    }

    /// When the backend last confirmed the session.
    pub fn last_ping_success(&self) -> (at: Option<i64>)
        ensures
            time_view(at) == self@.last_ping_success,
    {
        self.last_ping_success
    }

    /// What the backend printed when it last failed.
    pub fn last_error(&self) -> (error: &Option<String>)
        ensures
            opt_view(*error) == self@.last_error,
    {
        &self.last_error
    }

    /// The field of the credentials screen that takes the keys.
    pub fn step(&self) -> (step: Step)
        ensures
            step == self@.step,
    {
        self.step
    }

    /// The input of the user name.
    pub fn username_component(&self) -> (input: &Input)
        ensures
            input@ == self@.username_component,
    {
        &self.username_component
    }

    /// The input of the password.
    pub fn password_component(&self) -> (input: &Input)
        ensures
            input@ == self@.password_component,
    {
        &self.password_component
    }

    /// The menu of the home screen.
    pub fn menu(&self) -> (menu: &Menu)
        ensures
            menu@ == self@.menu,
    {
        &self.menu
    }

    /// The menu of the status screen, and the state of the connection that
    /// it was made for.
    pub fn status_menu(&self) -> (shown: (ConnectionStatus, &Menu))
        ensures
            shown.0 == self@.status_menu_for,
            shown.1@ == self@.status_menu,
    {
        (self.status_menu_for, &self.status_menu)
    }
}

} // verus!
