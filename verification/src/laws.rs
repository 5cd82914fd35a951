//! What holds of the session controller whatever happens to it.

use crate::backend::{encode_request, session_token, BackendResultView, Operation};
use crate::clock::PING_INTERVAL;
use crate::config::ConfigView;
use crate::text::{
    decimal, lemma_split_terminated, lemma_terminated_cons, single_line, split_lines, strip_cr,
};
use crate::components::{InputView, MenuView};
use crate::keys::{KeyCode, KeyEvent, KeyEventKind};
use crate::model::{AppView, ConnectionStatus, EffectsView, Screen, Step};
use vstd::prelude::*;

verus! {

/// `a` is not later than `b`; a time that is not set is before every time.
pub open spec fn not_later(a: Option<int>, b: Option<int>) -> bool {
    match (a, b) {
        (None, _) => true,
        (Some(_), None) => false,
        (Some(x), Some(y)) => x <= y,
    }
}

/// One tick of the clock, and what the backend answered at `answered_at` in
/// case the tick started a keepalive check.
pub struct Tick {
    pub at: int,
    pub answer: BackendResultView,
    pub answered_at: int,
}

/// The session after one tick, with the answer of the backend taken in
/// where the tick started a keepalive check.
pub open spec fn after_tick(session: AppView, tick: Tick) -> AppView {
    if session.keepalive_due(tick.at) {
        session.on_tick(tick.at).finish_ping(tick.answer, tick.answered_at)
    } else {
        session
    }
}

/// The session after a run of ticks.
pub open spec fn after_ticks(session: AppView, ticks: Seq<Tick>) -> AppView
    decreases ticks.len(),
{
    if ticks.len() == 0 {
        session
    } else {
        after_tick(after_ticks(session, ticks.drop_last()), ticks.last())
    }
}

/// One keepalive check: when it started, what the backend answered, and when.
pub struct Attempt {
    pub started: int,
    pub answer: BackendResultView,
    pub answered: int,
}

/// The session after a run of keepalive checks, each started and answered.
pub open spec fn after_pings(session: AppView, attempts: Seq<Attempt>) -> AppView
    decreases attempts.len(),
{
    if attempts.len() == 0 {
        session
    } else {
        let attempt = attempts.last();
        after_pings(session, attempts.drop_last()).ping(attempt.started).finish_ping(
            attempt.answer,
            attempt.answered,
        )
    }
}

/// The checks start in the order of their times, none before `from`.
pub open spec fn starts_in_order(from: Option<int>, attempts: Seq<Attempt>) -> bool {
    &&& forall|i: int|
        0 <= i < attempts.len() ==> not_later(from, Some(#[trigger] attempts[i].started))
    &&& forall|i: int, j: int|
        0 <= i <= j < attempts.len() ==> attempts[i].started <= attempts[j].started
}

/// A key never moves the cursor of an input out of its text.
pub proof fn input_key_keeps_cursor_inside(input: InputView, code: KeyCode)
    requires
        input.wf(),
    ensures
        input.handle_key(code).wf(),
{
}

/// A character that was typed is taken out again by the next Backspace: the
/// text and the cursor are what they were.
pub proof fn backspace_undoes_typing(input: InputView, c: char)
    requires
        input.wf(),
    ensures
        input.enter_char(c).delete_char() == input,
        input.handle_key(KeyCode::Char(c)).handle_key(KeyCode::Backspace) == input,
{
    let at = input.index as int;
    let typed = input.enter_char(c);
    assert(typed.value.take(at) =~= input.value.take(at));
    assert(typed.value.skip(at + 1) =~= input.value.skip(at));
    assert(input.value.take(at) + input.value.skip(at) =~= input.value);
}

/// A key never moves the selection of a menu out of its entries, and never
/// changes the entries.
pub proof fn menu_key_keeps_selection_inside(menu: MenuView, code: KeyCode)
    requires
        menu.wf(),
    ensures
        menu.handle_key(code).wf(),
        menu.handle_key(code).options == menu.options,
        menu.handle_key(code).title == menu.title,
{
}

/// The session at the start of the program is well formed.
pub proof fn new_is_well_formed(config: ConfigView)
    ensures
        AppView::new(config).wf(),
{
}

/// Every transition of the connection leaves a well-formed session well
/// formed: a connected session always has its token, and a session that
/// never logged in has none.
pub proof fn connection_keeps_well_formed(
    session: AppView,
    operation: Operation,
    result: BackendResultView,
    now: int,
)
    requires
        session.wf(),
    ensures
        session.login(now).wf(),
        session.finish_login(result, now).wf(),
        session.ping(now).wf(),
        session.finish_ping(result, now).wf(),
        session.reconnect(now).wf(),
        session.disconnect().wf(),
        session.finish_disconnect().wf(),
        session.complete(operation, result, now).wf(),
        session.on_tick(now).wf(),
        session.refresh_status_menu().wf(),
{
}

/// Every key event leaves a well-formed session well formed.
pub proof fn key_keeps_well_formed(session: AppView, key: KeyEvent, now: int)
    requires
        session.wf(),
    ensures
        session.handle_key_events(key, now).wf(),
{
    input_key_keeps_cursor_inside(session.username_component, key.code);
    input_key_keeps_cursor_inside(session.password_component, key.code);
    menu_key_keeps_selection_inside(session.menu, key.code);
    menu_key_keeps_selection_inside(session.status_menu, key.code);
}

/// The time of the last ping attempt is set when the check starts, before
/// its outcome is known, and the outcome does not touch it.
pub proof fn ping_attempt_is_set_before_outcome(
    session: AppView,
    started: int,
    result: BackendResultView,
    answered: int,
)
    requires
        session.session_token is Some,
    ensures
        session.ping(started).last_ping_attempt == Some(started),
        session.ping(started).finish_ping(result, answered).last_ping_attempt == Some(started),
{
}

/// The time of the last good check moves only when the backend confirms the
/// session: neither the start of a check nor a failure touches it.
pub proof fn ping_success_moves_only_on_success(
    session: AppView,
    started: int,
    output: Seq<char>,
    answered: int,
)
    ensures
        session.ping(started).last_ping_success == session.last_ping_success,
        session.finish_ping(BackendResultView { ok: false, output }, answered).last_ping_success
            == session.last_ping_success,
        session.finish_login(BackendResultView { ok: false, output }, answered).last_ping_success
            == session.last_ping_success,
        session.session_token is Some ==> session.finish_ping(
            BackendResultView { ok: true, output },
            answered,
        ).last_ping_success == Some(answered),
{
}

/// A keepalive check that starts no earlier than the last attempt does not
/// move the time of the last attempt back.
pub proof fn ping_attempt_does_not_go_back(session: AppView, now: int)
    requires
        session.last_ping_attempt matches Some(last) ==> last <= now,
    ensures
        not_later(session.last_ping_attempt, session.ping(now).last_ping_attempt),
{
}

/// After a run of keepalive checks the time of the last attempt is the start
/// of the last check, or what it was before the run if the session has no
/// token or the run is empty.
pub proof fn last_attempt_is_last_start(session: AppView, attempts: Seq<Attempt>)
    ensures
        after_pings(session, attempts).session_token == session.session_token,
        after_pings(session, attempts).last_ping_attempt == if session.session_token is Some
            && attempts.len() > 0 {
            Some(attempts.last().started)
        } else {
            session.last_ping_attempt
        },
    decreases attempts.len(),
{
    if attempts.len() > 0 {
        last_attempt_is_last_start(session, attempts.drop_last());
    }
}

/// Over any run of keepalive checks that start in the order of their times,
/// none before the last attempt of the session, the time of the last attempt
/// never decreases, whatever the backend answers.
pub proof fn ordered_pings_never_decrease(
    session: AppView,
    attempts: Seq<Attempt>,
    i: int,
    j: int,
)
    requires
        starts_in_order(session.last_ping_attempt, attempts),
        0 <= i <= j <= attempts.len(),
    ensures
        not_later(
            after_pings(session, attempts.take(i)).last_ping_attempt,
            after_pings(session, attempts.take(j)).last_ping_attempt,
        ),
{
    last_attempt_is_last_start(session, attempts.take(i));
    last_attempt_is_last_start(session, attempts.take(j));
    if i > 0 {
        assert(attempts.take(i).last() == attempts[i - 1]);
    }
    if j > 0 {
        assert(attempts.take(j).last() == attempts[j - 1]);
    }
}

/// A tick never moves the time of the last ping attempt back, whatever the
/// clock shows: a check only starts a whole interval after the last attempt.
pub proof fn tick_does_not_move_attempt_back(session: AppView, tick: Tick)
    ensures
        not_later(session.last_ping_attempt, after_tick(session, tick).last_ping_attempt),
{
}

/// Over any run of ticks, with any answers of the backend, the time of the
/// last ping attempt never decreases: what it is after the first `i` ticks is
/// not later than what it is after the first `j`, for `i <= j`.
pub proof fn ping_attempts_never_decrease(
    session: AppView,
    ticks: Seq<Tick>,
    i: int,
    j: int,
)
    requires
        0 <= i <= j <= ticks.len(),
    ensures
        not_later(
            after_ticks(session, ticks.take(i)).last_ping_attempt,
            after_ticks(session, ticks.take(j)).last_ping_attempt,
        ),
    decreases j - i,
{
    if i < j {
        let shorter = ticks.take(j - 1);
        let longer = ticks.take(j);
        assert(longer.drop_last() =~= shorter);
        ping_attempts_never_decrease(session, ticks, i, j - 1);
        tick_does_not_move_attempt_back(after_ticks(session, shorter), longer.last());
    }
}

/// A keepalive check that fails disconnects the session, records the output
/// as the last error, and keeps the session token.
pub proof fn failed_ping_keeps_token(session: AppView, output: Seq<char>, now: int)
    requires
        session.session_token is Some,
    ensures
        ({
            let after = session.finish_ping(BackendResultView { ok: false, output }, now);
            &&& after.session_token == session.session_token
            &&& after.connected == ConnectionStatus::Disconnected
            &&& after.last_error == Some(output)
        }),
{
}

/// Making the status menu anew twice is making it anew once, and a menu that
/// was made for the present state of the connection is left as it is, with
/// its selection.
pub proof fn refresh_is_idempotent(session: AppView)
    ensures
        session.refresh_status_menu().refresh_status_menu() == session.refresh_status_menu(),
        session.status_menu_for == session.connected ==> session.refresh_status_menu() == session,
        session.refresh_status_menu().connected == session.connected,
{
}

/// Submitting the password on the credentials screen shows the status screen
/// and asks for exactly one run of the backend: the login with the two texts
/// that were typed.
pub proof fn submitting_credentials_logs_in_once(session: AppView, now: int)
    requires
        session.screen == Screen::Credentials,
        session.step == Step::Password,
    ensures
        ({
            let key = KeyEvent { code: KeyCode::Enter, kind: KeyEventKind::Press };
            let after = session.handle_key_events(key, now);
            let effects = session.key_effects(key, now);
            &&& after.screen == Screen::Status
            &&& after.connected == ConnectionStatus::Connecting
            &&& effects.call == Some(
                (
                    Operation::Login,
                    crate::backend::login_args(
                        session.username_component.value,
                        session.password_component.value,
                    ),
                ),
            )
        }),
{
}

/// On the home screen of a user without saved credentials, Enter on the
/// first entry, the only one that does not quit, shows the credentials screen
/// and asks for nothing.
pub proof fn first_entry_opens_credentials(session: AppView, now: int)
    requires
        session.screen == Screen::Home,
        !session.config.has_credentials(),
        session.menu.selected == Some(0nat),
    ensures
        ({
            let key = KeyEvent { code: KeyCode::Enter, kind: KeyEventKind::Press };
            &&& session.handle_key_events(key, now) == (AppView {
                screen: Screen::Credentials,
                ..session
            })
            &&& session.key_effects(key, now) == EffectsView::none()
        }),
{
}

/// Once a login was made, a keepalive check is due exactly from one ping
/// interval after the last attempt on, as long as there is a session token.
pub proof fn keepalive_is_due_from_the_interval_on(session: AppView, last: int, now: int)
    requires
        session.connected != ConnectionStatus::Uninitialized,
        session.session_token is Some,
        session.last_ping_attempt == Some(last),
    ensures
        session.keepalive_due(now) <==> now >= last + PING_INTERVAL,
{
}

/// The outcome of a keepalive check does not change when the next one is
/// due: one ping interval after the attempt, after a failure as after a success.
pub proof fn retry_does_not_depend_on_outcome(
    session: AppView,
    started: int,
    result: BackendResultView,
    answered: int,
    now: int,
)
    requires
        session.connected != ConnectionStatus::Uninitialized,
        session.session_token is Some,
    ensures
        session.ping(started).finish_ping(result, answered).keepalive_due(now) <==> now
            >= started + PING_INTERVAL,
{
}

/// The last error is cleared by every answer of the backend that counts as
/// a success, and set by every one that counts as a failure.
pub proof fn last_error_follows_outcome(session: AppView, result: BackendResultView, now: int)
    ensures
        session.finish_login(result, now).last_error is None <==> result.ok && session_token(
            result.output,
        ) is Some,
        !result.ok ==> session.finish_login(result, now).last_error == Some(result.output),
        session.session_token is Some ==> (session.finish_ping(result, now).last_error is None
            <==> result.ok),
        session.session_token is Some && !result.ok ==> session.finish_ping(
            result,
            now,
        ).last_error == Some(result.output),
{
}

/// No transition leads back to the state before the first login, and only
/// the start of a login leaves it.
pub proof fn uninitialized_is_only_left_by_login(
    session: AppView,
    key: KeyEvent,
    operation: Operation,
    result: BackendResultView,
    now: int,
)
    ensures
        session.connected != ConnectionStatus::Uninitialized ==> {
            &&& session.handle_key_events(key, now).connected != ConnectionStatus::Uninitialized
            &&& session.complete(operation, result, now).connected
                != ConnectionStatus::Uninitialized
            &&& session.on_tick(now).connected != ConnectionStatus::Uninitialized
            &&& session.refresh_status_menu().connected != ConnectionStatus::Uninitialized
        },
        session.wf() && session.connected == ConnectionStatus::Uninitialized ==> {
            &&& session.on_tick(now) == session
            &&& session.finish_ping(result, now) == session
            &&& session.refresh_status_menu() == session
            &&& session.handle_key_events(key, now).connected == ConnectionStatus::Uninitialized
                || session.handle_key_events(key, now).connected == ConnectionStatus::Connecting
        },
{
}

/// The exit screen is final: no event leads away from it.
pub proof fn exit_is_final(
    session: AppView,
    key: KeyEvent,
    operation: Operation,
    result: BackendResultView,
    now: int,
)
    requires
        session.screen == Screen::Exit,
    ensures
        session.handle_key_events(key, now) == session,
        session.key_effects(key, now) == EffectsView::none(),
        session.complete(operation, result, now).screen == Screen::Exit,
        session.on_tick(now).screen == Screen::Exit,
        session.refresh_status_menu().screen == Screen::Exit,
{
}

/// Only key events and the end of a logout change the screen.
pub proof fn answers_and_ticks_keep_the_screen(
    session: AppView,
    result: BackendResultView,
    now: int,
)
    ensures
        session.finish_login(result, now).screen == session.screen,
        session.finish_ping(result, now).screen == session.screen,
        session.on_tick(now).screen == session.screen,
        session.refresh_status_menu().screen == session.screen,
        session.finish_disconnect().screen == Screen::Exit,
{
}

/// A line that can be written and read back as it is: it holds no line
/// feed and does not end in a carriage return.
pub open spec fn plain_line(line: Seq<char>) -> bool {
    single_line(line) && strip_cr(line) == line
}

/// A number in decimal is written with digits only.
pub proof fn decimal_holds_digits(n: nat)
    ensures
        decimal(n).len() > 0,
        forall|i: int|
            0 <= i < decimal(n).len() ==> '0' <= #[trigger] decimal(n)[i] && decimal(n)[i] <= '9',
        plain_line(decimal(n)),
    decreases n,
{
    if n >= 10 {
        decimal_holds_digits(n / 10);
    }
}

/// What is written to the backend reads back, line by line, as the number of
/// arguments followed by the arguments in their order, provided that no
/// argument holds a line feed or ends in a carriage return.
pub proof fn encoded_request_reads_back(args: Seq<Seq<char>>)
    requires
        forall|i: int| 0 <= i < args.len() ==> plain_line(#[trigger] args[i]),
    ensures
        split_lines(encode_request(args)) == seq![decimal(args.len())] + args,
{
    let count = decimal(args.len());
    let lines = seq![count] + args;
    decimal_holds_digits(args.len());
    lemma_terminated_cons(count, args);
    assert forall|i: int| 0 <= i < lines.len() implies single_line(#[trigger] lines[i]) by {
        if i > 0 {
            assert(lines[i] == args[i - 1]);
        }
    }
    assert forall|i: int| 0 <= i < lines.len() implies strip_cr(#[trigger] lines[i])
        == lines[i] by {
        if i > 0 {
            assert(lines[i] == args[i - 1]);
        }
    }
    lemma_split_terminated(lines);
}

/// The credentials file that is written reads back as the credentials that
/// were saved, provided that the version, the user name and the password
/// hold no line feed and do not end in a carriage return.
pub proof fn saved_config_reads_back(config: ConfigView)
    requires
        plain_line(config.version),
        plain_line(config.username),
        plain_line(config.password),
    ensures
        ConfigView::read(config.version, split_lines(config.save())) == (ConfigView {
            update: false,
            ..config
        }),
{
    lemma_split_terminated(config.lines());
}

} // verus!
