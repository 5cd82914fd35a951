//! The protocol spoken with the backend program: a request is a list of
//! arguments written to its input, line by line; the answer is its exit
//! status and what it printed.

use crate::text::{
    decimal, decimal_string, join_lines, joined, line_at, nth_line, opt_view, push_char,
    terminate_lines, terminated, views,
};
use vstd::prelude::*;
use vstd::string::*;

verus! {

/// What a request asks the backend to do.
#[derive(Clone, Copy, Debug, PartialEq, Eq, Structural)]
pub enum Operation {
    Login,
    Ping,
    Logout,
}

/// The arguments of one run of the backend; the first names the operation.
#[derive(Debug)]
pub struct BackendRequest {
    pub args: Vec<String>,
}

/// What one run of the backend gave: whether it ended with success, and the
/// lines it printed, joined by line feeds.
#[derive(Debug)]
pub struct BackendResult {
    pub ok: bool,
    pub output: String,
}

/// What a `BackendResult` holds.
pub struct BackendResultView {
    pub ok: bool,
    pub output: Seq<char>,
}

/// The arguments of a login.
pub open spec fn login_args(username: Seq<char>, password: Seq<char>) -> Seq<Seq<char>> {
    seq!["login"@, username, password]
}

/// The arguments of a keepalive check.
pub open spec fn ping_args(username: Seq<char>, token: Seq<char>) -> Seq<Seq<char>> {
    seq!["ping"@, username, token]
}

/// The arguments of a logout.
pub open spec fn logout_args(username: Seq<char>, token: Seq<char>) -> Seq<Seq<char>> {
    seq!["logout"@, username, token]
}

/// The text written to the backend's input: the number of arguments in
/// decimal on a line of its own, then one argument on each line, in order,
/// each line ended by a line feed.
pub open spec fn encode_request(args: Seq<Seq<char>>) -> Seq<char> {
    decimal(args.len()).push('\n') + terminated(args)
}

/// The session token in what a successful login printed: its second line.
pub open spec fn session_token(output: Seq<char>) -> Option<Seq<char>> {
    nth_line(output, 1)
}

/// Whether a process that ended with `exit_code` succeeded; a process that a
/// signal ended has no exit code.
pub open spec fn exit_success(exit_code: Option<i32>) -> bool {
    exit_code == Some(0i32)
}

impl View for BackendRequest {
    type V = Seq<Seq<char>>;

    open spec fn view(&self) -> Seq<Seq<char>> {
        views(self.args@)
    }
}

impl View for BackendResult {
    type V = BackendResultView;

    open spec fn view(&self) -> BackendResultView {
        BackendResultView { ok: self.ok, output: self.output@ }
    }
}

impl BackendRequest {
    /// The request with the operation `name` and its two operands.
    fn with_operands(name: &str, first: &str, second: &str) -> (request: BackendRequest)
        ensures
            request@ == seq![name@, first@, second@],
    {
        let mut args: Vec<String> = Vec::new();
        args.push(String::from_str(name));
        args.push(String::from_str(first));
        args.push(String::from_str(second));
        let request = BackendRequest { args };
        assert(request@ =~= seq![name@, first@, second@]);
        request
    }

    /// The request that logs `username` in.
    pub fn login(username: &str, password: &str) -> (request: BackendRequest)
        ensures
            request@ == login_args(username@, password@),
    {
        Self::with_operands("login", username, password)
    }

    /// The request that checks whether the session `token` of `username` is alive.
    pub fn ping(username: &str, token: &str) -> (request: BackendRequest)
        ensures
            request@ == ping_args(username@, token@),
    {
        Self::with_operands("ping", username, token)
    }

    /// The request that ends the session `token` of `username`.
    pub fn logout(username: &str, token: &str) -> (request: BackendRequest)
        ensures
            request@ == logout_args(username@, token@),
    {
        Self::with_operands("logout", username, token)
    }

    /// The text to write to the backend's input. Nothing is escaped: an
    /// argument that holds a line feed is read back as several.
    pub fn encode(&self) -> (text: String)
        ensures
            text@ == encode_request(self@),
    {
        let mut text = decimal_string(self.args.len());
        push_char(&mut text, '\n');
        let lines = terminate_lines(&self.args);
        text.append(lines.as_str());
        text
    }
}

impl BackendResult {
    /// The result of a run of the backend that ended with `exit_code` after
    /// printing `lines`. The output is kept whatever the exit code, so that a
    /// failure shows what the backend said.
    pub fn from_exit(exit_code: Option<i32>, lines: &Vec<String>) -> (result: BackendResult)
        ensures
            result@ == (BackendResultView {
                ok: exit_success(exit_code),
                output: joined(views(lines@)),
            }),
    {
        let ok = match exit_code {
            Some(code) => code == 0,
            None => false,
        };
        BackendResult { ok, output: join_lines(lines) }
    }

    /// The result of a run that could not be made, or whose input or output
    /// failed: a failure with a text that says what went wrong.
    pub fn failure(diagnostic: String) -> (result: BackendResult)
        ensures
            result@ == (BackendResultView { ok: false, output: diagnostic@ }),
    {
        BackendResult { ok: false, output: diagnostic }
    }

    /// The session token in the output: its second line, if it has one.
    pub fn session_token(&self) -> (token: Option<String>)
        ensures
            opt_view(token) == session_token(self@.output),
    {
        line_at(self.output.as_str(), 1)
    }
}

} // verus!
