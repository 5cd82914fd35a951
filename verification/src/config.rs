//! The saved credentials: what is read from the credentials file and what is
//! written back to it.

use crate::text::{terminate_lines, terminated, views};
use vstd::prelude::*;
use vstd::string::*;

verus! {

/// The saved credentials, with the version of the program that reads them.
/// `update` tells that the file read was written by another version.
#[derive(Debug)]
pub struct Config {
    pub update: bool,
    pub version: String,
    pub username: String,
    pub password: String,
}

/// What a `Config` holds.
pub struct ConfigView {
    pub update: bool,
    pub version: Seq<char>,
    pub username: Seq<char>,
    pub password: Seq<char>,
}

impl ConfigView {
    /// The configuration of a program that found no credentials file, or an
    /// empty one.
    pub open spec fn fresh(version: Seq<char>) -> ConfigView {
        ConfigView { update: false, version, username: Seq::empty(), password: Seq::empty() }
    }

    /// The configuration that the lines of a credentials file give. The first
    /// line is the version that wrote the file; where it is another version
    /// than this one, the file is stale and nothing else is read from it. The
    /// second line is the user name, the third the password; a line that is
    /// missing stands for an empty text, and further lines are ignored.
    pub open spec fn read(version: Seq<char>, lines: Seq<Seq<char>>) -> ConfigView {
        if lines.len() == 0 {
            Self::fresh(version)
        } else if lines[0] != version {
            ConfigView { update: true, ..Self::fresh(version) }
        } else {
            ConfigView {
                update: false,
                version,
                username: if lines.len() > 1 {
                    lines[1]
                } else {
                    Seq::empty()
                },
                password: if lines.len() > 2 {
                    lines[2]
                } else {
                    Seq::empty()
                },
            }
        }
    }

    /// The configuration that `stored` gives, where `stored` holds the lines
    /// of the credentials file if there is one.
    pub open spec fn init(version: Seq<char>, stored: Option<Seq<Seq<char>>>) -> ConfigView {
        match stored {
            None => Self::fresh(version),
            Some(lines) => Self::read(version, lines),
        }
    }

    /// Both a user name and a password are saved.
    pub open spec fn has_credentials(self) -> bool {
        self.username.len() > 0 && self.password.len() > 0
    }

    /// The lines of the credentials file: version, user name, password.
    pub open spec fn lines(self) -> Seq<Seq<char>> {
        seq![self.version, self.username, self.password]
    }

    /// The text of the credentials file: each of its lines followed by a line feed.
    pub open spec fn save(self) -> Seq<char> {
        terminated(self.lines())
    }

    /// The configuration with other credentials.
    pub open spec fn with_credentials(self, username: Seq<char>, password: Seq<char>) -> ConfigView {
        ConfigView { username, password, ..self }
    }

    /// The configuration without credentials.
    pub open spec fn forget(self) -> ConfigView {
        self.with_credentials(Seq::empty(), Seq::empty())
    }
}

impl View for Config {
    type V = ConfigView;

    open spec fn view(&self) -> ConfigView {
        ConfigView {
            update: self.update,
            version: self.version@,
            username: self.username@,
            password: self.password@,
        }
    }
}

/// The views of the lines that were read, if any were.
pub open spec fn stored_view(stored: Option<Vec<String>>) -> Option<Seq<Seq<char>>> {
    match stored {
        None => None,
        Some(lines) => Some(views(lines@)),
    }
}

impl Config {
    /// The configuration of the program of version `version`, from the lines
    /// of its credentials file; `stored` is `None` where there is no such file.
    pub fn init(version: &str, stored: Option<Vec<String>>) -> (config: Config)
        ensures
            config@ == ConfigView::init(version@, stored_view(stored)),
    {
        let version = String::from_str(version);
        let mut update = false;
        let mut username = String::new();
        let mut password = String::new();
        match stored {
            None => {},
            Some(lines) => {
                if lines.len() > 0 {
                    if lines[0] == version {
                        if lines.len() > 1 {
                            username = lines[1].clone();
                        }
                        if lines.len() > 2 {
                            password = lines[2].clone();
                        }
                    } else {
                        update = true;
                    }
                }
            },
        }
        Config { update, username, password, version }
    }

    /// Whether both a user name and a password are saved.
    pub fn has_credentials(&self) -> (saved: bool)
        ensures
            saved == self@.has_credentials(),
    {
        self.username.as_str().unicode_len() > 0 && self.password.as_str().unicode_len() > 0
    }

    /// The text to write to the credentials file.
    pub fn save(&self) -> (text: String)
        ensures
            text@ == self@.save(),
    {
        let mut lines: Vec<String> = Vec::new();
        lines.push(self.version.clone());
        lines.push(self.username.clone());
        lines.push(self.password.clone());
        assert(views(lines@) =~= self@.lines());
        terminate_lines(&lines)
    }

    /// The text of a credentials file that holds the version and nothing else.
    pub fn stamp(&self) -> (text: String)
        ensures
            text@ == terminated(seq![self@.version]),
    {
        let mut lines: Vec<String> = Vec::new();
        lines.push(self.version.clone());
        assert(views(lines@) =~= seq![self@.version]);
        terminate_lines(&lines)
    }

    /// Replaces the saved credentials.
    pub fn remember(&mut self, username: String, password: String)
        ensures
            final(self)@ == old(self)@.with_credentials(username@, password@),
    {
        self.username = username;
        self.password = password;
    }

    /// Drops the saved credentials.
    pub fn forget(&mut self)
        ensures
            final(self)@ == old(self)@.forget(),
    {
        self.username = String::new();
        self.password = String::new();
    }
}

} // verus!
