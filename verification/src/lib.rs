//! Tunnels service traffic over a remote-desktop virtual channel.
//!
//! The crate holds the logic of the tunnel and leaves every read, write,
//! sleep and thread to its caller: the chunk codec, the state of a
//! virtual-channel handle, the decisions of the two pipeline directions and
//! the SOCKS5 frontend.

use vstd::prelude::*;
use vstd::string::*;

pub mod api;
pub mod backend;
pub mod service;
pub mod socks5;
pub mod svc;
pub mod text;

verus! {

/// The name of the virtual channel, as the host knows it.
pub const VIRTUAL_CHANNEL_NAME: &'static str = "SOXY";

/// How much is logged.
#[derive(Clone, Copy, Debug, PartialEq, Eq, Structural)]
pub enum Level {
    Off,
    Error,
    Warn,
    Info,
    Debug,
    Trace,
}

/// The upper-case form of a text, as `str::to_uppercase` gives it.
pub uninterp spec fn uppercase(text: Seq<char>) -> Seq<char>;

/// `str::to_uppercase`: the text with each character replaced by its
/// upper-case form.
#[verifier::external_body]
fn to_uppercase(text: &str) -> (upper: String)
    ensures
        upper@ == uppercase(text@),
{
    text.to_uppercase()
}

/// The level that an upper-case name stands for.
pub open spec fn level_named(name: Seq<char>) -> Option<Level> {
    if name == "OFF"@ {
        Some(Level::Off)
    } else if name == "ERROR"@ {
        Some(Level::Error)
    } else if name == "WARN"@ || name == "WARNING"@ {
        Some(Level::Warn)
    } else if name == "INFO"@ {
        Some(Level::Info)
    } else if name == "DEBUG"@ {
        Some(Level::Debug)
    } else if name == "TRACE"@ {
        Some(Level::Trace)
    } else {
        None
    }
}

fn named(name: &str, literal: &str) -> (same: bool)
    ensures
        same == (name@ == literal@),
{
    String::from_str(name) == String::from_str(literal)
}

impl Level {
    /// The level with the given name, which is in upper case.
    pub fn from_name(name: &str) -> (level: Result<Level, String>)
        ensures
            match level_named(name@) {
                Some(l) => level == Ok::<Level, String>(l),
                None => level is Err && level->Err_0@ == "invalid log level"@,
            },
    {
        if named(name, "OFF") {
            Ok(Level::Off)
        } else if named(name, "ERROR") {
            Ok(Level::Error)
        } else if named(name, "WARN") || named(name, "WARNING") {
            Ok(Level::Warn)
        } else if named(name, "INFO") {
            Ok(Level::Info)
        } else if named(name, "DEBUG") {
            Ok(Level::Debug)
        } else if named(name, "TRACE") {
            Ok(Level::Trace)
        } else {
            Err(String::from_str("invalid log level"))
        }
    }

    /// The level with the given name, in whatever case it is written.
    pub fn try_from(s: &str) -> (level: Result<Level, String>)
        ensures
            match level_named(uppercase(s@)) {
                Some(l) => level == Ok::<Level, String>(l),
                None => level is Err && level->Err_0@ == "invalid log level"@,
            },
    {
        let upper = to_uppercase(s);
        Level::from_name(upper.as_str())
    }
}

/// Where the messages of a process go.
#[derive(Clone, Debug, PartialEq, Eq)]
pub struct Logs {
    /// The terminal shows the messages of this level and of those above.
    pub terminal: Level,
    /// The file that gets the same messages, written anew, if there is one.
    pub file: Option<String>,
    /// The level up to which a message names its thread.
    pub thread: Level,
    /// The level up to which a message names its target.
    pub target: Level,
}

/// Says where the messages go: to the terminal, and to `file` too if one
/// is named, both at `level`. Messages name their thread up to the level
/// of errors, and never their target.
pub fn init_logs(level: Level, file: Option<&String>) -> (logs: Logs)
    ensures
        logs.terminal == level,
        logs.thread == Level::Error,
        logs.target == Level::Off,
        match file {
            Some(path) => logs.file == Some(*path),
            None => logs.file is None,
        },
{
    let file = match file {
        Some(path) => Some(path.clone()),
        None => None,
    };
    Logs { terminal: level, file, thread: Level::Error, target: Level::Off }
}

} // verus!
