//! The commands of the interactive loop, parsed from a line of input.

use crate::text::is_digit;
use vstd::prelude::*;

verus! {

/// The whitespace-separated words of `s`, in order.
pub uninterp spec fn words_of(s: Seq<char>) -> Seq<Seq<char>>;

/// Relies on `str::split_whitespace`: the words of the line depend on its
/// characters alone.
#[verifier::external_body]
fn split_words(s: &str) -> (r: Vec<String>)
    ensures
        r@.map_values(|w: String| w@) == words_of(s@),
{
    s.split_whitespace().map(|w| w.to_string()).collect()
}

/// The value of a string of decimal digits.
pub open spec fn digits_value(s: Seq<char>) -> nat
    decreases s.len(),
{
    if s.len() == 0 {
        0
    } else {
        10 * digits_value(s.drop_last()) + ((s.last() as u32 - '0' as u32) as nat)
    }
}

/// A port number as `u16`'s `FromStr` reads it: an optional `+`, then one
/// or more decimal digits whose value is at most 65535.
pub open spec fn port_of(s: Seq<char>) -> Option<u16> {
    let body = if s.len() > 0 && s[0] == '+' {
        s.drop_first()
    } else {
        s
    };
    if body.len() > 0 && (forall|i: int| 0 <= i < body.len() ==> is_digit(#[trigger] body[i]))
        && digits_value(body) <= 65535 {
        Some(digits_value(body) as u16)
    } else {
        None
    }
}

/// Relies on `<u16 as FromStr>::from_str`: an optional `+` sign, then
/// decimal digits, rejected when empty, when another character occurs, or
/// when the value exceeds `u16::MAX`.
#[verifier::external_body]
fn parse_port(s: &str) -> (r: Option<u16>)
    ensures
        r == port_of(s@),
{
    s.parse::<u16>().ok()
}

/// A subcommand of `frp`.
#[derive(Debug)]
pub enum FrpCommand {
    Help,
    Init,
    Start,
    Stop,
    Status,
    Config { server_addr: String, server_port: u16, token: Option<String> },
    /// `config` with fewer than two arguments.
    ConfigUsage,
    /// `config` whose port does not parse; the text given.
    InvalidPort(String),
    Download,
    /// An unknown subcommand; its word.
    Unknown(String),
}

/// A command of the interactive loop.
#[derive(Debug)]
pub enum Command {
    Send,
    Start,
    Stop,
    Status,
    Version,
    Frp(FrpCommand),
    Quit,
    /// A blank line.
    Empty,
    Help,
    /// An unknown command; the whole line.
    Unknown(String),
}

/// `frp` subcommands as values.
pub ghost enum FrpCommandView {
    Help,
    Init,
    Start,
    Stop,
    Status,
    Config { server_addr: Seq<char>, server_port: u16, token: Option<Seq<char>> },
    ConfigUsage,
    InvalidPort(Seq<char>),
    Download,
    Unknown(Seq<char>),
}

/// Commands as values.
pub ghost enum CommandView {
    Send,
    Start,
    Stop,
    Status,
    Version,
    Frp(FrpCommandView),
    Quit,
    Empty,
    Help,
    Unknown(Seq<char>),
}

impl View for FrpCommand {
    type V = FrpCommandView;

    open spec fn view(&self) -> FrpCommandView {
        match self {
            FrpCommand::Help => FrpCommandView::Help,
            FrpCommand::Init => FrpCommandView::Init,
            FrpCommand::Start => FrpCommandView::Start,
            FrpCommand::Stop => FrpCommandView::Stop,
            FrpCommand::Status => FrpCommandView::Status,
            FrpCommand::Config { server_addr, server_port, token } => FrpCommandView::Config {
                server_addr: server_addr@,
                server_port: *server_port,
                token: match token {
                    Some(t) => Some(t@),
                    None => None,
                },
            },
            FrpCommand::ConfigUsage => FrpCommandView::ConfigUsage,
            FrpCommand::InvalidPort(p) => FrpCommandView::InvalidPort(p@),
            FrpCommand::Download => FrpCommandView::Download,
            FrpCommand::Unknown(w) => FrpCommandView::Unknown(w@),
        }
    }
}

impl View for Command {
    type V = CommandView;

    open spec fn view(&self) -> CommandView {
        match self {
            Command::Send => CommandView::Send,
            Command::Start => CommandView::Start,
            Command::Stop => CommandView::Stop,
            Command::Status => CommandView::Status,
            Command::Version => CommandView::Version,
            Command::Frp(f) => CommandView::Frp(f@),
            Command::Quit => CommandView::Quit,
            Command::Empty => CommandView::Empty,
            Command::Help => CommandView::Help,
            Command::Unknown(l) => CommandView::Unknown(l@),
        }
    }
}

/// The `frp` subcommand given by `args`, the words after `frp`.
pub open spec fn frp_command_of(args: Seq<Seq<char>>) -> FrpCommandView {
    if args.len() == 0 {
        FrpCommandView::Help
    } else if args[0] == "init"@ {
        FrpCommandView::Init
    } else if args[0] == "start"@ {
        FrpCommandView::Start
    } else if args[0] == "stop"@ {
        FrpCommandView::Stop
    } else if args[0] == "status"@ {
        FrpCommandView::Status
    } else if args[0] == "config"@ {
        if args.len() < 3 {
            FrpCommandView::ConfigUsage
        } else {
            match port_of(args[2]) {
                None => FrpCommandView::InvalidPort(args[2]),
                Some(p) => FrpCommandView::Config {
                    server_addr: args[1],
                    server_port: p,
                    token: if args.len() > 3 {
                        Some(args[3])
                    } else {
                        None
                    },
                },
            }
        }
    } else if args[0] == "download"@ {
        FrpCommandView::Download
    } else {
        FrpCommandView::Unknown(args[0])
    }
}

/// The command of a line whose words are `words`; `line` is the line.
pub open spec fn command_of(line: Seq<char>, words: Seq<Seq<char>>) -> CommandView {
    let cmd = if words.len() == 0 {
        Seq::empty()
    } else {
        words[0]
    };
    if cmd == "send"@ {
        CommandView::Send
    } else if cmd == "start"@ {
        CommandView::Start
    } else if cmd == "stop"@ {
        CommandView::Stop
    } else if cmd == "status"@ {
        CommandView::Status
    } else if cmd == "version"@ {
        CommandView::Version
    } else if cmd == "frp"@ {
        CommandView::Frp(frp_command_of(words.drop_first()))
    } else if cmd == "quit"@ {
        CommandView::Quit
    } else if cmd.len() == 0 {
        CommandView::Empty
    } else if cmd == "help"@ {
        CommandView::Help
    } else {
        CommandView::Unknown(line)
    }
}

fn is_word(w: &String, lit: &str) -> (r: bool)
    ensures
        r == (w@ == lit@),
{
    let l = String::from_str(lit);
    *w == l
}

fn copy_string(w: &String) -> (r: String)
    ensures
        r@ == w@,
{
    String::from_str(w.as_str())
}

fn parse_frp(words: &Vec<String>) -> (r: FrpCommand)
    requires
        words@.len() >= 1,
    ensures
        r@ == frp_command_of(words@.map_values(|w: String| w@).drop_first()),
{
    let ghost args = words@.map_values(|w: String| w@).drop_first();
    let n = words.len();
    assert(args.len() == n - 1);
    if n == 1 {
        return FrpCommand::Help;
    }
    let a = &words[1];
    assert(args[0] == a@);
    if is_word(a, "init") {
        FrpCommand::Init
    } else if is_word(a, "start") {
        FrpCommand::Start
    } else if is_word(a, "stop") {
        FrpCommand::Stop
    } else if is_word(a, "status") {
        FrpCommand::Status
    } else if is_word(a, "config") {
        if n < 4 {
            FrpCommand::ConfigUsage
        } else {
            assert(args[1] == words@[2]@ && args[2] == words@[3]@);
            match parse_port(words[3].as_str()) {
                None => FrpCommand::InvalidPort(copy_string(&words[3])),
                Some(p) => {
                    let token = if n > 4 {
                        assert(args[3] == words@[4]@);
                        Some(copy_string(&words[4]))
                    } else {
                        None
                    };
                    FrpCommand::Config {
                        server_addr: copy_string(&words[2]),
                        server_port: p,
                        token,
                    }
                },
            }
        }
    } else if is_word(a, "download") {
        FrpCommand::Download
    } else {
        FrpCommand::Unknown(copy_string(a))
    }
}

/// The reader of the interactive loop's commands.
pub struct InputHandler;

impl InputHandler {
    /// The command that `command`, a line of input, names: by its first
    /// word, with the words after `frp` naming a subcommand.
    pub fn parse_command(&self, command: &str) -> (r: Command)
        ensures
            r@ == command_of(command@, words_of(command@)),
    {
        let words = split_words(command);
        let ghost ws = words@.map_values(|w: String| w@);
        if words.len() == 0 {
            proof {
                reveal_strlit("send");
                reveal_strlit("start");
                reveal_strlit("stop");
                reveal_strlit("status");
                reveal_strlit("version");
                reveal_strlit("frp");
                reveal_strlit("quit");
            }
            return Command::Empty;
        }
        let w = &words[0];
        assert(ws[0] == w@);
        if is_word(w, "send") {
            Command::Send
        } else if is_word(w, "start") {
            Command::Start
        } else if is_word(w, "stop") {
            Command::Stop
        } else if is_word(w, "status") {
            Command::Status
        } else if is_word(w, "version") {
            Command::Version
        } else if is_word(w, "frp") {
            Command::Frp(parse_frp(&words))
        } else if is_word(w, "quit") {
            Command::Quit
        } else if w.as_str().unicode_len() == 0 {
            Command::Empty
        } else if is_word(w, "help") {
            Command::Help
        } else {
            Command::Unknown(String::from_str(command))
        }
    }
}

} // verus!
