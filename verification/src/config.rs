//! Settings of the client, and the token that opens the server to it.

use vstd::prelude::*;
use vstd::utf8::{decode_utf8, valid_utf8};
use crate::text::{trim_end, trimmed_end};

verus! {

/// Where the token comes from: written out, or printed by a command.
#[derive(Debug, Clone, PartialEq, Eq)]
pub enum TokenSource {
    /// A command line that prints the token.
    Command(String),
    /// The token itself.
    Plain(String),
}

/// Settings for the connection to the server.
#[derive(Debug, Clone, PartialEq, Eq)]
pub struct GotifyConfig {
    /// Address of the server's stream, with scheme `ws` or `wss`.
    pub url: String,
    /// Where the token comes from.
    pub token: TokenSource,
    /// Whether a message is deleted on the server once it has been handled.
    pub auto_delete: bool,
}

/// Settings for notifications.
#[derive(Debug, Clone, PartialEq, Eq)]
pub struct NotificationConfig {
    /// Messages below this priority are not shown.
    pub min_priority: i64,
}

impl Default for NotificationConfig {
    fn default() -> (config: NotificationConfig)
        ensures
            config.min_priority == 0,
    {
        NotificationConfig { min_priority: 0 }
    }
}

/// Settings for what is done with each message.
#[derive(Debug, Clone, PartialEq, Eq)]
pub struct ActionConfig {
    /// A command line to run for each message.
    pub on_msg_command: Option<String>,
}

impl Default for ActionConfig {
    fn default() -> (config: ActionConfig)
        ensures
            config.on_msg_command is None,
    {
        ActionConfig { on_msg_command: None }
    }
}

/// All the settings.
#[derive(Debug, Clone, PartialEq, Eq)]
pub struct Config {
    pub gotify: GotifyConfig,
    pub notification: NotificationConfig,
    pub action: ActionConfig,
}

/// What is wrong with a command line, or with what a command printed.
#[derive(Debug, Clone, Copy, PartialEq, Eq, Structural)]
pub enum CommandError {
    /// The line cannot be split into words: a quote is left open, or the
    /// line ends in a backslash.
    Unparsable,
    /// The line holds no word.
    Empty,
    /// The command did not end successfully.
    Failed,
    /// What the command printed is not UTF-8.
    NotUtf8,
}

/// The text of each string of a list.
pub open spec fn texts(words: Seq<String>) -> Seq<Seq<char>> {
    words.map_values(|w: String| w@)
}

/// The words that a shell would split `line` into; `None` where the line
/// is malformed.
pub uninterp spec fn shell_words(line: Seq<char>) -> Option<Seq<Seq<char>>>;

/// Splits a line into words with `shlex::split`, which follows the quoting
/// rules of a POSIX shell. The result is that of `shell_words`, which is
/// `None` where `shlex::split` finds the line erroneous.
#[verifier::external_body]
fn split(line: &str) -> (words: Option<Vec<String>>)
    ensures
        match words {
            Some(w) => shell_words(line@) == Some(texts(w@)),
            None => shell_words(line@) is None,
        },
{
    shlex::split(line)
}

/// Turns bytes into text with `String::from_utf8`, which gives the text that
/// the bytes encode when they are valid UTF-8 and fails otherwise.
#[verifier::external_body]
fn from_utf8(bytes: Vec<u8>) -> (decoded: Option<String>)
    ensures
        match decoded {
            Some(s) => valid_utf8(bytes@) && s@ == decode_utf8(bytes@),
            None => !valid_utf8(bytes@),
        },
{
    String::from_utf8(bytes).ok()
}

/// The program and the arguments that `line` stands for.
pub open spec fn command_of(line: Seq<char>) -> Result<(Seq<char>, Seq<Seq<char>>), CommandError> {
    match shell_words(line) {
        None => Err(CommandError::Unparsable),
        Some(words) => if words.len() == 0 {
            Err(CommandError::Empty)
        } else {
            Ok((words.first(), words.drop_first()))
        },
    }
}

/// Splits a command line into the program and its arguments.
pub fn command_line(line: &str) -> (command: Result<(String, Vec<String>), CommandError>)
    ensures
        match command {
            Ok((program, args)) => command_of(line@) == Ok::<_, CommandError>(
                (program@, texts(args@)),
            ),
            Err(e) => command_of(line@) == Err::<(Seq<char>, Seq<Seq<char>>), _>(e),
        },
{
    match split(line) {
        None => Err(CommandError::Unparsable),
        Some(words) => {
            let mut words = words;
            if words.len() == 0 {
                Err(CommandError::Empty)
            } else {
                let ghost all = texts(words@);
                let program = words.remove(0);
                assert(texts(words@) =~= all.drop_first());
                Ok((program, words))
            }
        },
    }
}

/// The token that a command printed: its output without the blanks at the
/// end, provided the command ended successfully and printed UTF-8.
pub open spec fn token_of(success: bool, stdout: Seq<u8>) -> Result<Seq<char>, CommandError> {
    if !success {
        Err(CommandError::Failed)
    } else if !valid_utf8(stdout) {
        Err(CommandError::NotUtf8)
    } else {
        Ok(trimmed_end(decode_utf8(stdout)))
    }
}

/// Reads the token from what the command printed.
pub fn token_from_output(success: bool, stdout: Vec<u8>) -> (token: Result<String, CommandError>)
    ensures
        match token {
            Ok(t) => token_of(success, stdout@) == Ok::<_, CommandError>(t@),
            Err(e) => token_of(success, stdout@) == Err::<Seq<char>, _>(e),
        },
{
    if !success {
        return Err(CommandError::Failed);
    }
    match from_utf8(stdout) {
        None => Err(CommandError::NotUtf8),
        Some(text) => Ok(trim_end(text.as_str())),
    }
}

/// How to get the token.
#[derive(Debug, Clone, PartialEq, Eq)]
pub enum TokenFetch {
    /// The token is known.
    Token { token: String },
    /// Run `program` with `args`; the token is what it prints.
    Run { program: String, args: Vec<String> },
}

/// A `TokenFetch` as plain text.
pub enum TokenFetchView {
    Token { token: Seq<char> },
    Run { program: Seq<char>, args: Seq<Seq<char>> },
}

impl View for TokenFetch {
    type V = TokenFetchView;

    open spec fn view(&self) -> TokenFetchView {
        match *self {
            TokenFetch::Token { token } => TokenFetchView::Token { token: token@ },
            TokenFetch::Run { program, args } => TokenFetchView::Run {
                program: program@,
                args: texts(args@),
            },
        }
    }
}

impl TokenSource {
    /// How to get the token from this source.
    pub open spec fn fetched(self) -> Result<TokenFetchView, CommandError> {
        match self {
            TokenSource::Plain(token) => Ok(TokenFetchView::Token { token: token@ }),
            TokenSource::Command(line) => match command_of(line@) {
                Ok((program, args)) => Ok(TokenFetchView::Run { program, args }),
                Err(e) => Err(e),
            },
        }
    }

    /// Says how to get the token: a plain token is itself, and a command
    /// line is split into the program to run and its arguments.
    pub fn fetch(&self) -> (how: Result<TokenFetch, CommandError>)
        ensures
            match how {
                Ok(h) => self.fetched() == Ok::<_, CommandError>(h@),
                Err(e) => self.fetched() == Err::<TokenFetchView, _>(e),
            },
    {
        match self {
            TokenSource::Plain(token) => Ok(TokenFetch::Token { token: token.clone() }),
            TokenSource::Command(line) => match command_line(line.as_str()) {
                Ok((program, args)) => Ok(TokenFetch::Run { program, args }),
                Err(e) => Err(e),
            },
        }
    }
}

impl ActionConfig {
    /// The command to run for each message, as the program and its
    /// arguments; `None` when no command is set.
    pub open spec fn configured(self) -> Result<
        Option<(Seq<char>, Seq<Seq<char>>)>,
        CommandError,
    > {
        match self.on_msg_command {
            None => Ok(None),
            Some(line) => match command_of(line@) {
                Ok(command) => Ok(Some(command)),
                Err(e) => Err(e),
            },
        }
    }

    /// Splits the command to run for each message into the program and its
    /// arguments.
    pub fn command(&self) -> (command: Result<Option<(String, Vec<String>)>, CommandError>)
        ensures
            self.configured() == match command {
                Ok(Some((program, args))) => Ok::<_, CommandError>(
                    Some((program@, texts(args@))),
                ),
                Ok(None) => Ok(None),
                Err(e) => Err(e),
            },
    {
        match &self.on_msg_command {
            None => Ok(None),
            Some(line) => match command_line(line.as_str()) {
                Ok(found) => Ok(Some(found)),
                Err(e) => Err(e),
            },
        }
    }
}

} // verus!
