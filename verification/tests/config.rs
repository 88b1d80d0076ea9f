use gotify_desktop::config::{
    command_line,
    token_from_output,
    ActionConfig,
    CommandError,
    NotificationConfig,
    TokenFetch,
    TokenSource,
};

#[test]
fn fetch_token() {
    assert_eq!(
        TokenSource::Plain("abcdef1234".to_owned()).fetch().unwrap(),
        TokenFetch::Token { token: "abcdef1234".to_owned() }
    );
    let how = TokenSource::Command("echo abcdef1234".to_owned()).fetch().unwrap();
    assert_eq!(
        how,
        TokenFetch::Run { program: "echo".to_owned(), args: vec!["abcdef1234".to_owned()] }
    );
    assert_eq!(token_from_output(true, b"abcdef1234\n".to_vec()).unwrap(), "abcdef1234");
}

#[test]
fn command_line_follows_shell_quoting() {
    assert_eq!(
        command_line("notify-send 'a b' \"c d\" e\\ f"),
        Ok(("notify-send".to_owned(), vec!["a b".to_owned(), "c d".to_owned(), "e f".to_owned()]))
    );
    assert_eq!(command_line("  pass   show  gotify "), Ok((
        "pass".to_owned(),
        vec!["show".to_owned(), "gotify".to_owned()]
    )));
    assert_eq!(command_line("single"), Ok(("single".to_owned(), Vec::new())));
}

#[test]
fn command_line_with_open_quote_is_refused() {
    assert_eq!(command_line("echo 'open"), Err(CommandError::Unparsable));
    assert_eq!(command_line("echo \"open"), Err(CommandError::Unparsable));
    assert_eq!(command_line("echo trailing\\"), Err(CommandError::Unparsable));
}

#[test]
fn empty_command_line_is_refused() {
    assert_eq!(command_line(""), Err(CommandError::Empty));
    assert_eq!(command_line("   "), Err(CommandError::Empty));
    assert_eq!(command_line("# only a comment"), Err(CommandError::Empty));
}

#[test]
fn token_source_with_bad_command() {
    assert_eq!(
        TokenSource::Command("".to_owned()).fetch(),
        Err(CommandError::Empty)
    );
    assert_eq!(
        TokenSource::Command("cat 'token".to_owned()).fetch(),
        Err(CommandError::Unparsable)
    );
}

#[test]
fn plain_token_is_taken_as_it_is() {
    assert_eq!(
        TokenSource::Plain(" spaced 'token \n".to_owned()).fetch(),
        Ok(TokenFetch::Token { token: " spaced 'token \n".to_owned() })
    );
}

#[test]
fn token_is_the_trimmed_output() {
    assert_eq!(token_from_output(true, b"secret \t\r\n\n".to_vec()), Ok("secret".to_owned()));
    assert_eq!(token_from_output(true, b"  lead".to_vec()), Ok("  lead".to_owned()));
    assert_eq!(token_from_output(true, Vec::new()), Ok(String::new()));
    assert_eq!(token_from_output(true, "clé\n".as_bytes().to_vec()), Ok("clé".to_owned()));
}

#[test]
fn token_of_a_failed_command_is_refused() {
    assert_eq!(token_from_output(false, b"secret\n".to_vec()), Err(CommandError::Failed));
    assert_eq!(token_from_output(false, vec![0xff]), Err(CommandError::Failed));
}

#[test]
fn token_that_is_not_utf8_is_refused() {
    assert_eq!(token_from_output(true, vec![0x61, 0xff, 0x62]), Err(CommandError::NotUtf8));
    assert_eq!(token_from_output(true, vec![0xc3]), Err(CommandError::NotUtf8));
}

#[test]
fn action_command_is_split() {
    let action = ActionConfig { on_msg_command: Some("mpv --no-video 'bell sound.ogg'".to_owned()) };
    assert_eq!(
        action.command(),
        Ok(Some(("mpv".to_owned(), vec!["--no-video".to_owned(), "bell sound.ogg".to_owned()])))
    );
    assert_eq!(ActionConfig::default().command(), Ok(None));
    assert_eq!(
        ActionConfig { on_msg_command: Some(" ".to_owned()) }.command(),
        Err(CommandError::Empty)
    );
    assert_eq!(
        ActionConfig { on_msg_command: Some("a 'b".to_owned()) }.command(),
        Err(CommandError::Unparsable)
    );
}

#[test]
fn defaults() {
    assert_eq!(NotificationConfig::default().min_priority, 0);
    assert_eq!(ActionConfig::default().on_msg_command, None);
}
