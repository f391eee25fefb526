use p2p_file::cli::{CommandParser, ParseError};
use p2p_file::Command;

#[test]
fn parse_connect() {
    let r = CommandParser::parse("connect /ip4/127.0.0.1/tcp/4001").unwrap();
    match r {
        Command::Connect { remote } => assert_eq!(remote.text, "/ip4/127.0.0.1/tcp/4001"),
        _ => panic!("expected a connect command"),
    }
}

#[test]
fn parse_connect_ignores_extra_tokens() {
    let r = CommandParser::parse("connect addr extra tokens").unwrap();
    match r {
        Command::Connect { remote } => assert_eq!(remote.text, "addr"),
        _ => panic!("expected a connect command"),
    }
}

#[test]
fn parse_connect_missing_address() {
    assert_eq!(
        CommandParser::parse("connect").unwrap_err(),
        ParseError::MissingArgument
    );
    assert_eq!(
        CommandParser::parse("connect   ").unwrap_err(),
        ParseError::MissingArgument
    );
}

#[test]
fn parse_command_word_is_a_prefix_of_the_raw_line() {
    // The command word is checked against the untrimmed line, so a line
    // with leading whitespace is an unknown command.
    assert_eq!(
        CommandParser::parse("  connect addr").unwrap_err(),
        ParseError::UnknownCommand
    );
}

#[test]
fn parse_request() {
    let r = CommandParser::parse("request /path/to/file").unwrap();
    match r {
        Command::Request { file_path } => assert_eq!(file_path, "/path/to/file"),
        _ => panic!("expected a request command"),
    }
}

#[test]
fn parse_request_keeps_tail_after_first_space() {
    let r = CommandParser::parse("request  /a b").unwrap();
    match r {
        Command::Request { file_path } => assert_eq!(file_path, " /a b"),
        _ => panic!("expected a request command"),
    }
}

#[test]
fn parse_request_missing_path() {
    assert_eq!(
        CommandParser::parse("request").unwrap_err(),
        ParseError::MissingArgument
    );
}

#[test]
fn parse_send() {
    let r = CommandParser::parse("send hello world").unwrap();
    match r {
        Command::Send { message } => assert_eq!(message, "hello world"),
        _ => panic!("expected a send command"),
    }
}

#[test]
fn parse_send_missing_message() {
    assert_eq!(
        CommandParser::parse("send").unwrap_err(),
        ParseError::MissingArgument
    );
}

#[test]
fn parse_info_and_accept() {
    assert!(matches!(CommandParser::parse("info").unwrap(), Command::Info));
    assert!(matches!(CommandParser::parse("info  ").unwrap(), Command::Info));
    assert!(matches!(CommandParser::parse("accept").unwrap(), Command::Accept));
}

#[test]
fn parse_unknown_command() {
    assert_eq!(
        CommandParser::parse("frobnicate").unwrap_err(),
        ParseError::UnknownCommand
    );
    assert_eq!(CommandParser::parse("").unwrap_err(), ParseError::UnknownCommand);
    assert_eq!(
        CommandParser::parse("informal").unwrap_err(),
        ParseError::UnknownCommand
    );
}
