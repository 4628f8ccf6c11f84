//! The wire grammar: every verb, every decode error, and the port argument.
use shed::command::{parse_command, DecodeError, Signal, WebCommand};
use shed::daemon::{classify, DaemonFrame};
use shed::web::{Addr, WebConfig};

#[test]
fn parse_list() {
    assert_eq!(parse_command(b"LIST"), Ok(WebCommand::List));
}

#[test]
fn parse_shutdown() {
    assert_eq!(parse_command(b"SHUTDOWN"), Ok(WebCommand::Signal(Signal::Shutdown)));
}

#[test]
fn parse_fetch() {
    assert_eq!(
        parse_command(b"FETCH nws/report"),
        Ok(WebCommand::Fetch(b"nws/report".to_vec()))
    );
}

#[test]
fn parse_signals() {
    assert_eq!(
        parse_command(b"INIT svcA"),
        Ok(WebCommand::Signal(Signal::Init(b"svcA".to_vec())))
    );
    assert_eq!(
        parse_command(b"START svcA"),
        Ok(WebCommand::Signal(Signal::Start(b"svcA".to_vec())))
    );
    assert_eq!(
        parse_command(b"STOP svcA"),
        Ok(WebCommand::Signal(Signal::Stop(b"svcA".to_vec())))
    );
}

#[test]
fn parse_config_port() {
    assert_eq!(
        parse_command(b"CONFIG 8080"),
        Ok(WebCommand::Config(WebConfig { socket: Addr { ip: 0, port: 8080 } }))
    );
    assert_eq!(
        parse_command(b"CONFIG 65535"),
        Ok(WebCommand::Config(WebConfig { socket: Addr { ip: 0, port: 65535 } }))
    );
    assert_eq!(
        parse_command(b"CONFIG 0"),
        Ok(WebCommand::Config(WebConfig { socket: Addr { ip: 0, port: 0 } }))
    );
    // leading zeros are accepted and read in base ten
    assert_eq!(
        parse_command(b"CONFIG 08080"),
        Ok(WebCommand::Config(WebConfig { socket: Addr { ip: 0, port: 8080 } }))
    );
}

#[test]
fn parse_unknown_verb() {
    assert_eq!(parse_command(b"PING"), Err(DecodeError::UnknownVerb));
    assert_eq!(parse_command(b"list"), Err(DecodeError::UnknownVerb));
    assert_eq!(parse_command(b""), Err(DecodeError::UnknownVerb));
    assert_eq!(parse_command(b"STARTX svc"), Err(DecodeError::UnknownVerb));
}

#[test]
fn parse_missing_argument() {
    assert_eq!(parse_command(b"FETCH"), Err(DecodeError::MissingArgument));
    assert_eq!(parse_command(b"FETCH "), Err(DecodeError::MissingArgument));
    assert_eq!(parse_command(b"CONFIG"), Err(DecodeError::MissingArgument));
    assert_eq!(parse_command(b"INIT"), Err(DecodeError::MissingArgument));
    assert_eq!(parse_command(b"START "), Err(DecodeError::MissingArgument));
    assert_eq!(parse_command(b"STOP"), Err(DecodeError::MissingArgument));
}

#[test]
fn parse_unexpected_argument() {
    assert_eq!(parse_command(b"LIST now"), Err(DecodeError::UnexpectedArgument));
    assert_eq!(parse_command(b"SHUTDOWN now"), Err(DecodeError::UnexpectedArgument));
}

#[test]
fn parse_bad_argument() {
    assert_eq!(parse_command(b"CONFIG 65536"), Err(DecodeError::BadArgument));
    assert_eq!(parse_command(b"CONFIG 99999"), Err(DecodeError::BadArgument));
    assert_eq!(parse_command(b"CONFIG 12a"), Err(DecodeError::BadArgument));
    assert_eq!(parse_command(b"CONFIG -1"), Err(DecodeError::BadArgument));
}

#[test]
fn classify_frames() {
    assert_eq!(classify(&WebCommand::List), DaemonFrame::Query);
    assert_eq!(classify(&WebCommand::Fetch(b"r".to_vec())), DaemonFrame::Query);
    assert_eq!(
        classify(&WebCommand::Config(WebConfig { socket: Addr { ip: 0, port: 1 } })),
        DaemonFrame::Command
    );
    assert_eq!(classify(&WebCommand::Signal(Signal::Shutdown)), DaemonFrame::Signal);
}
