use nchat::{Command, FrpCommand, InputHandler};

fn parse(line: &str) -> Command {
    InputHandler.parse_command(line)
}

#[test]
fn plain_commands() {
    assert!(matches!(parse("send"), Command::Send));
    assert!(matches!(parse("  start  "), Command::Start));
    assert!(matches!(parse("stop"), Command::Stop));
    assert!(matches!(parse("status extra"), Command::Status));
    assert!(matches!(parse("version"), Command::Version));
    assert!(matches!(parse("quit"), Command::Quit));
    assert!(matches!(parse("help"), Command::Help));
}

#[test]
fn blank_line_is_empty() {
    assert!(matches!(parse(""), Command::Empty));
    assert!(matches!(parse(" \t "), Command::Empty));
}

#[test]
fn unknown_command_keeps_line() {
    match parse("sned now") {
        Command::Unknown(l) => assert_eq!(l, "sned now"),
        other => panic!("unexpected {:?}", other),
    }
}

#[test]
fn frp_subcommands() {
    assert!(matches!(parse("frp"), Command::Frp(FrpCommand::Help)));
    assert!(matches!(parse("frp init"), Command::Frp(FrpCommand::Init)));
    assert!(matches!(parse("frp start"), Command::Frp(FrpCommand::Start)));
    assert!(matches!(parse("frp stop"), Command::Frp(FrpCommand::Stop)));
    assert!(matches!(parse("frp status"), Command::Frp(FrpCommand::Status)));
    assert!(matches!(parse("frp download"), Command::Frp(FrpCommand::Download)));
    match parse("frp bogus") {
        Command::Frp(FrpCommand::Unknown(w)) => assert_eq!(w, "bogus"),
        other => panic!("unexpected {:?}", other),
    }
}

#[test]
fn frp_config_with_token() {
    match parse("frp config frp.example.com 7000 mytoken") {
        Command::Frp(FrpCommand::Config { server_addr, server_port, token }) => {
            assert_eq!(server_addr, "frp.example.com");
            assert_eq!(server_port, 7000);
            assert_eq!(token.as_deref(), Some("mytoken"));
        }
        other => panic!("unexpected {:?}", other),
    }
}

#[test]
fn frp_config_port_forms() {
    match parse("frp config host +0080") {
        Command::Frp(FrpCommand::Config { server_port, token, .. }) => {
            assert_eq!(server_port, 80);
            assert_eq!(token, None);
        }
        other => panic!("unexpected {:?}", other),
    }
    for bad in ["65536", "-1", "+", "7a"] {
        match parse(&format!("frp config host {}", bad)) {
            Command::Frp(FrpCommand::InvalidPort(p)) => assert_eq!(p, bad),
            other => panic!("unexpected {:?}", other),
        }
    }
}

#[test]
fn frp_config_needs_two_arguments() {
    assert!(matches!(parse("frp config host"), Command::Frp(FrpCommand::ConfigUsage)));
    assert!(matches!(parse("frp config"), Command::Frp(FrpCommand::ConfigUsage)));
}
