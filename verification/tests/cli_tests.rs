use expressone::cli::{parse_command, parse_i32, parse_rpm, ConsoleCommand};

#[test]
fn rpm_arguments() {
    assert_eq!(parse_rpm(Some(&"500")), Some(500));
    assert_eq!(parse_rpm(Some(&"-300")), Some(-300));
    assert_eq!(parse_rpm(Some(&"+42")), Some(42));
    assert_eq!(parse_rpm(Some(&"abc")), None);
    assert_eq!(parse_rpm(None), None);
}

#[test]
fn i32_text_edges() {
    for s in ["", "+", "-", "1a", " 1", "1 ", "--1", "+-1", "١"] {
        assert_eq!(parse_i32(s), s.parse::<i32>().ok(), "{:?}", s);
    }
    for s in ["0", "-0", "007", "2147483647", "-2147483648", "2147483648", "-2147483649", "99999999999999999999"] {
        assert_eq!(parse_i32(s), s.parse::<i32>().ok(), "{:?}", s);
    }
}

#[test]
fn console_commands() {
    assert_eq!(parse_command("   "), ConsoleCommand::Empty);
    assert_eq!(parse_command(""), ConsoleCommand::Empty);
    assert_eq!(parse_command("quit"), ConsoleCommand::Quit);
    assert_eq!(parse_command("EXIT"), ConsoleCommand::Quit);
    assert_eq!(parse_command("q"), ConsoleCommand::Quit);
    assert_eq!(parse_command("?"), ConsoleCommand::Help);
    assert_eq!(parse_command("Help me"), ConsoleCommand::Help);
    assert_eq!(parse_command("enable"), ConsoleCommand::Enable);
    assert_eq!(parse_command("disable"), ConsoleCommand::Disable);
    assert_eq!(parse_command("stop"), ConsoleCommand::Stop);
    assert_eq!(parse_command("status"), ConsoleCommand::Status);
    assert_eq!(parse_command("  GO   300 "), ConsoleCommand::Go(Some(300)));
    assert_eq!(parse_command("go"), ConsoleCommand::Go(None));
    assert_eq!(parse_command("go fast"), ConsoleCommand::Go(None));
    assert_eq!(parse_command("back 200"), ConsoleCommand::Back(Some(200)));
    assert_eq!(parse_command("left\t300"), ConsoleCommand::Left(Some(300)));
    assert_eq!(parse_command("right -300"), ConsoleCommand::Right(Some(-300)));
    assert_eq!(parse_command("\u{3000}go\u{3000}5"), ConsoleCommand::Go(Some(5)));
    assert_eq!(parse_command("Jump 3"), ConsoleCommand::Unknown("jump".to_string()));
}
