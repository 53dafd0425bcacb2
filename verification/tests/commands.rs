use amogus_bot::command::{Command, CommandParseError};

fn arg_of(c: &Command) -> Option<&str> {
    match c {
        Command::Help | Command::Shorts => None,
        Command::YtDownload(s)
        | Command::YtAudio(s)
        | Command::Xkcd(s)
        | Command::Nhentai(s)
        | Command::Reddit(s)
        | Command::Urban(s)
        | Command::Gpt(s) => Some(s.as_str()),
    }
}

#[test]
fn parse_unit_commands() {
    assert!(matches!(Command::parse("/help", "bot"), Ok(Command::Help)));
    assert!(matches!(Command::parse("/shorts", "bot"), Ok(Command::Shorts)));
    assert!(matches!(Command::parse("/help extra words", "bot"), Ok(Command::Help)));
}

#[test]
fn parse_commands_with_argument() {
    match Command::parse("/xkcd 327", "bot") {
        Ok(Command::Xkcd(s)) => assert_eq!(s, "327"),
        _ => panic!("expected xkcd"),
    }
    match Command::parse("/gpt once upon a time", "bot") {
        Ok(Command::Gpt(s)) => assert_eq!(s, "once upon a time"),
        _ => panic!("expected gpt"),
    }
    match Command::parse("/urban", "bot") {
        Ok(Command::Urban(s)) => assert_eq!(s, ""),
        _ => panic!("expected urban"),
    }
    match Command::parse("/reddit  aww", "bot") {
        Ok(Command::Reddit(s)) => assert_eq!(s, " aww"),
        _ => panic!("expected reddit"),
    }
}

#[test]
fn every_command_name_parses() {
    let names = ["/ytdownload", "/ytaudio", "/xkcd", "/nhentai", "/reddit", "/urban", "/gpt"];
    for n in names {
        let c = Command::parse(&format!("{} arg", n), "bot").ok().expect("command");
        assert_eq!(arg_of(&c), Some("arg"));
    }
}

#[test]
fn addressed_to_this_bot() {
    match Command::parse("/ytaudio@amogus_bot https://youtu.be/x", "amogus_bot") {
        Ok(Command::YtAudio(s)) => assert_eq!(s, "https://youtu.be/x"),
        _ => panic!("expected ytaudio"),
    }
    assert!(matches!(Command::parse("/help@amogus_bot", "amogus_bot"), Ok(Command::Help)));
}

#[test]
fn addressed_to_another_bot() {
    match Command::parse("/help@other_bot", "amogus_bot") {
        Err(CommandParseError::WrongBotName(n)) => assert_eq!(n, "other_bot"),
        _ => panic!("expected wrong bot name"),
    }
    match Command::parse("/help@a@b", "amogus_bot") {
        Err(CommandParseError::WrongBotName(n)) => assert_eq!(n, "a"),
        _ => panic!("expected wrong bot name"),
    }
}

#[test]
fn unknown_command() {
    match Command::parse("/jewtube now", "bot") {
        Err(CommandParseError::UnknownCommand(n)) => assert_eq!(n, "/jewtube"),
        _ => panic!("expected unknown"),
    }
    match Command::parse("help", "bot") {
        Err(CommandParseError::UnknownCommand(n)) => assert_eq!(n, "help"),
        _ => panic!("expected unknown"),
    }
    match Command::parse("/Help", "bot") {
        Err(CommandParseError::UnknownCommand(n)) => assert_eq!(n, "/Help"),
        _ => panic!("expected unknown"),
    }
}

#[test]
fn help_text() {
    let d = Command::descriptions();
    assert_eq!(
        d,
        "These commands are supported:\n/help - displays this text.\n/shorts - returns a youtube shorts video.\n/ytdownload - returns a video with audio of a youtube url\n/ytaudio - returns only audio of a youtube url\n/xkcd - returns a xkcd comic\n/nhentai - returns a random nhentai\n/reddit - returns a random post from some subreddit\n/urban - returns a random definition of a word\n/gpt - returns autogenerated text from a sentence\n"
    );
    for n in ["/help", "/shorts", "/ytdownload", "/ytaudio", "/xkcd", "/nhentai", "/reddit", "/urban", "/gpt"] {
        assert!(d.contains(&format!("\n{} - ", n)));
    }
}
