//! The bot's commands: the text that names each, the help text, and the
//! parser that turns a message into a command.
use vstd::prelude::*;
use crate::text::{is_first_at, split_first, split_once, str_eq};

verus! {

/// The commands the bot answers.
pub enum Command {
    Help,
    Shorts,
    YtDownload(String),
    YtAudio(String),
    Xkcd(String),
    Nhentai(String),
    Reddit(String),
    Urban(String),
    Gpt(String),
}

/// A command with its argument as text.
pub enum CommandView {
    Help,
    Shorts,
    YtDownload(Seq<char>),
    YtAudio(Seq<char>),
    Xkcd(Seq<char>),
    Nhentai(Seq<char>),
    Reddit(Seq<char>),
    Urban(Seq<char>),
    Gpt(Seq<char>),
}

impl View for Command {
    type V = CommandView;

    open spec fn view(&self) -> CommandView {
        match self {
            Command::Help => CommandView::Help,
            Command::Shorts => CommandView::Shorts,
            Command::YtDownload(s) => CommandView::YtDownload(s@),
            Command::YtAudio(s) => CommandView::YtAudio(s@),
            Command::Xkcd(s) => CommandView::Xkcd(s@),
            Command::Nhentai(s) => CommandView::Nhentai(s@),
            Command::Reddit(s) => CommandView::Reddit(s@),
            Command::Urban(s) => CommandView::Urban(s@),
            Command::Gpt(s) => CommandView::Gpt(s@),
        }
    }
}

/// Why a message is not a command of this bot.
pub enum CommandParseError {
    /// The command is addressed to another bot, whose name is given.
    WrongBotName(String),
    /// No command has this name (the name is given, with its `/`).
    UnknownCommand(String),
}

pub enum CommandParseErrorView {
    WrongBotName(Seq<char>),
    UnknownCommand(Seq<char>),
}

impl View for CommandParseError {
    type V = CommandParseErrorView;

    open spec fn view(&self) -> CommandParseErrorView {
        match self {
            CommandParseError::WrongBotName(s) => CommandParseErrorView::WrongBotName(s@),
            CommandParseError::UnknownCommand(s) => CommandParseErrorView::UnknownCommand(s@),
        }
    }
}

/// The command that `name` (with its `/`) denotes, given the argument text.
pub open spec fn command_named(name: Seq<char>, args: Seq<char>) -> Option<CommandView> {
    if name == "/help"@ {
        Some(CommandView::Help)
    } else if name == "/shorts"@ {
        Some(CommandView::Shorts)
    } else if name == "/ytdownload"@ {
        Some(CommandView::YtDownload(args))
    } else if name == "/ytaudio"@ {
        Some(CommandView::YtAudio(args))
    } else if name == "/xkcd"@ {
        Some(CommandView::Xkcd(args))
    } else if name == "/nhentai"@ {
        Some(CommandView::Nhentai(args))
    } else if name == "/reddit"@ {
        Some(CommandView::Reddit(args))
    } else if name == "/urban"@ {
        Some(CommandView::Urban(args))
    } else if name == "/gpt"@ {
        Some(CommandView::Gpt(args))
    } else {
        None
    }
}

/// How a message reads as a command. The first word (up to the first space)
/// is the command, optionally followed by `@` and a bot name that must be
/// `bot_name`; everything after that first space is the argument.
pub open spec fn parse_command(s: Seq<char>, bot_name: Seq<char>) -> Result<CommandView, CommandParseErrorView> {
    let word = split_first(s, ' ').0;
    let args = match split_first(s, ' ').1 {
        Some(rest) => rest,
        None => Seq::<char>::empty(),
    };
    let name = split_first(word, '@').0;
    match split_first(word, '@').1 {
        Some(after) if split_first(after, '@').0 != bot_name => {
            Err(CommandParseErrorView::WrongBotName(split_first(after, '@').0))
        },
        _ => match command_named(name, args) {
            Some(c) => Ok(c),
            None => Err(CommandParseErrorView::UnknownCommand(name)),
        },
    }
}

pub open spec fn parse_result_view(r: Result<Command, CommandParseError>) -> Result<CommandView, CommandParseErrorView> {
    match r {
        Ok(c) => Ok(c@),
        Err(e) => Err(e@),
    }
}

/// The help text: a heading, then one line per command with its description.
pub open spec fn descriptions_text() -> Seq<char> {
    "These commands are supported:\n/help - displays this text.\n/shorts - returns a youtube shorts video.\n/ytdownload - returns a video with audio of a youtube url\n/ytaudio - returns only audio of a youtube url\n/xkcd - returns a xkcd comic\n/nhentai - returns a random nhentai\n/reddit - returns a random post from some subreddit\n/urban - returns a random definition of a word\n/gpt - returns autogenerated text from a sentence\n"@
}

impl Command {
    /// Reads a message as a command for the bot named `bot_name`.
    pub fn parse(s: &str, bot_name: &str) -> (res: Result<Command, CommandParseError>)
        ensures
            parse_result_view(res) == parse_command(s@, bot_name@),
    {
        let (word, rest) = split_once(s, ' ');
        let args = match rest {
            Some(r) => String::from_str(r),
            None => String::new(),
        };
        let (name, after) = split_once(word, '@');
        match after {
            Some(a) => {
                let (bot, _) = split_once(a, '@');
                if !str_eq(bot, bot_name) {
                    return Err(CommandParseError::WrongBotName(String::from_str(bot)));
                }
            },
            None => {},
        }
        if str_eq(name, "/help") {
            Ok(Command::Help)
        } else if str_eq(name, "/shorts") {
            Ok(Command::Shorts)
        } else if str_eq(name, "/ytdownload") {
            Ok(Command::YtDownload(args))
        } else if str_eq(name, "/ytaudio") {
            Ok(Command::YtAudio(args))
        } else if str_eq(name, "/xkcd") {
            Ok(Command::Xkcd(args))
        } else if str_eq(name, "/nhentai") {
            Ok(Command::Nhentai(args))
        } else if str_eq(name, "/reddit") {
            Ok(Command::Reddit(args))
        } else if str_eq(name, "/urban") {
            Ok(Command::Urban(args))
        } else if str_eq(name, "/gpt") {
            Ok(Command::Gpt(args))
        } else {
            Err(CommandParseError::UnknownCommand(String::from_str(name)))
        }
    }

    /// The help text that lists the commands.
    pub fn descriptions() -> (res: String)
        ensures
            res@ == descriptions_text(),
    {
        String::from_str("These commands are supported:\n/help - displays this text.\n/shorts - returns a youtube shorts video.\n/ytdownload - returns a video with audio of a youtube url\n/ytaudio - returns only audio of a youtube url\n/xkcd - returns a xkcd comic\n/nhentai - returns a random nhentai\n/reddit - returns a random post from some subreddit\n/urban - returns a random definition of a word\n/gpt - returns autogenerated text from a sentence\n")
    }
}

/// The name of a command, with its `/`.
pub open spec fn command_name(c: CommandView) -> Seq<char> {
    match c {
        CommandView::Help => "/help"@,
        CommandView::Shorts => "/shorts"@,
        CommandView::YtDownload(_) => "/ytdownload"@,
        CommandView::YtAudio(_) => "/ytaudio"@,
        CommandView::Xkcd(_) => "/xkcd"@,
        CommandView::Nhentai(_) => "/nhentai"@,
        CommandView::Reddit(_) => "/reddit"@,
        CommandView::Urban(_) => "/urban"@,
        CommandView::Gpt(_) => "/gpt"@,
    }
}

/// The argument of a command, for the commands that take one.
pub open spec fn command_arg(c: CommandView) -> Option<Seq<char>> {
    match c {
        CommandView::Help => None,
        CommandView::Shorts => None,
        CommandView::YtDownload(a) => Some(a),
        CommandView::YtAudio(a) => Some(a),
        CommandView::Xkcd(a) => Some(a),
        CommandView::Nhentai(a) => Some(a),
        CommandView::Reddit(a) => Some(a),
        CommandView::Urban(a) => Some(a),
        CommandView::Gpt(a) => Some(a),
    }
}

/// The message that sends a command: its name, then, for a command with an
/// argument, a space and the argument.
pub open spec fn command_text(c: CommandView) -> Seq<char> {
    match command_arg(c) {
        Some(a) => command_name(c) + " "@ + a,
        None => command_name(c),
    }
}

/// The same message addressed to the bot named `bot`.
pub open spec fn addressed_text(c: CommandView, bot: Seq<char>) -> Seq<char> {
    match command_arg(c) {
        Some(a) => command_name(c) + "@"@ + bot + " "@ + a,
        None => command_name(c) + "@"@ + bot,
    }
}

pub open spec fn lacks(s: Seq<char>, c: char) -> bool {
    forall|i: int| 0 <= i < s.len() ==> s[i] != c
}

proof fn lemma_split_absent(s: Seq<char>, c: char)
    requires
        lacks(s, c),
    ensures
        split_first(s, c) == (s, Option::<Seq<char>>::None),
{
    assert(!exists|i: int| is_first_at(s, c, i));
}

proof fn lemma_split_at(x: Seq<char>, c: char, y: Seq<char>)
    requires
        lacks(x, c),
    ensures
        split_first(x + seq![c] + y, c) == (x, Some(y)),
{
    let t = x + seq![c] + y;
    assert(is_first_at(t, c, x.len() as int));
    let i = choose|i: int| is_first_at(t, c, i);
    assert(i == x.len());
    assert(t.take(i) =~= x);
    assert(t.skip(i + 1) =~= y);
}

proof fn lemma_names_plain(c: CommandView)
    ensures
        lacks(command_name(c), ' '),
        lacks(command_name(c), '@'),
        command_named(command_name(c), match command_arg(c) { Some(a) => a, None => Seq::empty() }) == Some(c),
{
    reveal_strlit("/help");
    reveal_strlit("/shorts");
    reveal_strlit("/ytdownload");
    reveal_strlit("/ytaudio");
    reveal_strlit("/xkcd");
    reveal_strlit("/nhentai");
    reveal_strlit("/reddit");
    reveal_strlit("/urban");
    reveal_strlit("/gpt");
    let h = "/help"@;
    let sh = "/shorts"@;
    let yd = "/ytdownload"@;
    let ya = "/ytaudio"@;
    let x = "/xkcd"@;
    let nh = "/nhentai"@;
    let r = "/reddit"@;
    let u = "/urban"@;
    let g = "/gpt"@;
    assert(sh != h) by { assert(sh.len() != h.len()); }
    assert(yd != h && yd != sh) by { assert(yd.len() != h.len() && yd.len() != sh.len()); }
    assert(ya != h && ya != sh && ya != yd) by { assert(ya[2] != h[2] && ya[2] != sh[2] && ya.len() != yd.len()); }
    assert(x != h && x != sh && x != yd && x != ya) by { assert(x[1] != h[1] && x[1] != sh[1] && x[1] != yd[1] && x[1] != ya[1]); }
    assert(nh != h && nh != sh && nh != yd && nh != ya && nh != x) by { assert(nh[1] != h[1] && nh[1] != sh[1] && nh[1] != yd[1] && nh[1] != ya[1] && nh[1] != x[1]); }
    assert(r != h && r != sh && r != yd && r != ya && r != x && r != nh) by { assert(r[1] != h[1] && r[1] != sh[1] && r[1] != yd[1] && r[1] != ya[1] && r[1] != x[1] && r[1] != nh[1]); }
    assert(u != h && u != sh && u != yd && u != ya && u != x && u != nh && u != r) by { assert(u[1] != h[1] && u[1] != sh[1] && u[1] != yd[1] && u[1] != ya[1] && u[1] != x[1] && u[1] != nh[1] && u[1] != r[1]); }
    assert(g != h && g != sh && g != yd && g != ya && g != x && g != nh && g != r && g != u) by { assert(g[1] != h[1] && g[1] != sh[1] && g[1] != yd[1] && g[1] != ya[1] && g[1] != x[1] && g[1] != nh[1] && g[1] != r[1] && g[1] != u[1]); }
}

/// The message that sends a command reads back as that command, for any bot.
pub proof fn lemma_command_text_parses(c: CommandView, bot: Seq<char>)
    ensures
        parse_command(command_text(c), bot) == Ok::<CommandView, CommandParseErrorView>(c),
{
    lemma_names_plain(c);
    reveal_strlit(" ");
    let name = command_name(c);
    match command_arg(c) {
        Some(a) => {
            assert(name + " "@ + a =~= name + seq![' '] + a);
            lemma_split_at(name, ' ', a);
        },
        None => {
            lemma_split_absent(name, ' ');
        },
    }
    lemma_split_absent(name, '@');
}

/// A command addressed to this bot reads as the command itself.
pub proof fn lemma_addressed_text_parses(c: CommandView, bot: Seq<char>)
    requires
        lacks(bot, ' '),
        lacks(bot, '@'),
    ensures
        parse_command(addressed_text(c, bot), bot) == Ok::<CommandView, CommandParseErrorView>(c),
{
    lemma_names_plain(c);
    reveal_strlit(" ");
    reveal_strlit("@");
    let name = command_name(c);
    let word = name + seq!['@'] + bot;
    assert(lacks(word, ' '));
    match command_arg(c) {
        Some(a) => {
            assert(addressed_text(c, bot) =~= word + seq![' '] + a);
            lemma_split_at(word, ' ', a);
        },
        None => {
            assert(addressed_text(c, bot) =~= word);
            lemma_split_absent(word, ' ');
        },
    }
    lemma_split_at(name, '@', bot);
    lemma_split_absent(bot, '@');
}

/// A command addressed to another bot is refused with that bot's name.
pub proof fn lemma_other_bot_refused(c: CommandView, other: Seq<char>, bot: Seq<char>)
    requires
        lacks(other, ' '),
        lacks(other, '@'),
        other != bot,
    ensures
        parse_command(addressed_text(c, other), bot) == Err::<CommandView, CommandParseErrorView>(
            CommandParseErrorView::WrongBotName(other),
        ),
{
    lemma_names_plain(c);
    reveal_strlit(" ");
    reveal_strlit("@");
    let name = command_name(c);
    let word = name + seq!['@'] + other;
    assert(lacks(word, ' '));
    match command_arg(c) {
        Some(a) => {
            assert(addressed_text(c, other) =~= word + seq![' '] + a);
            lemma_split_at(word, ' ', a);
        },
        None => {
            assert(addressed_text(c, other) =~= word);
            lemma_split_absent(word, ' ');
        },
    }
    lemma_split_at(name, '@', other);
    lemma_split_absent(other, '@');
}

/// Where the help text lists each command's name.
pub open spec fn description_line_start(c: CommandView) -> int {
    match c {
        CommandView::Help => 30,
        CommandView::Shorts => 58,
        CommandView::YtDownload(_) => 100,
        CommandView::YtAudio(_) => 158,
        CommandView::Xkcd(_) => 205,
        CommandView::Nhentai(_) => 234,
        CommandView::Reddit(_) => 270,
        CommandView::Urban(_) => 322,
        CommandView::Gpt(_) => 369,
    }
}

/// The help text has a line for every command the parser accepts: a line
/// that starts with the command's name followed by " - ".
pub proof fn lemma_help_lists_every_command(c: CommandView)
    ensures
        0 < description_line_start(c),
        description_line_start(c) + command_name(c).len() + 3 <= descriptions_text().len(),
        descriptions_text()[description_line_start(c) - 1] == '\n',
        descriptions_text().subrange(description_line_start(c), description_line_start(c) + command_name(c).len())
            == command_name(c),
        descriptions_text().subrange(
            description_line_start(c) + command_name(c).len(),
            description_line_start(c) + command_name(c).len() + 3,
        ) == " - "@,
{
    reveal_strlit("These commands are supported:\n/help - displays this text.\n/shorts - returns a youtube shorts video.\n/ytdownload - returns a video with audio of a youtube url\n/ytaudio - returns only audio of a youtube url\n/xkcd - returns a xkcd comic\n/nhentai - returns a random nhentai\n/reddit - returns a random post from some subreddit\n/urban - returns a random definition of a word\n/gpt - returns autogenerated text from a sentence\n");
    reveal_strlit("/help");
    reveal_strlit("/shorts");
    reveal_strlit("/ytdownload");
    reveal_strlit("/ytaudio");
    reveal_strlit("/xkcd");
    reveal_strlit("/nhentai");
    reveal_strlit("/reddit");
    reveal_strlit("/urban");
    reveal_strlit("/gpt");
    reveal_strlit(" - ");
    let d = descriptions_text();
    let k = description_line_start(c);
    let n = command_name(c);
    assert(d.subrange(k, k + n.len()) =~= n);
    assert(d.subrange(k + n.len(), k + n.len() + 3) =~= " - "@);
}

} // verus!
