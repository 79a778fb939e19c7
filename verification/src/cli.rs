//! Command parsing of the interactive motor console.
use vstd::prelude::*;
use vstd::string::StringSliceAdditionalSpecFns;

verus! {

/// An ASCII decimal digit.
pub open spec fn is_digit(b: u8) -> bool {
    0x30 <= b <= 0x39
}

/// Every byte is an ASCII decimal digit.
pub open spec fn all_digits(d: Seq<u8>) -> bool {
    forall|i: int| 0 <= i < d.len() ==> is_digit(#[trigger] d[i])
}

/// The decimal value of a digit string.
pub open spec fn digits_value(d: Seq<u8>) -> int
    decreases d.len(),
{
    if d.len() == 0 {
        0
    } else {
        digits_value(d.drop_last()) * 10 + (d.last() - 0x30)
    }
}

/// Whether the text starts with a `+` or `-` sign.
pub open spec fn has_sign(b: Seq<u8>) -> bool {
    b.len() > 0 && (b[0] == 0x2B || b[0] == 0x2D)
}

/// How the standard library reads an `i32` from text: an optional `+` or `-`,
/// then one or more ASCII digits, whose value must fit in an `i32`.
pub open spec fn i32_from_text(b: Seq<u8>) -> Option<i32> {
    let digits = if has_sign(b) {
        b.drop_first()
    } else {
        b
    };
    let negative = b.len() > 0 && b[0] == 0x2D;
    let value = if negative {
        -digits_value(digits)
    } else {
        digits_value(digits)
    };
    if digits.len() == 0 || !all_digits(digits) {
        None
    } else if i32::MIN <= value <= i32::MAX {
        Some(value as i32)
    } else {
        None
    }
}

proof fn lemma_digits_value_nonneg(d: Seq<u8>)
    requires
        all_digits(d),
    ensures
        digits_value(d) >= 0,
    decreases d.len(),
{
    if d.len() > 0 {
        assert(all_digits(d.drop_last()));
        lemma_digits_value_nonneg(d.drop_last());
        assert(is_digit(d[d.len() - 1]));
    }
}

proof fn lemma_digits_value_grows(d: Seq<u8>, k: int)
    requires
        all_digits(d),
        0 <= k <= d.len(),
    ensures
        digits_value(d.take(k)) <= digits_value(d),
    decreases d.len(),
{
    if k < d.len() {
        let p = d.drop_last();
        assert(all_digits(p));
        lemma_digits_value_grows(p, k);
        assert(p.take(k) =~= d.take(k));
        lemma_digits_value_nonneg(p);
        assert(is_digit(d[d.len() - 1]));
    } else {
        assert(d.take(k) =~= d);
    }
}

/// Whether bytes `start..` of `b` are all ASCII digits.
fn digits_from(b: &[u8], start: usize) -> (r: bool)
    requires
        start <= b@.len(),
    ensures
        r == all_digits(b@.subrange(start as int, b@.len() as int)),
{
    let ghost t = b@;
    let len = b.len();
    let mut i: usize = start;
    while i < len
        invariant
            start <= i <= len,
            len == t.len(),
            t == b@,
            all_digits(t.subrange(start as int, i as int)),
        decreases len - i,
    {
        if b[i] < 0x30 || b[i] > 0x39 {
            assert(t.subrange(start as int, len as int)[i - start] == b[i as int]);
            return false;
        }
        assert(forall|k: int|
            0 <= k < i + 1 - start ==> #[trigger] t.subrange(start as int, i + 1)[k] == t[start + k]);
        i = i + 1;
    }
    assert(t.subrange(start as int, len as int) =~= t.subrange(start as int, i as int));
    true
}

/// The value of the digit string `b[start..]` when it is at most 2^31, or
/// `None` when it is larger.
fn digits_value_to_2_31(b: &[u8], start: usize) -> (r: Option<i64>)
    requires
        start <= b@.len(),
        all_digits(b@.subrange(start as int, b@.len() as int)),
    ensures
        r matches Some(v) ==> v == digits_value(b@.subrange(start as int, b@.len() as int)),
        r matches Some(v) ==> 0 <= v <= 0x8000_0000,
        r is None ==> digits_value(b@.subrange(start as int, b@.len() as int)) > 0x8000_0000,
{
    let ghost t = b@;
    let len = b.len();
    let ghost digits = t.subrange(start as int, len as int);
    let mut acc: i64 = 0;
    let mut j: usize = start;
    while j < len
        invariant
            start <= j <= len,
            len == t.len(),
            t == b@,
            digits == t.subrange(start as int, len as int),
            all_digits(digits),
            acc == digits_value(digits.take(j - start)),
            0 <= acc <= 0x8000_0000,
        decreases len - j,
    {
        assert(digits.take(j + 1 - start).drop_last() =~= digits.take(j - start));
        assert(is_digit(digits[j - start]));
        acc = acc * 10 + (b[j] - 0x30) as i64;
        j = j + 1;
        if acc > 0x8000_0000 {
            proof {
                lemma_digits_value_grows(digits, j - start);
            }
            return None;
        }
    }
    assert(digits.take(len - start) =~= digits);
    Some(acc)
}

/// Parses an `i32` the way `str::parse::<i32>` does, giving `None` where it
/// gives an error.
pub fn parse_i32(s: &str) -> (r: Option<i32>)
    ensures
        r == i32_from_text(s.spec_bytes()),
{
    let b = s.as_bytes();
    let ghost t = b@;
    let len = b.len();
    if len == 0 {
        return None;
    }
    let negative = b[0] == 0x2D;
    let start: usize = if b[0] == 0x2B || b[0] == 0x2D {
        1
    } else {
        0
    };
    let ghost digits = if has_sign(t) {
        t.drop_first()
    } else {
        t
    };
    assert(digits =~= t.subrange(start as int, len as int));
    if start == len {
        return None;
    }
    if !digits_from(b, start) {
        return None;
    }
    match digits_value_to_2_31(b, start) {
        None => None,
        Some(v) => {
            if negative {
                Some((0 - v) as i32)
            } else if v <= 0x7FFF_FFFF {
                Some(v as i32)
            } else {
                None
            }
        },
    }
}

/// The rpm argument of a console command: the argument read as an `i32`, or
/// `None` when it is missing or not a number.
pub fn parse_rpm(arg: Option<&&str>) -> (r: Option<i32>)
    ensures
        r == match arg {
            Some(s) => i32_from_text(s.spec_bytes()),
            None => None,
        },
{
    match arg {
        Some(s) => parse_i32(s),
        None => None,
    }
}

// ── Console commands ─────────────────────────────────────────────────────

/// A Unicode `White_Space` character, as `char::is_whitespace` tests it.
pub open spec fn is_white_space(c: char) -> bool {
    ||| '\u{0009}' <= c <= '\u{000D}'
    ||| c == '\u{0020}'
    ||| c == '\u{0085}'
    ||| c == '\u{00A0}'
    ||| c == '\u{1680}'
    ||| '\u{2000}' <= c <= '\u{200A}'
    ||| c == '\u{2028}'
    ||| c == '\u{2029}'
    ||| c == '\u{202F}'
    ||| c == '\u{205F}'
    ||| c == '\u{3000}'
}

/// The words of a line, as `str::split_whitespace` yields them: the maximal
/// runs of characters that are not white space, in order.
pub open spec fn whitespace_words(line: Seq<char>) -> Seq<Seq<char>>
    decreases line.len(),
{
    if line.len() == 0 {
        Seq::empty()
    } else {
        let words = whitespace_words(line.drop_last());
        let c = line.last();
        if is_white_space(c) {
            words
        } else if line.len() >= 2 && !is_white_space(line[line.len() - 2]) {
            words.update(words.len() - 1, words.last().push(c))
        } else {
            words.push(seq![c])
        }
    }
}

/// A text in lower case, as `str::to_lowercase` gives it.
pub uninterp spec fn lowercase(text: Seq<char>) -> Seq<char>;

/// Calls `str::split_whitespace` and collects the words; the contract claims
/// that they are `whitespace_words` of the line, the runs of non-white-space
/// characters that the std documentation describes.
#[verifier::external_body]
fn split_words(line: &str) -> (words: Vec<&str>)
    ensures
        words@.map_values(|w: &str| w@) == whitespace_words(line@),
{
    line.split_whitespace().collect()
}

/// Calls `str::to_lowercase`; the contract claims only that the result is
/// `lowercase` of the text.
#[verifier::external_body]
fn to_lowercase(text: &str) -> (r: String)
    ensures
        r@ == lowercase(text@),
{
    text.to_lowercase()
}

/// A line typed at the motor console.
#[derive(Debug, PartialEq, Eq)]
pub enum ConsoleCommand {
    /// A blank line.
    Empty,
    /// `quit`, `exit` or `q`.
    Quit,
    /// `help` or `?`.
    Help,
    Enable,
    Disable,
    Stop,
    Status,
    /// `go <rpm>`: forward.
    Go(Option<i32>),
    /// `back <rpm>`: backward.
    Back(Option<i32>),
    /// `left <rpm>`: turn in place, counter-clockwise.
    Left(Option<i32>),
    /// `right <rpm>`: turn in place, clockwise.
    Right(Option<i32>),
    /// Any other command word, in lower case.
    Unknown(String),
}

/// What a console line means, with the unknown command word as text.
pub enum CommandMeaning {
    Empty,
    Quit,
    Help,
    Enable,
    Disable,
    Stop,
    Status,
    Go(Option<i32>),
    Back(Option<i32>),
    Left(Option<i32>),
    Right(Option<i32>),
    Unknown(Seq<char>),
}

impl View for ConsoleCommand {
    type V = CommandMeaning;

    open spec fn view(&self) -> CommandMeaning {
        match self {
            ConsoleCommand::Empty => CommandMeaning::Empty,
            ConsoleCommand::Quit => CommandMeaning::Quit,
            ConsoleCommand::Help => CommandMeaning::Help,
            ConsoleCommand::Enable => CommandMeaning::Enable,
            ConsoleCommand::Disable => CommandMeaning::Disable,
            ConsoleCommand::Stop => CommandMeaning::Stop,
            ConsoleCommand::Status => CommandMeaning::Status,
            ConsoleCommand::Go(r) => CommandMeaning::Go(*r),
            ConsoleCommand::Back(r) => CommandMeaning::Back(*r),
            ConsoleCommand::Left(r) => CommandMeaning::Left(*r),
            ConsoleCommand::Right(r) => CommandMeaning::Right(*r),
            ConsoleCommand::Unknown(w) => CommandMeaning::Unknown(w@),
        }
    }
}

/// The rpm argument of a command: the second word read as an `i32`.
pub open spec fn rpm_argument(words: Seq<Seq<char>>) -> Option<i32> {
    if words.len() > 1 {
        i32_from_text(vstd::utf8::encode_utf8(words[1]))
    } else {
        None
    }
}

/// The meaning of a console line: its first word, in lower case, names the
/// command; motion commands take the second word as their rpm.
pub open spec fn command_meaning(line: Seq<char>) -> CommandMeaning {
    let words = whitespace_words(line);
    if words.len() == 0 {
        CommandMeaning::Empty
    } else {
        let cmd = lowercase(words[0]);
        if cmd == "quit"@ || cmd == "exit"@ || cmd == "q"@ {
            CommandMeaning::Quit
        } else if cmd == "help"@ || cmd == "?"@ {
            CommandMeaning::Help
        } else if cmd == "enable"@ {
            CommandMeaning::Enable
        } else if cmd == "disable"@ {
            CommandMeaning::Disable
        } else if cmd == "stop"@ {
            CommandMeaning::Stop
        } else if cmd == "go"@ {
            CommandMeaning::Go(rpm_argument(words))
        } else if cmd == "back"@ {
            CommandMeaning::Back(rpm_argument(words))
        } else if cmd == "left"@ {
            CommandMeaning::Left(rpm_argument(words))
        } else if cmd == "right"@ {
            CommandMeaning::Right(rpm_argument(words))
        } else if cmd == "status"@ {
            CommandMeaning::Status
        } else {
            CommandMeaning::Unknown(cmd)
        }
    }
}

fn is_word(cmd: &String, word: &str) -> (r: bool)
    ensures
        r == (cmd@ == word@),
{
    *cmd == word.to_owned()
}

/// Whether two texts are equal.
pub(crate) fn same_text(a: &str, b: &str) -> (r: bool)
    ensures
        r == (a@ == b@),
{
    a.to_owned() == b.to_owned()
}

/// Reads one console line.
pub fn parse_command(line: &str) -> (c: ConsoleCommand)
    ensures
        c@ == command_meaning(line@),
{
    let words = split_words(line);
    let ghost ws = whitespace_words(line@);
    assert(words@.len() == ws.len());
    if words.len() == 0 {
        return ConsoleCommand::Empty;
    }
    assert(words@[0]@ == ws[0]);
    let cmd = to_lowercase(words[0]);
    let rpm = if words.len() > 1 {
        assert(words@[1]@ == ws[1]);
        parse_rpm(Some(&words[1]))
    } else {
        None
    };
    assert(rpm == rpm_argument(ws));
    if is_word(&cmd, "quit") || is_word(&cmd, "exit") || is_word(&cmd, "q") {
        ConsoleCommand::Quit
    } else if is_word(&cmd, "help") || is_word(&cmd, "?") {
        ConsoleCommand::Help
    } else if is_word(&cmd, "enable") {
        ConsoleCommand::Enable
    } else if is_word(&cmd, "disable") {
        ConsoleCommand::Disable
    } else if is_word(&cmd, "stop") {
        ConsoleCommand::Stop
    } else if is_word(&cmd, "go") {
        ConsoleCommand::Go(rpm)
    } else if is_word(&cmd, "back") {
        ConsoleCommand::Back(rpm)
    } else if is_word(&cmd, "left") {
        ConsoleCommand::Left(rpm)
    } else if is_word(&cmd, "right") {
        ConsoleCommand::Right(rpm)
    } else if is_word(&cmd, "status") {
        ConsoleCommand::Status
    } else {
        ConsoleCommand::Unknown(cmd)
    }
}

/// The command word is case-insensitive: two lines with the same number of
/// words, first words with the same lower case, and the same second word
/// mean the same command.
pub proof fn lemma_command_word_case_insensitive(l1: Seq<char>, l2: Seq<char>)
    requires
        whitespace_words(l1).len() == whitespace_words(l2).len(),
        whitespace_words(l1).len() > 0,
        lowercase(whitespace_words(l1)[0]) == lowercase(whitespace_words(l2)[0]),
        whitespace_words(l1).len() > 1 ==> whitespace_words(l1)[1] == whitespace_words(l2)[1],
    ensures
        command_meaning(l1) == command_meaning(l2),
{
}

/// Every command word, typed in any case, names its command: a first word
/// whose lower case is `stop` stops, `enable` enables, and so on; a blank
/// line is empty.
pub proof fn lemma_command_words(line: Seq<char>)
    ensures
        whitespace_words(line).len() == 0 ==> command_meaning(line) == CommandMeaning::Empty,
        whitespace_words(line).len() > 0 ==> {
            let w = lowercase(whitespace_words(line)[0]);
            &&& (w == "quit"@ || w == "exit"@ || w == "q"@) ==> command_meaning(line)
                == CommandMeaning::Quit
            &&& (w == "help"@ || w == "?"@) ==> command_meaning(line) == CommandMeaning::Help
            &&& w == "enable"@ ==> command_meaning(line) == CommandMeaning::Enable
            &&& w == "disable"@ ==> command_meaning(line) == CommandMeaning::Disable
            &&& w == "stop"@ ==> command_meaning(line) == CommandMeaning::Stop
            &&& w == "status"@ ==> command_meaning(line) == CommandMeaning::Status
            &&& w == "go"@ ==> command_meaning(line) == CommandMeaning::Go(
                rpm_argument(whitespace_words(line)),
            )
            &&& w == "back"@ ==> command_meaning(line) == CommandMeaning::Back(
                rpm_argument(whitespace_words(line)),
            )
            &&& w == "left"@ ==> command_meaning(line) == CommandMeaning::Left(
                rpm_argument(whitespace_words(line)),
            )
            &&& w == "right"@ ==> command_meaning(line) == CommandMeaning::Right(
                rpm_argument(whitespace_words(line)),
            )
        },
{
    if whitespace_words(line).len() > 0 {
        reveal_strlit("quit");
        assert("quit"@.len() == 4 && "quit"@[0] == 'q');
        reveal_strlit("exit");
        assert("exit"@.len() == 4 && "exit"@[0] == 'e');
        reveal_strlit("q");
        assert("q"@.len() == 1 && "q"@[0] == 'q');
        reveal_strlit("help");
        assert("help"@.len() == 4 && "help"@[0] == 'h');
        reveal_strlit("?");
        assert("?"@.len() == 1 && "?"@[0] == '?');
        reveal_strlit("enable");
        assert("enable"@.len() == 6 && "enable"@[0] == 'e');
        reveal_strlit("disable");
        assert("disable"@.len() == 7 && "disable"@[0] == 'd');
        reveal_strlit("stop");
        assert("stop"@.len() == 4 && "stop"@[0] == 's');
        reveal_strlit("go");
        assert("go"@.len() == 2 && "go"@[0] == 'g');
        reveal_strlit("back");
        assert("back"@.len() == 4 && "back"@[0] == 'b');
        reveal_strlit("left");
        assert("left"@.len() == 4 && "left"@[0] == 'l');
        reveal_strlit("right");
        assert("right"@.len() == 5 && "right"@[0] == 'r');
        reveal_strlit("status");
        assert("status"@.len() == 6 && "status"@[0] == 's');
    }
}

} // verus!
