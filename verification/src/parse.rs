//! Commands and breakpoints as a user types them.
//!
//! A command line is a word and, for some words, an argument behind the first
//! space. White space around the line and around the argument counts for
//! nothing, and the word is read without regard to case. A breakpoint is a
//! line number, or a file name and a line number with a colon between them.

use vstd::prelude::*;
use crate::commands::{Breakpoint, BreakpointView, Command, CommandView};
use crate::decimal::{number, parse_decimal};

verus! {

/// Whether the character is white space: one of the characters that
/// Unicode gives the property `White_Space`.
pub open spec fn is_white_space(c: char) -> bool {
    let code = c as u32;
    ||| 0x0009 <= code <= 0x000D
    ||| code == 0x0020
    ||| code == 0x0085
    ||| code == 0x00A0
    ||| code == 0x1680
    ||| 0x2000 <= code <= 0x200A
    ||| code == 0x2028
    ||| code == 0x2029
    ||| code == 0x202F
    ||| code == 0x205F
    ||| code == 0x3000
}

/// The lower-case form of a text, as `str::to_lowercase` of the standard
/// library gives it.
pub uninterp spec fn lowercased(text: Seq<char>) -> Seq<char>;

/// Tests whether a character is white space.
pub fn is_whitespace(c: char) -> (white: bool)
    ensures
        white == is_white_space(c),
{
    let code: u32 = c as u32;
    (0x0009 <= code && code <= 0x000D) || code == 0x0020 || code == 0x0085 || code == 0x00A0
        || code == 0x1680 || (0x2000 <= code && code <= 0x200A) || code == 0x2028 || code
        == 0x2029 || code == 0x202F || code == 0x205F || code == 0x3000
}

/// Calls `str::to_lowercase`. Its result depends on the text alone; the
/// contract gives that result its name and claims nothing else of it.
#[verifier::external_body]
fn to_lowercase(text: &str) -> (lower: String)
    ensures
        lower@ == lowercased(text@),
{
    text.to_lowercase()
}

/// The first place at or behind `from` that is not marked, or the number
/// of marks.
pub open spec fn first_clear(marks: Seq<bool>, from: int) -> int
    decreases marks.len() - from,
{
    if from < 0 || from >= marks.len() {
        marks.len() as int
    } else if !marks[from] {
        from
    } else {
        first_clear(marks, from + 1)
    }
}

/// The place behind the last place before `upto` that is not marked, or
/// zero.
pub open spec fn last_clear(marks: Seq<bool>, upto: int) -> int
    decreases upto,
{
    if upto <= 0 || upto > marks.len() {
        0
    } else if !marks[upto - 1] {
        upto
    } else {
        last_clear(marks, upto - 1)
    }
}

/// Where the inner part of a marked text lies: from the first place that is
/// not marked up to behind the last. Where every place is marked, the inner
/// part is empty and lies at the front.
pub open spec fn inner_span(marks: Seq<bool>) -> (int, int) {
    let from = first_clear(marks, 0);
    let upto = last_clear(marks, marks.len() as int);
    if from < upto {
        (from, upto)
    } else {
        (0, 0)
    }
}

/// For each character of a text, whether it is white space.
pub open spec fn white_marks(text: Seq<char>) -> Seq<bool> {
    text.map_values(|c: char| is_white_space(c))
}

/// The text without the white space at its two ends.
pub open spec fn trimmed(text: Seq<char>) -> Seq<char> {
    text.subrange(inner_span(white_marks(text)).0, inner_span(white_marks(text)).1)
}

/// The first place at or behind `from` that holds `mark`, or the length of
/// the text.
pub open spec fn first_of(text: Seq<char>, mark: char, from: int) -> int
    decreases text.len() - from,
{
    if from < 0 || from >= text.len() {
        text.len() as int
    } else if text[from] == mark {
        from
    } else {
        first_of(text, mark, from + 1)
    }
}

/// The word of a command line: what stands before the first space.
pub open spec fn word_of(line: Seq<char>) -> Seq<char> {
    line.subrange(0, first_of(line, ' ', 0))
}

/// The argument of a command line: what stands behind the first space,
/// without the white space at its ends. A line without a space has none.
pub open spec fn argument_of(line: Seq<char>) -> Option<Seq<char>> {
    let space = first_of(line, ' ', 0);
    if space < line.len() {
        Some(trimmed(line.skip(space + 1)))
    } else {
        None
    }
}

/// The bytes of a text of digits.
pub open spec fn digit_bytes(text: Seq<char>) -> Seq<u8> {
    text.map_values(|c: char| c as u8)
}

/// Whether every character is an ASCII digit.
pub open spec fn all_digits(text: Seq<char>) -> bool {
    forall|i: int| 0 <= i < text.len() ==> '0' <= #[trigger] text[i] <= '9'
}

/// The number that a text denotes: digits, with or without a plus sign
/// before them, of a number that a `usize` holds.
pub open spec fn number_of(text: Seq<char>) -> Option<usize> {
    let digits = if text.len() > 0 && text[0] == '+' {
        text.skip(1)
    } else {
        text
    };
    if all_digits(digits) {
        number(digit_bytes(digits))
    } else {
        None
    }
}

/// The breakpoint that a text denotes. With a colon in it, what stands
/// before the first colon is the file and what stands behind it the line;
/// without one, the text is the line.
pub open spec fn breakpoint_of(text: Seq<char>) -> Option<BreakpointView> {
    let colon = first_of(text, ':', 0);
    if colon < text.len() {
        match number_of(text.skip(colon + 1)) {
            Some(line) => Some(BreakpointView::FileLine { file: text.subrange(0, colon), line }),
            None => None,
        }
    } else {
        match number_of(text) {
            Some(line) => Some(BreakpointView::Line(line)),
            None => None,
        }
    }
}

/// The command that a lower-case word and an argument denote. A word that
/// names no command denotes `Unknown`; a command that lacks its argument, or
/// a `break` whose argument is no breakpoint, denotes nothing.
pub open spec fn command_of(word: Seq<char>, argument: Option<Seq<char>>) -> Option<CommandView> {
    if word == "exit"@ || word == "e"@ {
        Some(CommandView::Exit)
    } else if word == "continue"@ || word == "c"@ {
        Some(CommandView::Continue)
    } else if word == "initialize"@ || word == "init"@ || word == "i"@ {
        Some(CommandView::Initialize)
    } else if word == "launch"@ || word == "l"@ {
        match argument {
            Some(target) => Some(CommandView::Launch(target)),
            None => None,
        }
    } else if word == "step"@ || word == "s"@ {
        Some(CommandView::Step)
    } else if word == "break"@ || word == "b"@ {
        match argument {
            Some(target) => match breakpoint_of(target) {
                Some(breakpoint) => Some(CommandView::Break(breakpoint)),
                None => None,
            },
            None => None,
        }
    } else if word == "print"@ || word == "p"@ {
        match argument {
            Some(target) => Some(CommandView::Print(target)),
            None => None,
        }
    } else {
        Some(CommandView::Unknown)
    }
}

/// The command that a line denotes.
pub open spec fn command_of_line(line: Seq<char>) -> Option<CommandView> {
    command_of(lowercased(word_of(trimmed(line))), argument_of(trimmed(line)))
}

/// Finds the inner part of a marked text: the span from the first place
/// that is not marked up to behind the last.
pub fn find_inner_span(marks: &[bool]) -> (span: (usize, usize))
    ensures
        span.0 == inner_span(marks@).0,
        span.1 == inner_span(marks@).1,
        span.0 <= span.1 <= marks@.len(),
{
    let len: usize = marks.len();
    let mut from: usize = 0;
    while from < len && marks[from]
        invariant
            from <= len == marks@.len(),
            first_clear(marks@, 0) == first_clear(marks@, from as int),
        decreases len - from,
    {
        from = from + 1;
    }
    let mut upto: usize = len;
    while upto > 0 && marks[upto - 1]
        invariant
            upto <= len == marks@.len(),
            last_clear(marks@, len as int) == last_clear(marks@, upto as int),
        decreases upto,
    {
        upto = upto - 1;
    }
    if from < upto {
        (from, upto)
    } else {
        (0, 0)
    }
}

/// Takes the white space off the two ends of a text.
pub fn trim(text: &str) -> (inner: &str)
    ensures
        inner@ == trimmed(text@),
{
    let len: usize = text.unicode_len();
    let mut marks: Vec<bool> = Vec::new();
    let mut i: usize = 0;
    while i < len
        invariant
            i <= len == text@.len(),
            marks@.len() == i,
            forall|j: int| 0 <= j < i ==> #[trigger] marks@[j] == is_white_space(text@[j]),
        decreases len - i,
    {
        marks.push(is_whitespace(text.get_char(i)));
        i = i + 1;
    }
    assert(marks@ =~= white_marks(text@));
    let (from, upto) = find_inner_span(marks.as_slice());
    text.substring_char(from, upto)
}

/// Finds the first `mark` in a text.
fn find(text: &str, mark: char) -> (at: usize)
    ensures
        at == first_of(text@, mark, 0),
        at <= text@.len(),
{
    let len: usize = text.unicode_len();
    let mut at: usize = 0;
    while at < len && text.get_char(at) != mark
        invariant
            at <= len == text@.len(),
            first_of(text@, mark, 0) == first_of(text@, mark, at as int),
        decreases len - at,
    {
        at = at + 1;
    }
    at
}

/// Reads a text as a number.
pub fn parse_usize(text: &str) -> (out: Option<usize>)
    ensures
        out == number_of(text@),
{
    let len: usize = text.unicode_len();
    let from: usize = if len > 0 && text.get_char(0) == '+' {
        1
    } else {
        0
    };
    let ghost digits = text@.skip(from as int);
    assert(text@.skip(0) =~= text@);
    let mut bytes: Vec<u8> = Vec::new();
    let mut i: usize = from;
    while i < len
        invariant
            from <= i <= len == text@.len(),
            digits == text@.skip(from as int),
            digits == (if text@.len() > 0 && text@[0] == '+' {
                text@.skip(1)
            } else {
                text@
            }),
            bytes@.len() == i - from,
            forall|j: int| 0 <= j < i - from ==> '0' <= #[trigger] digits[j] <= '9',
            forall|j: int| 0 <= j < i - from ==> #[trigger] bytes@[j] == digits[j] as u8,
        decreases len - i,
    {
        let c: char = text.get_char(i);
        assert(c == digits[i - from]);
        if c < '0' || c > '9' {
            assert(!all_digits(digits));
            return None;
        }
        bytes.push(c as u8);
        i = i + 1;
    }
    assert(all_digits(digits));
    assert(bytes@ =~= digit_bytes(digits));
    assert(bytes@.subrange(0, bytes@.len() as int) =~= bytes@);
    parse_decimal(bytes.as_slice(), 0, bytes.len())
}

impl Breakpoint {
    /// Reads a breakpoint: a line number, or a file and a line number with
    /// a colon between them.
    pub fn parse(text: &str) -> (out: Result<Breakpoint, ()>)
        ensures
            match out {
                Ok(breakpoint) => breakpoint_of(text@) == Some(breakpoint@),
                Err(_) => breakpoint_of(text@) is None,
            },
    {
        let len: usize = text.unicode_len();
        let colon: usize = find(text, ':');
        if colon < len {
            let tail = text.substring_char(colon + 1, len);
            assert(tail@ =~= text@.skip(colon + 1));
            match parse_usize(tail) {
                Some(line) => Ok(
                    Breakpoint::FileLine { file: text.substring_char(0, colon).to_owned(), line },
                ),
                None => Err(()),
            }
        } else {
            match parse_usize(text) {
                Some(line) => Ok(Breakpoint::Line(line)),
                None => Err(()),
            }
        }
    }
}

/// Tests whether a word reads as `name`.
fn reads_as(word: &String, name: &str) -> (same: bool)
    ensures
        same == (word@ == name@),
{
    let other: String = name.to_owned();
    *word == other
}

impl Command {
    /// The command that a word and an argument denote. The word is taken as
    /// it stands: it is expected in lower case.
    pub fn from_words(word: &str, argument: Option<&str>) -> (out: Result<Command, ()>)
        ensures
            match out {
                Ok(command) => command_of(
                    word@,
                    match argument {
                        Some(target) => Some(target@),
                        None => None,
                    },
                ) == Some(command@),
                Err(_) => command_of(
                    word@,
                    match argument {
                        Some(target) => Some(target@),
                        None => None,
                    },
                ) is None,
            },
    {
        let word: String = word.to_owned();
        if reads_as(&word, "exit") || reads_as(&word, "e") {
            Ok(Command::Exit)
        } else if reads_as(&word, "continue") || reads_as(&word, "c") {
            Ok(Command::Continue)
        } else if reads_as(&word, "initialize") || reads_as(&word, "init") || reads_as(&word, "i") {
            Ok(Command::Initialize)
        } else if reads_as(&word, "launch") || reads_as(&word, "l") {
            match argument {
                Some(target) => Ok(Command::Launch(target.to_owned())),
                None => Err(()),
            }
        } else if reads_as(&word, "step") || reads_as(&word, "s") {
            Ok(Command::Step)
        } else if reads_as(&word, "break") || reads_as(&word, "b") {
            match argument {
                Some(target) => match Breakpoint::parse(target) {
                    Ok(breakpoint) => Ok(Command::Break(breakpoint)),
                    Err(_) => Err(()),
                },
                None => Err(()),
            }
        } else if reads_as(&word, "print") || reads_as(&word, "p") {
            match argument {
                Some(target) => Ok(Command::Print(target.to_owned())),
                None => Err(()),
            }
        } else {
            Ok(Command::Unknown)
        }
    }

    /// Reads a command line.
    pub fn parse(line: &str) -> (out: Result<Command, ()>)
        ensures
            match out {
                Ok(command) => command_of_line(line@) == Some(command@),
                Err(_) => command_of_line(line@) is None,
            },
    {
        let inner = trim(line);
        let len: usize = inner.unicode_len();
        let space: usize = find(inner, ' ');
        let word = to_lowercase(inner.substring_char(0, space));
        if space < len {
            let rest = inner.substring_char(space + 1, len);
            assert(rest@ =~= inner@.skip(space + 1));
            Command::from_words(word.as_str(), Some(trim(rest)))
        } else {
            Command::from_words(word.as_str(), None)
        }
    }
}

impl core::str::FromStr for Breakpoint {
    type Err = ();

    /// Reads a breakpoint: a line number, or a file and a line number with
    /// a colon between them. Anything else is an error.
    fn from_str(s: &str) -> (out: Result<Breakpoint, ()>)
        ensures
            match out {
                Ok(breakpoint) => breakpoint_of(s@) == Some(breakpoint@),
                Err(_) => breakpoint_of(s@) is None,
            },
    {
        Breakpoint::parse(s)
    }
}

impl core::str::FromStr for Command {
    type Err = ();

    /// Reads a command line. A word that names no command reads as
    /// `Unknown`; a command that lacks its argument, or a `break` whose
    /// argument is no breakpoint, is an error.
    fn from_str(s: &str) -> (out: Result<Command, ()>)
        ensures
            match out {
                Ok(command) => command_of_line(s@) == Some(command@),
                Err(_) => command_of_line(s@) is None,
            },
    {
        Command::parse(s)
    }
}

} // verus!
