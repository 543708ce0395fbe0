//! Command-line arguments: which output mode was asked for.
use vstd::prelude::*;
use vstd::string::*;

verus! {

/// What a single invocation was asked to do.
#[derive(Clone, Copy, Debug, PartialEq, Eq, Structural)]
pub enum OutputMode {
    Help,
    Default,
    NumSpecified(u8),
    Interactive,
}

/// How many identifiers a run makes when no count is given.
pub const NUM_TO_GENERATE: u8 = 20;

impl OutputMode {
    /// The number of identifiers this mode makes at once; none for the modes
    /// that print help or must first ask for a count.
    pub fn count_to_generate(&self) -> (r: Option<u8>)
        ensures
            r == match *self {
                OutputMode::Default => Some(NUM_TO_GENERATE),
                OutputMode::NumSpecified(n) => Some(n),
                OutputMode::Help | OutputMode::Interactive => None::<u8>,
            },
    {
        match self {
            OutputMode::Default => Some(NUM_TO_GENERATE),
            OutputMode::NumSpecified(n) => Some(*n),
            OutputMode::Help | OutputMode::Interactive => None,
        }
    }
}

/// Why an argument list was refused.
#[derive(Clone, Copy, Debug, PartialEq, Eq, Structural)]
pub enum MyError {
    WrongSyntax,
    NumberNotInteger,
}

pub open spec fn is_ascii_digit(c: char) -> bool {
    '0' <= c && c <= '9'
}

pub open spec fn all_ascii_digits(s: Seq<char>) -> bool {
    forall|i: int| 0 <= i < s.len() ==> is_ascii_digit(#[trigger] s[i])
}

/// `s` without the one `+` that may lead it.
pub open spec fn unsigned_part(s: Seq<char>) -> Seq<char> {
    if s.len() > 0 && s[0] == '+' {
        s.drop_first()
    } else {
        s
    }
}

/// Value of a run of decimal digits, most significant first.
pub open spec fn digits_value(s: Seq<char>) -> nat
    decreases s.len(),
{
    if s.len() == 0 {
        0
    } else {
        digits_value(s.drop_last()) * 10 + ((s.last() as u32 - '0' as u32) as nat)
    }
}

/// The `u8` that a text denotes: an optional `+`, then one or more ASCII
/// digits, whose value is at most 255. Any other text denotes none.
pub open spec fn u8_value_of(s: Seq<char>) -> Option<u8> {
    let d = unsigned_part(s);
    if d.len() > 0 && all_ascii_digits(d) && digits_value(d) <= 255 {
        Some(digits_value(d) as u8)
    } else {
        None
    }
}

/// Unicode's White_Space property, the set that `char::is_whitespace` tests.
pub open spec fn is_white_space(c: char) -> bool {
    ||| '\u{9}' <= c && c <= '\u{d}'
    ||| c == ' '
    ||| c == '\u{85}'
    ||| c == '\u{a0}'
    ||| c == '\u{1680}'
    ||| '\u{2000}' <= c && c <= '\u{200a}'
    ||| c == '\u{2028}'
    ||| c == '\u{2029}'
    ||| c == '\u{202f}'
    ||| c == '\u{205f}'
    ||| c == '\u{3000}'
}

pub open spec fn trim_start(s: Seq<char>) -> Seq<char>
    decreases s.len(),
{
    if s.len() > 0 && is_white_space(s[0]) {
        trim_start(s.drop_first())
    } else {
        s
    }
}

pub open spec fn trim_end(s: Seq<char>) -> Seq<char>
    decreases s.len(),
{
    if s.len() > 0 && is_white_space(s.last()) {
        trim_end(s.drop_last())
    } else {
        s
    }
}

/// `s` without its leading and trailing white space.
pub open spec fn trimmed(s: Seq<char>) -> Seq<char> {
    trim_end(trim_start(s))
}

pub open spec fn flag(c: char) -> Seq<char> {
    seq!['-', c]
}

/// The mode that an argument list (program name first) asks for.
pub open spec fn mode_of(args: Seq<String>) -> Result<OutputMode, MyError> {
    if args.len() == 1 {
        Ok(OutputMode::Default)
    } else if args.len() == 2 && args[1]@ == flag('h') {
        Ok(OutputMode::Help)
    } else if args.len() == 2 && args[1]@ == flag('i') {
        Ok(OutputMode::Interactive)
    } else if args.len() == 3 && args[1]@ == flag('n') {
        match u8_value_of(args[2]@) {
            Some(n) => Ok(OutputMode::NumSpecified(n)),
            None => Err(MyError::NumberNotInteger),
        }
    } else {
        Err(MyError::WrongSyntax)
    }
}

/// The error of std's integer parsing, carried through unread.
#[verifier::external_type_specification]
#[verifier::external_body]
pub struct ExParseIntError(std::num::ParseIntError);

/// Relies on `<u8 as FromStr>::from_str` (through `str::parse`): it accepts
/// exactly an optional `+` followed by decimal digits whose value fits in a
/// `u8`, and returns that value.
#[verifier::external_body]
fn parse_u8(s: &str) -> (r: Result<u8, std::num::ParseIntError>)
    ensures
        match r {
            Ok(n) => u8_value_of(s@) == Some(n),
            Err(_) => u8_value_of(s@) is None,
        },
{
    s.parse::<u8>()
}

/// Relies on `str::trim`: it removes leading and trailing white space, as
/// `char::is_whitespace` defines it, and keeps the rest.
#[verifier::external_body]
fn trim_text<'a>(s: &'a str) -> (r: &'a str)
    ensures
        r@ == trimmed(s@),
{
    s.trim()
}

/// Whether `s` is exactly the two characters `-` and `c`.
fn is_flag(s: &String, c: char) -> (r: bool)
    ensures
        r == (s@ == flag(c)),
{
    let t = s.as_str();
    if t.unicode_len() != 2 {
        return false;
    }
    let r = t.get_char(0) == '-' && t.get_char(1) == c;
    proof {
        if r {
            assert(t@ =~= flag(c));
        }
    }
    r
}

/// Parses the argument list of one invocation, program name first.
pub fn parse_output_mode(args: Vec<String>) -> (r: Result<OutputMode, MyError>)
    ensures
        r == mode_of(args@),
{
    if args.len() == 1 {
        Ok(OutputMode::Default)
    } else if args.len() == 2 && is_flag(&args[1], 'h') {
        Ok(OutputMode::Help)
    } else if args.len() == 2 && is_flag(&args[1], 'i') {
        Ok(OutputMode::Interactive)
    } else if args.len() == 3 && is_flag(&args[1], 'n') {
        match parse_u8(args[2].as_str()) {
            Ok(cnt) => Ok(OutputMode::NumSpecified(cnt)),
            Err(_) => Err(MyError::NumberNotInteger),
        }
    } else {
        Err(MyError::WrongSyntax)
    }
}

/// Reads the count typed in reply to a prompt: the line, without its
/// surrounding white space, must be a `u8` in decimal.
pub fn parse_count_reply(line: &str) -> (r: Result<u8, std::num::ParseIntError>)
    ensures
        match r {
            Ok(n) => u8_value_of(trimmed(line@)) == Some(n),
            Err(_) => u8_value_of(trimmed(line@)) is None,
        },
{
    parse_u8(trim_text(line))
}

/// The program name alone asks for the default mode, whatever the name.
pub proof fn lemma_name_only_is_default(args: Seq<String>)
    requires
        args.len() == 1,
    ensures
        mode_of(args) == Ok::<OutputMode, MyError>(OutputMode::Default),
{
}

/// `-h` alone asks for help, and `-i` alone for the interactive mode.
pub proof fn lemma_single_flags(args: Seq<String>)
    requires
        args.len() == 2,
    ensures
        args[1]@ == flag('h') ==> mode_of(args) == Ok::<OutputMode, MyError>(OutputMode::Help),
        args[1]@ == flag('i') ==> mode_of(args) == Ok::<OutputMode, MyError>(
            OutputMode::Interactive,
        ),
{
}

/// `-n 3` asks for three identifiers, and `-n 3.0` is refused as no integer.
pub proof fn lemma_count_flag(args: Seq<String>)
    requires
        args.len() == 3,
        args[1]@ == flag('n'),
    ensures
        args[2]@ == seq!['3'] ==> mode_of(args) == Ok::<OutputMode, MyError>(
            OutputMode::NumSpecified(3),
        ),
        args[2]@ == seq!['3', '.', '0'] ==> mode_of(args) == Err::<OutputMode, MyError>(
            MyError::NumberNotInteger,
        ),
{
    let t = args[2]@;
    if t == seq!['3'] {
        assert(t.drop_last() =~= Seq::<char>::empty());
        assert(t.last() == '3');
        assert(digits_value(t.drop_last()) == 0);
        assert(digits_value(t) == 3);
    }
    if t == seq!['3', '.', '0'] {
        assert(t[0] == '3' && t[1] == '.');
        assert(unsigned_part(t) == t);
        assert(!is_ascii_digit(t[1]));
    }
}

/// Any token after a complete argument list makes it wrong syntax.
pub proof fn lemma_trailing_token(args: Seq<String>)
    requires
        args.len() > 3,
    ensures
        mode_of(args) == Err::<OutputMode, MyError>(MyError::WrongSyntax),
{
}

/// A single token that is neither `-h` nor `-i` is wrong syntax.
pub proof fn lemma_unknown_flag(args: Seq<String>)
    requires
        args.len() == 2,
        args[1]@ != flag('h'),
        args[1]@ != flag('i'),
    ensures
        mode_of(args) == Err::<OutputMode, MyError>(MyError::WrongSyntax),
{
}

} // verus!
