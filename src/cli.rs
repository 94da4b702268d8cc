use vstd::prelude::*;

verus! {

/// The commands of the command line tool.
#[derive(Debug, Clone, Copy, PartialEq, Eq, Structural)]
pub enum CliSubCommands {
    List,
    Add,
    Configure,
    Message,
}

/// The word that selects `c` on the command line.
pub open spec fn command_word(c: CliSubCommands) -> Seq<char> {
    match c {
        CliSubCommands::List => "list"@,
        CliSubCommands::Add => "add"@,
        CliSubCommands::Configure => "configure"@,
        CliSubCommands::Message => "message"@,
    }
}

impl CliSubCommands {
    /// The word that selects this command.
    pub fn get_string(&self) -> (r: &'static str)
        ensures
            r@ == command_word(*self),
    {
        match self {
            CliSubCommands::List => "list",
            CliSubCommands::Add => "add",
            CliSubCommands::Configure => "configure",
            CliSubCommands::Message => "message",
        }
    }
}

/// The pieces of `s` between the occurrences of `sep`, in order; a text with `n`
/// separators gives `n + 1` pieces, some of them maybe empty.
pub open spec fn split_pieces(s: Seq<char>, sep: char) -> Seq<Seq<char>>
    decreases s.len(),
{
    if s.len() == 0 {
        seq![Seq::empty()]
    } else {
        let rest = split_pieces(s.drop_first(), sep);
        if s[0] == sep {
            seq![Seq::empty()] + rest
        } else {
            rest.update(0, seq![s[0]] + rest[0])
        }
    }
}

/// Whether `c` has the Unicode property White_Space.
pub open spec fn is_white_space(c: char) -> bool {
    let u = c as u32;
    (0x09 <= u <= 0x0D) || u == 0x20 || u == 0x85 || u == 0xA0 || u == 0x1680 || (0x2000 <= u
        <= 0x200A) || u == 0x2028 || u == 0x2029 || u == 0x202F || u == 0x205F || u == 0x3000
}

/// `s` without its leading white space.
pub open spec fn trimmed_start(s: Seq<char>) -> Seq<char>
    decreases s.len(),
{
    if s.len() > 0 && is_white_space(s[0]) {
        trimmed_start(s.drop_first())
    } else {
        s
    }
}

/// `s` without its trailing white space.
pub open spec fn trimmed_end(s: Seq<char>) -> Seq<char>
    decreases s.len(),
{
    if s.len() > 0 && is_white_space(s.last()) {
        trimmed_end(s.drop_last())
    } else {
        s
    }
}

/// `s` without its leading and trailing white space.
pub open spec fn trimmed(s: Seq<char>) -> Seq<char> {
    trimmed_end(trimmed_start(s))
}

/// Whether `c` is one of the digits `0` to `9`.
pub open spec fn is_ascii_digit(c: char) -> bool {
    '0' <= c && c <= '9'
}

/// The number that the decimal digits `d` stand for.
pub open spec fn digits_value(d: Seq<char>) -> int
    decreases d.len(),
{
    if d.len() == 0 {
        0
    } else {
        digits_value(d.drop_last()) * 10 + (d.last() as u32 - '0' as u32)
    }
}

/// The `i32` that `s` writes: an optional `+` or `-` and then one or more decimal
/// digits, with a value in range; `None` for any other text.
pub open spec fn parsed_i32(s: Seq<char>) -> Option<i32> {
    let signed = s.len() > 0 && (s[0] == '-' || s[0] == '+');
    let digits = if signed {
        s.drop_first()
    } else {
        s
    };
    let value = if s.len() > 0 && s[0] == '-' {
        -digits_value(digits)
    } else {
        digits_value(digits)
    };
    if digits.len() > 0 && (forall|i: int| 0 <= i < digits.len() ==> is_ascii_digit(digits[i]))
        && i32::MIN <= value <= i32::MAX {
        Some(value as i32)
    } else {
        None
    }
}

/// The numbers written in `pieces`, each trimmed of white space, in order; a piece
/// that writes no `i32` is left out.
pub open spec fn index_entries(pieces: Seq<Seq<char>>) -> Seq<i32>
    decreases pieces.len(),
{
    if pieces.len() == 0 {
        Seq::empty()
    } else {
        let rest = index_entries(pieces.drop_last());
        match parsed_i32(trimmed(pieces.last())) {
            Some(v) => rest.push(v),
            None => rest,
        }
    }
}

/// Relies on `str::split` with a `char` pattern: the pieces between the occurrences
/// of the separator, in order.
#[verifier::external_body]
fn split_on<'a>(s: &'a str, separator: char) -> (r: Vec<&'a str>)
    ensures
        r@.map_values(|p: &str| p@) == split_pieces(s@, separator),
{
    s.split(separator).collect()
}

/// Relies on `str::trim`: the text without leading and trailing white space.
#[verifier::external_body]
fn trim_white_space<'a>(s: &'a str) -> (r: &'a str)
    ensures
        r@ == trimmed(s@),
{
    s.trim()
}

/// Relies on `str::parse::<i32>`: an optional sign and decimal digits, in range.
#[verifier::external_body]
fn parse_i32(s: &str) -> (r: Option<i32>)
    ensures
        r == parsed_i32(s@),
{
    s.parse::<i32>().ok()
}

/// The numbers in `s` between the occurrences of `separator`, each read after white
/// space is trimmed; a piece that is no number is dropped.
pub fn split_string_to_vec(s: &str, separator: char) -> (r: Vec<i32>)
    ensures
        r@ == index_entries(split_pieces(s@, separator)),
{
    let pieces = split_on(s, separator);
    let ghost texts = pieces@.map_values(|p: &str| p@);
    let mut r: Vec<i32> = Vec::new();
    let mut i: usize = 0;
    while i < pieces.len()
        invariant
            0 <= i <= pieces@.len(),
            texts == pieces@.map_values(|p: &str| p@),
            r@ == index_entries(texts.take(i as int)),
        decreases pieces@.len() - i,
    {
        let entry = parse_i32(trim_white_space(pieces[i]));
        proof {
            assert(texts.take(i + 1).drop_last() =~= texts.take(i as int));
        }
        match entry {
            Some(v) => r.push(v),
            None => {},
        }
        i = i + 1;
    }
    assert(texts.take(i as int) =~= texts);
    r
}

} // verus!
