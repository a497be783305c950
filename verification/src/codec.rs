//! The two text formats of the driver's files.
//!
//! A file that holds one of several words lists them all and puts the current
//! one in square brackets: `cable [gpu] unknown`. The word ends at the next
//! closing bracket, square or round. A file that holds a colour
//! reads `red: 0, green: 15, blue: 0`, and is written as six hexadecimal
//! digits: `000f00`.
//!
//! Finding the bracketed word and the three numbers is the work of a regular
//! expression. What is made of the groups it captured is decided here.

use crate::pattern::regex_captures;
use vstd::prelude::*;

verus! {

/// The pattern of a file that lists words with the current one in square
/// brackets: a `[`, then one or more characters that are neither `]` nor
/// `)`, then a `]` or a `)`. Its group 1 is the bracketed word, which so runs
/// from the first such `[` to the next closing bracket of either kind.
pub const BRACKETED: &'static str = "\\[([^\\])]+)[\\])]";

/// The pattern of a file that holds a colour. Its groups 1 to 3 are the
/// numbers of red, green and blue.
pub const COLOUR: &'static str = "^red: (\\d+), green: (\\d+), blue: (\\d+)";

/// The byte of the digit `0`.
const ASCII_ZERO: u8 = 48;

/// The byte of the digit `9`.
const ASCII_NINE: u8 = 57;

/// The text of group `i` of a search: `None` where nothing matched, where the
/// pattern has no such group, and where the group took no part in the match.
pub open spec fn group(caps: Option<Seq<Option<Seq<char>>>>, i: int) -> Option<Seq<char>> {
    match caps {
        Some(groups) => if 0 <= i < groups.len() {
            groups[i]
        } else {
            None
        },
        None => None,
    }
}

/// Whether `c` is one of `0` to `9`.
pub open spec fn is_digit(c: char) -> bool {
    '0' <= c <= '9'
}

/// The number that a run of decimal digits writes, leading zeros allowed.
pub open spec fn decimal_value(digits: Seq<char>) -> nat
    decreases digits.len(),
{
    if digits.len() == 0 {
        0
    } else {
        (10 * decimal_value(digits.drop_last()) + (digits.last() as nat - '0' as nat)) as nat
    }
}

/// The 8-bit number that `text` writes in decimal: `None` unless `text` is
/// one or more of the digits `0` to `9` and their value is at most 255.
pub open spec fn decimal_u8(text: Seq<char>) -> Option<u8> {
    if text.len() > 0 && (forall|i: int| 0 <= i < text.len() ==> is_digit(#[trigger] text[i]))
        && decimal_value(text) <= 255 {
        Some(decimal_value(text) as u8)
    } else {
        None
    }
}

/// A prefix of a run of digits writes no greater number than the whole run.
pub proof fn lemma_decimal_prefix(digits: Seq<char>, n: int)
    requires
        0 <= n <= digits.len(),
        forall|i: int| 0 <= i < digits.len() ==> is_digit(#[trigger] digits[i]),
    ensures
        decimal_value(digits.take(n)) <= decimal_value(digits),
    decreases digits.len(),
{
    if n == digits.len() {
        assert(digits.take(n) =~= digits);
    } else {
        let shorter = digits.drop_last();
        assert(is_digit(digits[digits.len() - 1]));
        assert(shorter.take(n) =~= digits.take(n));
        lemma_decimal_prefix(shorter, n);
    }
}

/// Reads `text` as an 8-bit number in decimal.
pub fn parse_u8(text: &str) -> (value: Option<u8>)
    ensures
        value == decimal_u8(text@),
{
    if !text.is_ascii() {
        return None;
    }
    let bytes: &[u8] = text.as_bytes();
    proof {
        vstd::string::is_ascii_spec_bytes(text);
    }
    let n: usize = bytes.len();
    if n == 0 {
        return None;
    }
    let mut value: u8 = 0;
    let mut i: usize = 0;
    while i < n
        invariant
            n == bytes@.len(),
            n == text@.len(),
            0 <= i <= n,
            forall|k: int| 0 <= k < n ==> bytes@[k] == #[trigger] text@[k] as u8,
            forall|k: int| 0 <= k < n ==> '\0' <= #[trigger] text@[k] <= '\u{7f}',
            forall|k: int| 0 <= k < i ==> is_digit(#[trigger] text@[k]),
            value == decimal_value(text@.take(i as int)),
        decreases n - i,
    {
        let b: u8 = bytes[i];
        if b < ASCII_ZERO || b > ASCII_NINE {
            assert(!is_digit(text@[i as int]));
            return None;
        }
        let d: u8 = b - ASCII_ZERO;
        proof {
            let longer = text@.take(i + 1);
            assert(longer.drop_last() =~= text@.take(i as int));
            assert(longer.last() == text@[i as int]);
            assert(decimal_value(longer) == 10 * value + d);
            if 10 * value + d > 255 {
                if forall|k: int| 0 <= k < n ==> is_digit(#[trigger] text@[k]) {
                    lemma_decimal_prefix(text@, i + 1);
                }
            }
        }
        if value > 25 || (value == 25 && d > 5) {
            return None;
        }
        value = value * 10 + d;
        i = i + 1;
    }
    proof {
        assert(text@.take(n as int) =~= text@);
    }
    Some(value)
}

/// The 8-bit number that a group writes, if the group is there and writes
/// one.
pub open spec fn channel(text: Option<Seq<char>>) -> Option<u8> {
    match text {
        Some(digits) => decimal_u8(digits),
        None => None,
    }
}

/// The colour that a search for [`COLOUR`] stands for: the numbers of its
/// groups 1 to 3, and black unless the search matched with four groups that
/// each hold an 8-bit number.
pub open spec fn colour_of(caps: Option<Seq<Option<Seq<char>>>>) -> (u8, u8, u8) {
    match caps {
        Some(groups) => if groups.len() == 4 {
            match (channel(groups[1]), channel(groups[2]), channel(groups[3])) {
                (Some(red), Some(green), Some(blue)) => (red, green, blue),
                _ => (0u8, 0u8, 0u8),
            }
        } else {
            (0u8, 0u8, 0u8)
        },
        None => (0u8, 0u8, 0u8),
    }
}

/// The bracketed word of a file that lists words: what `regex` finds
/// between the first `[` and the next `]` or `)` with at least one character
/// between them, if it finds any.
pub open spec fn bracketed(text: Seq<char>) -> Option<Seq<char>> {
    group(regex_captures(BRACKETED@, text), 1)
}

/// The colour that a file holds, going by what `regex` finds in it.
pub open spec fn colour_in(text: Seq<char>) -> (u8, u8, u8) {
    colour_of(regex_captures(COLOUR@, text))
}

/// The text of group `i` of a search.
pub fn group_text(groups: &Option<Vec<Option<String>>>, i: usize) -> (text: Option<&str>)
    ensures
        text.deep_view() == group(groups.deep_view(), i as int),
{
    match groups {
        Some(found) => {
            if i < found.len() {
                match &found[i] {
                    Some(text) => Some(text.as_str()),
                    None => None,
                }
            } else {
                None
            }
        },
        None => None,
    }
}

/// The colour that a search for [`COLOUR`] stands for.
pub fn colour_from_captures(groups: &Option<Vec<Option<String>>>) -> (rgb: (u8, u8, u8))
    ensures
        rgb == colour_of(groups.deep_view()),
{
    let count: usize = match groups {
        Some(found) => found.len(),
        None => 0,
    };
    if count != 4 {
        return (0, 0, 0);
    }
    let red = match group_text(groups, 1) {
        Some(digits) => parse_u8(digits),
        None => None,
    };
    let green = match group_text(groups, 2) {
        Some(digits) => parse_u8(digits),
        None => None,
    };
    let blue = match group_text(groups, 3) {
        Some(digits) => parse_u8(digits),
        None => None,
    };
    match (red, green, blue) {
        (Some(red), Some(green), Some(blue)) => (red, green, blue),
        _ => (0, 0, 0),
    }
}

/// The lower-case hexadecimal digit of a number below 16.
pub open spec fn hex_digit(n: int) -> char {
    if n == 0 {
        '0'
    } else if n == 1 {
        '1'
    } else if n == 2 {
        '2'
    } else if n == 3 {
        '3'
    } else if n == 4 {
        '4'
    } else if n == 5 {
        '5'
    } else if n == 6 {
        '6'
    } else if n == 7 {
        '7'
    } else if n == 8 {
        '8'
    } else if n == 9 {
        '9'
    } else if n == 10 {
        'a'
    } else if n == 11 {
        'b'
    } else if n == 12 {
        'c'
    } else if n == 13 {
        'd'
    } else if n == 14 {
        'e'
    } else {
        'f'
    }
}

/// Whether `c` is a hexadecimal digit in lower case.
pub open spec fn is_lower_hex(c: char) -> bool {
    ('0' <= c <= '9') || ('a' <= c <= 'f')
}

/// The number below 16 that a lower-case hexadecimal digit stands for.
pub open spec fn hex_value(c: char) -> int {
    if '0' <= c <= '9' {
        c as int - '0' as int
    } else {
        c as int - 'a' as int + 10
    }
}

/// A colour as the driver takes it: two lower-case hexadecimal digits for
/// each of red, green and blue, and nothing else.
pub open spec fn hex_colour(red: u8, green: u8, blue: u8) -> Seq<char> {
    seq![
        hex_digit(red as int / 16),
        hex_digit(red as int % 16),
        hex_digit(green as int / 16),
        hex_digit(green as int % 16),
        hex_digit(blue as int / 16),
        hex_digit(blue as int % 16),
    ]
}

/// The one-letter text of a hexadecimal digit.
fn hex_digit_str(n: u8) -> (digit: &'static str)
    requires
        n < 16,
    ensures
        digit@ == seq![hex_digit(n as int)],
{
    proof {
        reveal_strlit("0");
        reveal_strlit("1");
        reveal_strlit("2");
        reveal_strlit("3");
        reveal_strlit("4");
        reveal_strlit("5");
        reveal_strlit("6");
        reveal_strlit("7");
        reveal_strlit("8");
        reveal_strlit("9");
        reveal_strlit("a");
        reveal_strlit("b");
        reveal_strlit("c");
        reveal_strlit("d");
        reveal_strlit("e");
        reveal_strlit("f");
    }
    let digit: &'static str = if n == 0 {
        "0"
    } else if n == 1 {
        "1"
    } else if n == 2 {
        "2"
    } else if n == 3 {
        "3"
    } else if n == 4 {
        "4"
    } else if n == 5 {
        "5"
    } else if n == 6 {
        "6"
    } else if n == 7 {
        "7"
    } else if n == 8 {
        "8"
    } else if n == 9 {
        "9"
    } else if n == 10 {
        "a"
    } else if n == 11 {
        "b"
    } else if n == 12 {
        "c"
    } else if n == 13 {
        "d"
    } else if n == 14 {
        "e"
    } else {
        "f"
    };
    assert(digit@ =~= seq![hex_digit(n as int)]);
    digit
}

/// Writes a colour as the driver takes it: `0f0700` for red 15, green 7 and
/// blue 0.
pub fn render_colour(red: u8, green: u8, blue: u8) -> (text: String)
    ensures
        text@ == hex_colour(red, green, blue),
{
    let mut text = String::new();
    text.append(hex_digit_str(red / 16));
    text.append(hex_digit_str(red % 16));
    text.append(hex_digit_str(green / 16));
    text.append(hex_digit_str(green % 16));
    text.append(hex_digit_str(blue / 16));
    text.append(hex_digit_str(blue % 16));
    assert(text@ =~= hex_colour(red, green, blue));
    text
}

/// A rendered colour is six lower-case hexadecimal digits, and the colour can
/// be read back from them: each channel is sixteen times its first digit plus
/// its second.
pub proof fn lemma_hex_colour_reads_back(red: u8, green: u8, blue: u8)
    ensures
        hex_colour(red, green, blue).len() == 6,
        forall|i: int| 0 <= i < 6 ==> is_lower_hex(#[trigger] hex_colour(red, green, blue)[i]),
        red == 16 * hex_value(hex_colour(red, green, blue)[0]) + hex_value(
            hex_colour(red, green, blue)[1],
        ),
        green == 16 * hex_value(hex_colour(red, green, blue)[2]) + hex_value(
            hex_colour(red, green, blue)[3],
        ),
        blue == 16 * hex_value(hex_colour(red, green, blue)[4]) + hex_value(
            hex_colour(red, green, blue)[5],
        ),
{
    lemma_hex_digit_reads_back(red as int / 16);
    lemma_hex_digit_reads_back(red as int % 16);
    lemma_hex_digit_reads_back(green as int / 16);
    lemma_hex_digit_reads_back(green as int % 16);
    lemma_hex_digit_reads_back(blue as int / 16);
    lemma_hex_digit_reads_back(blue as int % 16);
}

/// The digit of a number below 16 is a lower-case hexadecimal digit that
/// stands for that number.
pub proof fn lemma_hex_digit_reads_back(n: int)
    requires
        0 <= n < 16,
    ensures
        is_lower_hex(hex_digit(n)),
        hex_value(hex_digit(n)) == n,
{
}

/// Two colours that are rendered alike are the same colour.
pub proof fn lemma_hex_colour_injective(r1: u8, g1: u8, b1: u8, r2: u8, g2: u8, b2: u8)
    requires
        hex_colour(r1, g1, b1) == hex_colour(r2, g2, b2),
    ensures
        r1 == r2,
        g1 == g2,
        b1 == b2,
{
    lemma_hex_colour_reads_back(r1, g1, b1);
    lemma_hex_colour_reads_back(r2, g2, b2);
}

} // verus!
