//! The character codec: the board's fixed table from characters to codes.

use vstd::prelude::*;

verus! {

/// The largest code that the table assigns.
pub const MAX_CODE: i32 = 62;

/// The code of a punctuation mark or symbol of the table, 0 for any other
/// character.
pub open spec fn symbol_code(c: char) -> int {
    if c == '!' {
        37
    } else if c == '@' {
        38
    } else if c == '#' {
        39
    } else if c == '$' {
        40
    } else if c == '(' {
        41
    } else if c == ')' {
        42
    } else if c == '-' {
        44
    } else if c == '+' {
        46
    } else if c == '&' {
        47
    } else if c == '=' {
        48
    } else if c == ';' {
        49
    } else if c == ':' {
        50
    } else if c == '\'' {
        52
    } else if c == '"' {
        53
    } else if c == '%' {
        54
    } else if c == ',' {
        55
    } else if c == '.' {
        56
    } else if c == '/' {
        59
    } else if c == '?' {
        60
    } else if c == '\u{b0}' {
        62
    } else {
        0
    }
}

/// The code of a character: the letters `a` to `z` are 1 to 26, the digits
/// `1` to `9` are 27 to 35, `0` is 36, the symbols follow `symbol_code`, and
/// the space and every character outside the table are 0 (blank).
pub open spec fn char_code(c: char) -> int {
    let n = c as u32 as int;
    if 'a' as u32 <= n <= 'z' as u32 {
        n - ('a' as u32) + 1
    } else if '1' as u32 <= n <= '9' as u32 {
        n - ('1' as u32) + 27
    } else if c == '0' {
        36
    } else {
        symbol_code(c)
    }
}

/// Whether the table holds the character: the space, a lower-case letter, a
/// digit or one of the symbols.
pub open spec fn in_table(c: char) -> bool {
    c == ' ' || char_code(c) != 0
}

/// The lower-case form of an upper-case letter `A` to `Z`; any other
/// character is left as it is.
pub open spec fn lower(c: char) -> char {
    if 'A' as u32 <= c as u32 <= 'Z' as u32 {
        ((c as u32 + 32) as u8) as char
    } else {
        c
    }
}

/// Folds an upper-case letter to lower case; see `lower`.
pub fn to_lower(c: char) -> (r: char)
    ensures
        r == lower(c),
{
    let n: u32 = c as u32;
    if 65 <= n && n <= 90 {
        ((n + 32) as u8) as char
    } else {
        c
    }
}

/// Maps a character to its code on the board. The mapping is total: a
/// character that the table does not hold becomes 0, the blank.
pub fn char_to_int(character: char) -> (code: i32)
    ensures
        code == char_code(character),
        0 <= code <= MAX_CODE,
{
    match character {
        ' ' => 0,
        'a' => 1,
        'b' => 2,
        'c' => 3,
        'd' => 4,
        'e' => 5,
        'f' => 6,
        'g' => 7,
        'h' => 8,
        'i' => 9,
        'j' => 10,
        'k' => 11,
        'l' => 12,
        'm' => 13,
        'n' => 14,
        'o' => 15,
        'p' => 16,
        'q' => 17,
        'r' => 18,
        's' => 19,
        't' => 20,
        'u' => 21,
        'v' => 22,
        'w' => 23,
        'x' => 24,
        'y' => 25,
        'z' => 26,
        '1' => 27,
        '2' => 28,
        '3' => 29,
        '4' => 30,
        '5' => 31,
        '6' => 32,
        '7' => 33,
        '8' => 34,
        '9' => 35,
        '0' => 36,
        '!' => 37,
        '@' => 38,
        '#' => 39,
        '$' => 40,
        '(' => 41,
        ')' => 42,
        '-' => 44,
        '+' => 46,
        '&' => 47,
        '=' => 48,
        ';' => 49,
        ':' => 50,
        '\'' => 52,
        '"' => 53,
        '%' => 54,
        ',' => 55,
        '.' => 56,
        '/' => 59,
        '?' => 60,
        '\u{b0}' => 62,
        _ => 0,
    }
}

} // verus!
