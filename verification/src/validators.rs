//! The two gatekeepers: the grammar of a text message and the shape of a grid.

use vstd::prelude::*;
use vstd::string::*;
use crate::format::convert::{char_to_int, in_table, lower, to_lower};

verus! {

/// Rows of a grid.
pub const ROWS: usize = 6;

/// Columns of a grid, and so the width of a row.
pub const COLUMNS: usize = 22;

/// Whether the board can show the character: a letter `A` to `Z` in either
/// case, a digit `0` to `9`, the space, or a symbol of the character table.
pub open spec fn supported(c: char) -> bool {
    in_table(lower(c))
}

/// Whether the character is one of the digits `0` to `9`.
pub open spec fn is_digit(c: char) -> bool {
    '0' as u32 <= c as u32 <= '9' as u32
}

/// The length of the code escape that starts at `at`: 3 for `{N}`, 4 for
/// `{NN}`, with `N` a digit, and 0 where no escape starts there.
pub open spec fn escape_len(text: Seq<char>, at: int) -> int {
    if 0 <= at && at + 2 < text.len() && text[at] == '{' && is_digit(text[at + 1]) && text[at + 2]
        == '}' {
        3
    } else if 0 <= at && at + 3 < text.len() && text[at] == '{' && is_digit(text[at + 1])
        && is_digit(text[at + 2]) && text[at + 3] == '}' {
        4
    } else {
        0
    }
}

/// Whether the text from `at` on is made of items of the grammar: each item a
/// supported character or a code escape.
pub open spec fn follows_from(text: Seq<char>, at: int) -> bool
    decreases text.len() - at,
{
    if at < 0 {
        false
    } else if at >= text.len() {
        true
    } else if supported(text[at]) {
        follows_from(text, at + 1)
    } else if escape_len(text, at) > 0 {
        follows_from(text, at + escape_len(text, at))
    } else {
        false
    }
}

/// The grammar of a text message: any number of items, each a supported
/// character or a code of one or two digits between braces. The length of
/// the text is free.
pub open spec fn follows_grammar(text: Seq<char>) -> bool {
    follows_from(text, 0)
}

/// Whether every row of the grid is `COLUMNS` wide and there are `ROWS` of them.
pub open spec fn grid_shaped(grid: Seq<Vec<i32>>) -> bool {
    &&& grid.len() == ROWS
    &&& forall|i: int| 0 <= i < grid.len() ==> (#[trigger] grid[i]).len() == COLUMNS
}

/// Whether the board can show the character; see `supported`.
pub fn is_supported(c: char) -> (yes: bool)
    ensures
        yes == supported(c),
{
    let folded: char = to_lower(c);
    folded == ' ' || char_to_int(folded) != 0
}

/// Whether the character is one of the digits `0` to `9`.
pub fn is_code_digit(c: char) -> (yes: bool)
    ensures
        yes == is_digit(c),
{
    let n: u32 = c as u32;
    48 <= n && n <= 57
}

/// The length of the code escape that starts at `at`, 0 where none does; see
/// `escape_len`.
pub fn escape_at(text: &str, at: usize) -> (found: usize)
    ensures
        found == escape_len(text@, at as int),
{
    let len: usize = text.unicode_len();
    if at >= len || len - at < 3 {
        return 0;
    }
    if text.get_char(at) != '{' || !is_code_digit(text.get_char(at + 1)) {
        return 0;
    }
    let third: char = text.get_char(at + 2);
    if third == '}' {
        return 3;
    }
    if len - at >= 4 && is_code_digit(third) && text.get_char(at + 3) == '}' {
        return 4;
    }
    0
}

/// Validates the text of a message against the board's grammar. The length
/// of the text is not looked at.
pub fn is_valid_text(text: &str) -> (valid: bool)
    ensures
        valid == follows_grammar(text@),
{
    let len: usize = text.unicode_len();
    let mut at: usize = 0;
    while at < len
        invariant
            len == text@.len(),
            at <= len,
            follows_from(text@, at as int) == follows_grammar(text@),
        decreases len - at,
    {
        if is_supported(text.get_char(at)) {
            at += 1;
        } else {
            let skip: usize = escape_at(text, at);
            if skip == 0 {
                return false;
            }
            at += skip;
        }
    }
    true
}

/// Validates the shape of a grid: exactly 6 rows of exactly 22 columns. The
/// codes in the cells are not looked at.
pub fn is_valid_vec(characters: &Vec<Vec<i32>>) -> (valid: bool)
    ensures
        valid == grid_shaped(characters@),
{
    if characters.len() != ROWS {
        return false;
    }
    let mut i: usize = 0;
    while i < characters.len()
        invariant
            i <= characters.len(),
            forall|k: int| 0 <= k < i ==> (#[trigger] characters@[k]).len() == COLUMNS,
        decreases characters.len() - i,
    {
        if characters[i].len() != COLUMNS {
            return false;
        }
        i += 1;
    }
    true
}

/// A text made of supported characters alone follows the grammar from any
/// place on.
pub proof fn alphabet_tail_law(text: Seq<char>, at: int)
    requires
        0 <= at,
        forall|i: int| at <= i < text.len() ==> supported(#[trigger] text[i]),
    ensures
        follows_from(text, at),
    decreases text.len() - at,
{
    if at < text.len() {
        alphabet_tail_law(text, at + 1);
    }
}

/// A text made of supported characters alone is valid.
pub proof fn alphabet_accepted_law(text: Seq<char>)
    requires
        forall|i: int| 0 <= i < text.len() ==> supported(#[trigger] text[i]),
    ensures
        follows_grammar(text),
{
    alphabet_tail_law(text, 0);
}

/// Whether the character at `i` is the opening or the closing brace of a code
/// escape of the text.
pub open spec fn brace_of_escape(text: Seq<char>, i: int) -> bool {
    ||| text[i] == '{' && escape_len(text, i) > 0
    ||| text[i] == '}' && escape_len(text, i - 2) == 3
    ||| text[i] == '}' && escape_len(text, i - 3) == 4
}

/// In a text that follows the grammar from `at` on, every character from
/// there on is supported or is a brace of a code escape.
pub proof fn unsupported_tail_law(text: Seq<char>, at: int, i: int)
    requires
        follows_from(text, at),
        at <= i < text.len(),
    ensures
        supported(text[i]) || brace_of_escape(text, i),
    decreases text.len() - at,
{
    if supported(text[at]) {
        if i > at {
            unsupported_tail_law(text, at + 1, i);
        }
    } else {
        let skip = escape_len(text, at);
        if i >= at + skip {
            unsupported_tail_law(text, at + skip, i);
        }
    }
}

/// A text that holds a character which is neither supported nor a brace of a
/// code escape is not valid, wherever the character stands.
pub proof fn unsupported_refused_law(text: Seq<char>, i: int)
    requires
        0 <= i < text.len(),
        !supported(text[i]),
        !brace_of_escape(text, i),
    ensures
        !follows_grammar(text),
{
    if follows_grammar(text) {
        unsupported_tail_law(text, 0, i);
    }
}

} // verus!
