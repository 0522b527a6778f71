//! Formatting of one line of text into a row of character codes.

use vstd::prelude::*;
use vstd::string::*;
use crate::error::Error;
use crate::format::convert::{char_code, char_to_int, lower, to_lower, MAX_CODE};
use crate::validators::{follows_grammar, is_valid_text};

pub mod convert;

verus! {

/// The width of a row.
pub const WIDTH: usize = 22;

/// Where a text stands in its row.
#[derive(Clone, Copy, Debug, PartialEq, Eq, Structural)]
pub enum Justification {
    /// The text starts in the first cell.
    Left,
    /// The text ends in the last cell.
    Right,
    /// The blanks are shared between both sides; an odd one goes to the right.
    Center,
    /// As `Center`.
    Default,
}

/// The justification that a word asks for: `left`, `right` or `center`; any
/// other word is `Default`.
pub open spec fn justification_of(word: Seq<char>) -> Justification {
    if word == "left"@ {
        Justification::Left
    } else if word == "right"@ {
        Justification::Right
    } else if word == "center"@ {
        Justification::Center
    } else {
        Justification::Default
    }
}

/// The part of a text that a row shows: its first 22 characters.
pub open spec fn kept(text: Seq<char>) -> Seq<char> {
    if text.len() > WIDTH {
        text.take(WIDTH as int)
    } else {
        text
    }
}

/// The number of blank cells before a text of `len` characters, `len` at most 22.
pub open spec fn lead(len: int, justify: Justification) -> int {
    match justify {
        Justification::Left => 0,
        Justification::Right => WIDTH - len,
        Justification::Center | Justification::Default => (WIDTH - len) / 2,
    }
}

/// The number of blank cells after a text of `len` characters, `len` at most 22.
pub open spec fn trail(len: int, justify: Justification) -> int {
    WIDTH - len - lead(len, justify)
}

/// The code in cell `i` of the row of a text: blank before and after the
/// text, and under the text the code of the lower-cased character.
pub open spec fn row_cell(text: Seq<char>, justify: Justification, i: int) -> int {
    let shown = kept(text);
    let first = lead(shown.len() as int, justify);
    if first <= i < first + shown.len() {
        char_code(lower(shown[i - first]))
    } else {
        0
    }
}

/// The row of a text: 22 cells, each as `row_cell` says.
pub open spec fn row_codes(text: Seq<char>, justify: Justification) -> Seq<i32> {
    Seq::new(WIDTH as nat, |i: int| row_cell(text, justify, i) as i32)
}

/// What `convert_line` owes: the row of a text that follows the grammar, and
/// for any other text the refusal.
pub open spec fn line_result(
    text: Seq<char>,
    justify: Seq<char>,
    result: Result<Vec<i32>, Error>,
) -> bool {
    if follows_grammar(text) {
        result matches Ok(row) && row@ == row_codes(text, justification_of(justify))
    } else {
        result == Err::<Vec<i32>, Error>(Error::TextValidation)
    }
}

/// Whether two strings hold the same characters.
pub fn same_text(a: &str, b: &str) -> (same: bool)
    ensures
        same == (a@ == b@),
{
    let n: usize = a.unicode_len();
    if n != b.unicode_len() {
        return false;
    }
    let mut i: usize = 0;
    while i < n
        invariant
            n == a@.len(),
            n == b@.len(),
            i <= n,
            forall|k: int| 0 <= k < i ==> a@[k] == b@[k],
        decreases n - i,
    {
        if a.get_char(i) != b.get_char(i) {
            return false;
        }
        i += 1;
    }
    assert(a@ =~= b@);
    true
}

impl Justification {
    /// Reads a justification from a word; see `justification_of`.
    pub fn parse(word: &str) -> (justify: Justification)
        ensures
            justify == justification_of(word@),
    {
        if same_text(word, "left") {
            Justification::Left
        } else if same_text(word, "right") {
            Justification::Right
        } else if same_text(word, "center") {
            Justification::Center
        } else {
            Justification::Default
        }
    }
}

/// Formats a text into one row: the text is cut after 22 characters, placed
/// as `justify` says, lower-cased and mapped cell by cell through the
/// character table. The text is not validated here.
pub fn format_row(text: &str, justify: Justification) -> (row: Vec<i32>)
    ensures
        row@ == row_codes(text@, justify),
        row@.len() == WIDTH,
        forall|i: int| 0 <= i < WIDTH ==> 0 <= #[trigger] row@[i] <= MAX_CODE,
{
    let total: usize = text.unicode_len();
    let len: usize = if total > WIDTH { WIDTH } else { total };
    let first: usize = match justify {
        Justification::Left => 0,
        Justification::Right => WIDTH - len,
        Justification::Center | Justification::Default => (WIDTH - len) / 2,
    };
    let mut row: Vec<i32> = Vec::new();
    let mut i: usize = 0;
    while i < WIDTH
        invariant
            i <= WIDTH,
            total == text@.len(),
            len == kept(text@).len(),
            len <= WIDTH,
            first == lead(len as int, justify),
            first + len <= WIDTH,
            row@.len() == i,
            forall|k: int| 0 <= k < i ==> row@[k] == row_cell(text@, justify, k) as i32,
            forall|k: int| 0 <= k < i ==> 0 <= #[trigger] row@[k] <= MAX_CODE,
        decreases WIDTH - i,
    {
        if first <= i && i < first + len {
            let c: char = text.get_char(i - first);
            row.push(char_to_int(to_lower(c)));
        } else {
            row.push(0);
        }
        i += 1;
    }
    assert(row@ =~= row_codes(text@, justify));
    row
}

/// Converts a line of text into a row of 22 character codes. A text that
/// does not follow the grammar gives `Error::TextValidation`; any other text
/// gives its row, with `justify` read as `left`, `right` or `center`
/// (anything else centers too).
pub fn convert_line(text: String, justify: &str) -> (result: Result<Vec<i32>, Error>)
    ensures
        line_result(text@, justify@, result),
{
    if !is_valid_text(text.as_str()) {
        return Err(Error::TextValidation);
    }
    Ok(format_row(text.as_str(), Justification::parse(justify)))
}

/// A row is always 22 cells wide, whatever the text and the justification,
/// and every cell holds a code of the table.
pub proof fn row_width_law(text: Seq<char>, justify: Justification)
    ensures
        row_codes(text, justify).len() == WIDTH,
        forall|i: int|
            0 <= i < WIDTH ==> 0 <= #[trigger] row_codes(text, justify)[i] <= MAX_CODE,
{
}

/// A text longer than 22 characters gives the row of its first 22 characters.
pub proof fn truncation_law(text: Seq<char>, justify: Justification)
    requires
        text.len() > WIDTH,
    ensures
        row_codes(text, justify) == row_codes(text.take(WIDTH as int), justify),
{
    assert(kept(text.take(WIDTH as int)) == kept(text));
    assert(row_codes(text, justify) =~= row_codes(text.take(WIDTH as int), justify));
}

/// Justified to the left, a text of at most 22 characters fills the first
/// cells with the codes of its lower-cased characters, in order, and every
/// cell after them is blank.
pub proof fn left_row_law(text: Seq<char>)
    requires
        text.len() <= WIDTH,
    ensures
        forall|i: int|
            0 <= i < text.len() ==> #[trigger] row_codes(text, Justification::Left)[i]
                == char_code(lower(text[i])),
        forall|i: int|
            text.len() <= i < WIDTH ==> #[trigger] row_codes(text, Justification::Left)[i] == 0,
{
}

/// Justified to the right, a text of at most 22 characters fills the last
/// cells, and every cell before them is blank.
pub proof fn right_row_law(text: Seq<char>)
    requires
        text.len() <= WIDTH,
    ensures
        forall|i: int|
            0 <= i < WIDTH - text.len() ==> #[trigger] row_codes(text, Justification::Right)[i]
                == 0,
        forall|i: int|
            WIDTH - text.len() <= i < WIDTH ==> #[trigger] row_codes(
                text,
                Justification::Right,
            )[i] == char_code(lower(text[i - (WIDTH - text.len())])),
{
}

/// Centered, the blanks before and after a text depend on its length alone:
/// half of them stand before it, rounded down, and the rest after it, so the
/// right side has as many as the left or one more. `Default` centers too.
pub proof fn center_split_law(text: Seq<char>)
    ensures
        lead(kept(text).len() as int, Justification::Center) == (WIDTH - kept(text).len()) / 2,
        trail(kept(text).len() as int, Justification::Center) == lead(
            kept(text).len() as int,
            Justification::Center,
        ) + (WIDTH - kept(text).len()) % 2,
        forall|i: int|
            0 <= i < lead(kept(text).len() as int, Justification::Center)
                ==> #[trigger] row_codes(text, Justification::Center)[i] == 0,
        forall|i: int|
            0 <= i < kept(text).len() ==> #[trigger] row_codes(text, Justification::Center)[lead(
                kept(text).len() as int,
                Justification::Center,
            ) + i] == char_code(lower(text[i])),
        forall|i: int|
            WIDTH - trail(kept(text).len() as int, Justification::Center) <= i < WIDTH
                ==> #[trigger] row_codes(text, Justification::Center)[i] == 0,
        row_codes(text, Justification::Default) == row_codes(text, Justification::Center),
{
    assert(row_codes(text, Justification::Default) =~= row_codes(text, Justification::Center));
}

} // verus!
