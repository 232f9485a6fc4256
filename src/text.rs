use vstd::prelude::*;

use bracket_lib::terminal::{TextBlock, TextBuilder};

use crate::draw::StyledText;

verus! {

/// Where the cursor of a text block `width` columns wide and `rows` high
/// stands after `text` was printed into it wrapped at spaces, or `None` when
/// the text ran out of room.
pub uninterp spec fn wrapped_end(width: i32, rows: i32, text: Seq<char>) -> Option<(i32, i32)>;

/// Relies on bracket-terminal's `TextBlock::print` of a
/// `TextBuilder::line_wrap` command: it writes each word and a space, moving
/// to the next row first when the word would reach the last column, fails
/// once a cell past the block is needed, and otherwise leaves the cursor
/// inside the block or just below its last row. The `n` characters make at
/// most `n + 1` pieces and `n + 1` cells, so the cursor leaves a row at most
/// once per piece and once per full row: `2n + 3` rows always hold the text.
/// The bound on the length keeps the column plus a word's length in `i32`.
#[verifier::external_body]
pub(crate) fn print_wrapped(width: i32, rows: i32, text: &str) -> (r: Option<(i32, i32)>)
    requires
        0 < width,
        0 <= rows,
        (rows + 2) * width <= i32::MAX,
        text@.len() + width <= i32::MAX,
    ensures
        r == wrapped_end(width, rows, text@),
        rows >= 2 * text@.len() + 3 ==> r is Some,
        r matches Some((x, y)) ==> 0 <= x < width && 0 <= y && (y < rows || (y == rows && x
            == 0)),
{
    let mut block = TextBlock::new(0, 0, width, rows);
    let mut buf = TextBuilder::empty();
    buf.line_wrap(text);
    match block.print(&buf) {
        Ok(()) => Some((block.get_cursor().x, block.get_cursor().y)),
        Err(_) => None,
    }
}

/// Relies on bracket-terminal's `TextBlock::print` of `TextBuilder::append`
/// commands: each character takes the next cell, left to right, continuing
/// at the start of the next row after the last column; it fails when a cell
/// past the block is needed.
#[verifier::external_body]
pub(crate) fn print_runs(width: i32, rows: i32, text: &StyledText) -> (r: Option<(i32, i32)>)
    requires
        0 < width,
        0 <= rows,
        (rows + 2) * width <= i32::MAX,
    ensures
        text.char_count() <= width * rows ==> r == Some(
            ((text.char_count() % width as int) as i32, (text.char_count() / width as int) as i32),
        ),
        text.char_count() > width * rows ==> r is None,
{
    let mut block = TextBlock::new(0, 0, width, rows);
    let mut buf = TextBuilder::empty();
    for run in text.runs.iter() {
        buf.append(&run.text);
    }
    match block.print(&buf) {
        Ok(()) => Some((block.get_cursor().x, block.get_cursor().y)),
        Err(_) => None,
    }
}


/// The decimal digits `0` through `9`.
pub open spec fn digits() -> Seq<char> {
    seq!['0', '1', '2', '3', '4', '5', '6', '7', '8', '9']
}

/// The decimal notation of `n`: its digits, most significant first, without
/// sign or leading zeros.
pub open spec fn decimal(n: nat) -> Seq<char>
    decreases n,
{
    if n < 10 {
        seq![digits()[n as int]]
    } else {
        decimal(n / 10).push(digits()[(n % 10) as int])
    }
}

/// Relies on std's `Display` for `usize` (through `ToString`): the decimal
/// digits of the number, most significant first, with no sign or padding.
#[verifier::external_body]
pub(crate) fn decimal_string(n: usize) -> (r: String)
    ensures
        r@ == decimal(n as nat),
{
    n.to_string()
}

/// Relies on std's `Display` for `char` (through `ToString`): the string
/// holding that one character.
#[verifier::external_body]
pub(crate) fn char_string(c: char) -> (r: String)
    ensures
        r@ == seq![c],
{
    c.to_string()
}

} // verus!
