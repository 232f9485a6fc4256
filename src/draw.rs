use vstd::prelude::*;
use vstd::string::StrSliceExecFns;

use crate::geometry::{Point, Rect};

verus! {

/// A colour with 8-bit channels.
#[derive(Clone, Copy, Debug, PartialEq, Eq, Structural)]
pub struct Rgb {
    pub r: u8,
    pub g: u8,
    pub b: u8,
}

impl Rgb {
    pub fn new(r: u8, g: u8, b: u8) -> (c: Rgb)
        ensures
            c == (Rgb { r, g, b }),
    {
        Rgb { r, g, b }
    }

    pub fn white() -> (c: Rgb)
        ensures
            c == (Rgb { r: 255, g: 255, b: 255 }),
    {
        Rgb { r: 255, g: 255, b: 255 }
    }

    pub fn black() -> (c: Rgb)
        ensures
            c == (Rgb { r: 0, g: 0, b: 0 }),
    {
        Rgb { r: 0, g: 0, b: 0 }
    }

    pub fn magenta() -> (c: Rgb)
        ensures
            c == (Rgb { r: 255, g: 0, b: 255 }),
    {
        Rgb { r: 255, g: 0, b: 255 }
    }

    pub fn yellow() -> (c: Rgb)
        ensures
            c == (Rgb { r: 255, g: 255, b: 0 }),
    {
        Rgb { r: 255, g: 255, b: 0 }
    }
}

/// A foreground and a background colour.
#[derive(Clone, Copy, Debug, PartialEq, Eq, Structural)]
pub struct ColorPair {
    pub fg: Rgb,
    pub bg: Rgb,
}

impl ColorPair {
    pub fn new(fg: Rgb, bg: Rgb) -> (c: ColorPair)
        ensures
            c == (ColorPair { fg, bg }),
    {
        ColorPair { fg, bg }
    }
}

/// Text printed in one foreground colour.
#[derive(Clone, Debug)]
pub struct TextRun {
    pub fg: Rgb,
    pub text: String,
}

/// A run of text in several colours, printed without wrapping at words.
#[derive(Clone, Debug)]
pub struct StyledText {
    pub runs: Vec<TextRun>,
}

/// The number of characters in the first `n` runs.
pub open spec fn chars_in_runs(runs: Seq<TextRun>, n: int) -> int
    decreases n,
{
    if n <= 0 {
        0
    } else {
        chars_in_runs(runs, n - 1) + runs[n - 1].text@.len()
    }
}

impl StyledText {
    /// The text of each run, in order.
    pub open spec fn run_texts(self) -> Seq<Seq<char>> {
        self.runs@.map_values(|r: TextRun| r.text@)
    }

    /// The characters of all runs, in order.
    pub open spec fn char_count(self) -> int {
        chars_in_runs(self.runs@, self.runs@.len() as int)
    }

    /// The number of characters of all runs.
    pub fn char_len(&self) -> (n: usize)
        requires
            self.char_count() <= usize::MAX,
        ensures
            n == self.char_count(),
    {
        let mut n: usize = 0;
        let mut i: usize = 0;
        while i < self.runs.len()
            invariant
                0 <= i <= self.runs@.len(),
                n == chars_in_runs(self.runs@, i as int),
                self.char_count() <= usize::MAX,
            decreases self.runs@.len() - i,
        {
            proof {
                lemma_chars_in_runs_mono(self.runs@, i + 1, self.runs@.len() as int);
                lemma_chars_in_runs_nonneg(self.runs@, i as int);
            }
            n = n + self.runs[i].text.as_str().unicode_len();
            i = i + 1;
        }
        n
    }

    pub fn empty() -> (t: StyledText)
        ensures
            t.runs@.len() == 0,
    {
        StyledText { runs: Vec::new() }
    }

    /// Appends `text` in the colour `fg`.
    pub fn append(&mut self, fg: Rgb, text: &str)
        ensures
            final(self).runs@.len() == old(self).runs@.len() + 1,
            final(self).runs@.take(old(self).runs@.len() as int) == old(self).runs@,
            final(self).runs@.last().fg == fg,
            final(self).runs@.last().text@ == text@,
            final(self).char_count() == old(self).char_count() + text@.len(),
    {
        let run = TextRun { fg, text: text.to_owned() };
        self.runs.push(run);
        proof {
            let n = old(self).runs@.len() as int;
            assert(self.runs@.take(n) =~= old(self).runs@);
            lemma_chars_in_runs_prefix(old(self).runs@, self.runs@, n);
        }
    }

    /// Appends the characters of `text` in the colour `fg`.
    pub fn append_string(&mut self, fg: Rgb, text: String)
        ensures
            final(self).runs@.len() == old(self).runs@.len() + 1,
            final(self).runs@.take(old(self).runs@.len() as int) == old(self).runs@,
            final(self).runs@.last().fg == fg,
            final(self).runs@.last().text@ == text@,
            final(self).char_count() == old(self).char_count() + text@.len(),
    {
        let ghost t = text@;
        let run = TextRun { fg, text };
        self.runs.push(run);
        proof {
            let n = old(self).runs@.len() as int;
            assert(self.runs@.take(n) =~= old(self).runs@);
            lemma_chars_in_runs_prefix(old(self).runs@, self.runs@, n);
        }
    }
}

/// A count of characters is never negative.
pub proof fn lemma_chars_in_runs_nonneg(runs: Seq<TextRun>, n: int)
    ensures
        chars_in_runs(runs, n) >= 0,
    decreases n,
{
    if n > 0 {
        lemma_chars_in_runs_nonneg(runs, n - 1);
    }
}

/// A longer prefix holds at least as many characters.
pub proof fn lemma_chars_in_runs_mono(runs: Seq<TextRun>, m: int, n: int)
    requires
        m <= n,
    ensures
        chars_in_runs(runs, m) <= chars_in_runs(runs, n),
    decreases n - m,
{
    if m < n {
        lemma_chars_in_runs_mono(runs, m, n - 1);
        if n > 0 {
            assert(chars_in_runs(runs, n) == chars_in_runs(runs, n - 1) + runs[n - 1].text@.len());
        }
    }
}

/// Counting characters over a prefix reads only that prefix.
proof fn lemma_chars_in_runs_prefix(a: Seq<TextRun>, b: Seq<TextRun>, n: int)
    requires
        0 <= n <= a.len(),
        n <= b.len(),
        forall|i: int| 0 <= i < n ==> a[i] == b[i],
    ensures
        chars_in_runs(a, n) == chars_in_runs(b, n),
    decreases n,
{
    if n > 0 {
        lemma_chars_in_runs_prefix(a, b, n - 1);
    }
}

/// One drawing operation, in the order that the backend is to perform it.
#[derive(Clone, Debug)]
pub enum DrawCommand {
    /// A single-line box along the border of `rect`.
    Box { rect: Rect, color: ColorPair },
    /// `text` printed from `pos` rightward.
    Print { pos: Point, text: String, color: ColorPair },
    /// `text` laid out in a block `width` columns wide and `rows` high whose
    /// corner is at `origin`; only the cells of `clip` (in block
    /// coordinates) are drawn.
    Styled { origin: Point, width: i32, rows: i32, clip: Rect, text: StyledText },
    /// `text` wrapped at word boundaries in the default foreground colour, in
    /// a block `width` columns wide and `rows` high whose corner is at
    /// `origin`; only the cells of `clip` (in block coordinates) are drawn.
    Wrapped { origin: Point, width: i32, rows: i32, clip: Rect, text: String },
}

/// The drawing operations of one widget, submitted together.
#[derive(Clone, Debug)]
pub struct DrawBatch {
    pub commands: Vec<DrawCommand>,
}

impl DrawBatch {
    pub fn new() -> (b: DrawBatch)
        ensures
            b.commands@.len() == 0,
    {
        DrawBatch { commands: Vec::new() }
    }

    pub fn push(&mut self, command: DrawCommand)
        ensures
            final(self).commands@ == old(self).commands@.push(command),
    {
        self.commands.push(command);
    }

    pub fn draw_box(&mut self, rect: Rect, color: ColorPair)
        ensures
            final(self).commands@ == old(self).commands@.push(DrawCommand::Box { rect, color }),
    {
        self.commands.push(DrawCommand::Box { rect, color });
    }

    pub fn print_color(&mut self, pos: Point, text: &str, color: ColorPair)
        ensures
            final(self).commands@.len() == old(self).commands@.len() + 1,
            final(self).commands@.take(old(self).commands@.len() as int) == old(self).commands@,
            final(self).commands@.last() matches DrawCommand::Print { pos: p, text: t, color: c }
                && p == pos && t@ == text@ && c == color,
    {
        self.commands.push(DrawCommand::Print { pos, text: text.to_owned(), color });
        proof {
            assert(self.commands@.take(old(self).commands@.len() as int) =~= old(self).commands@);
        }
    }
}

} // verus!
