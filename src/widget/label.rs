use vstd::prelude::*;
use vstd::string::StrSliceExecFns;
use vstd::arithmetic::div_mod::{lemma_div_pos_is_pos, lemma_fundamental_div_mod, lemma_mod_pos_bound};

use crate::draw::{lemma_chars_in_runs_nonneg, DrawCommand, StyledText};
use crate::geometry::{abs_int, is_i32, Point, Rect};
use crate::text::{print_runs, print_wrapped, wrapped_end};
use crate::layout::Layout;
use crate::ui::Ui;
use crate::widget::Widget;
use crate::UiResult;

verus! {

/// The cells that a print into a block `width` columns wide and `rows` high
/// took, from where its cursor ended: all rows above the cursor's, and its
/// own row if anything stands on it; the full width once a second row was
/// reached. A print that ran out of room filled the whole block (nothing, if
/// the block has no rows).
pub open spec fn block_extent(width: int, rows: int, end: Option<(i32, i32)>) -> (int, int) {
    match end {
        None => (
            if rows > 0 {
                width
            } else {
                0
            },
            rows,
        ),
        Some((x, y)) => (
            if y > 0 {
                width
            } else {
                x as int
            },
            if x > 0 {
                y + 1
            } else {
                y as int
            },
        ),
    }
}

/// The estimated number of rows of `len` characters in `width` columns.
pub open spec fn estimated_rows(len: int, width: int) -> int {
    len / width + if len % width > 0 {
        1int
    } else {
        0int
    }
}

/// The rows of a block that always holds `len` characters wrapped at words.
pub open spec fn wrap_capacity(len: int) -> int {
    2 * len + 3
}

/// The rows of the block that a plain label prints `text` into, `width`
/// columns wide: the estimate, grown to the capacity when the text does not
/// fit in it.
pub open spec fn wrap_rows(width: int, text: Seq<char>) -> int {
    if wrapped_end(width as i32, estimated_rows(text.len() as int, width) as i32, text) is Some {
        estimated_rows(text.len() as int, width)
    } else {
        wrap_capacity(text.len() as int)
    }
}

/// The rows of the block that `n` characters are printed into, `width`
/// columns wide, without wrapping at words: one more than they fill.
pub open spec fn run_rows(n: int, width: int) -> int {
    n / width + 1
}

/// The cells that `n` characters of styled text take in `width` columns.
pub open spec fn run_extent(n: int, width: int) -> (int, int) {
    block_extent(width, run_rows(n, width), Some(((n % width) as i32, (n / width) as i32)))
}

/// The cursor and bounding box after `ext` columns and rows are allocated
/// at `cursor` by `layout`, with `min` the bounding box before.
pub open spec fn place(layout: Layout, cursor: Rect, min: Rect, ext: (int, int)) -> (Rect, Rect) {
    let rect = layout.allocation(cursor, ext.0, ext.1);
    (Rect { y1: rect.y2, ..cursor }, min.hull(rect))
}

/// The cursor and bounding box after labels of styled text with `counts`
/// characters, in order, were added at `cursor`, `width` columns wide.
pub open spec fn place_runs(layout: Layout, cursor: Rect, min: Rect, width: int, counts: Seq<int>) -> (
    Rect,
    Rect,
)
    decreases counts.len(),
{
    if counts.len() == 0 {
        (cursor, min)
    } else {
        let p = place_runs(layout, cursor, min, width, counts.drop_last());
        place(layout, p.0, p.1, run_extent(counts.last(), width))
    }
}

/// Adding the label of the next count moves the cursor and bounding box
/// on from where the earlier labels left them.
pub proof fn lemma_place_runs_step(
    layout: Layout,
    cursor: Rect,
    min: Rect,
    width: int,
    counts: Seq<int>,
    k: int,
)
    requires
        0 <= k < counts.len(),
    ensures
        place_runs(layout, cursor, min, width, counts.take(k + 1)) == place(
            layout,
            place_runs(layout, cursor, min, width, counts.take(k)).0,
            place_runs(layout, cursor, min, width, counts.take(k)).1,
            run_extent(counts[k], width),
        ),
{
    assert(counts.take(k + 1).drop_last() =~= counts.take(k));
}

/// `after` is `before` once a label of styled `text` was added: the cells
/// the text took are allocated, and one batch drawing the text there is
/// submitted.
pub open spec fn styled_label_shown(text: StyledText, before: Ui, after: Ui) -> bool {
    let width = before.cursor.spec_width();
    let n = text.char_count();
    let ext = run_extent(n, width);
    let rect = before.layout.allocation(before.cursor, ext.0, ext.1);
    &&& (after.cursor, after.min_rect) == place(before.layout, before.cursor, before.min_rect, ext)
    &&& after.ctx.same_input(before.ctx)
    &&& after.ctx.submitted@.len() == before.ctx.submitted@.len() + 1
    &&& after.ctx.submitted@.take(before.ctx.submitted@.len() as int) == before.ctx.submitted@
    &&& after.ctx.submitted@.last().0 == before.layer
    &&& after.ctx.submitted@.last().1.commands@.len() == 1
    &&& after.ctx.submitted@.last().1.commands@[0] matches DrawCommand::Styled {
        origin,
        width: bw,
        rows,
        clip,
        text: t,
    } && origin == (Point { x: rect.x1, y: rect.y1 }) && bw == width && rows == run_rows(n, width)
        && clip == (Rect { x1: 0, y1: 0, x2: ext.0 as i32, y2: ext.1 as i32 }) && t == text
}

/// `after` is `before` once a label of plain `text` was added: the text is
/// printed wrapped at spaces, the cells it took are allocated, and one batch
/// drawing it there is submitted.
pub open spec fn wrapped_label_shown(text: Seq<char>, before: Ui, after: Ui) -> bool {
    let width = before.cursor.spec_width();
    let rows = wrap_rows(width, text);
    let end = wrapped_end(width as i32, rows as i32, text);
    let ext = block_extent(width, rows, end);
    let rect = before.layout.allocation(before.cursor, ext.0, ext.1);
    &&& end is Some
    &&& (after.cursor, after.min_rect) == place(before.layout, before.cursor, before.min_rect, ext)
    &&& after.ctx.same_input(before.ctx)
    &&& after.ctx.submitted@.len() == before.ctx.submitted@.len() + 1
    &&& after.ctx.submitted@.take(before.ctx.submitted@.len() as int) == before.ctx.submitted@
    &&& after.ctx.submitted@.last().0 == before.layer
    &&& after.ctx.submitted@.last().1.commands@.len() == 1
    &&& after.ctx.submitted@.last().1.commands@[0] matches DrawCommand::Wrapped {
        origin,
        width: bw,
        rows: br,
        clip,
        text: t,
    } && origin == (Point { x: rect.x1, y: rect.y1 }) && bw == width && br == rows
        && clip == (Rect { x1: 0, y1: 0, x2: ext.0 as i32, y2: ext.1 as i32 }) && t@ == text
}

/// A block of text.
pub struct Label<T> {
    pub text: T,
}

impl Label<StyledText> {
    pub fn new(text: StyledText) -> (r: Self)
        ensures
            r.text == text,
    {
        Self { text }
    }

    /// What a label of `n` characters of styled text needs of `ui`: a
    /// cursor with a width, room for `n` rows, and a block whose cells can
    /// be counted in `i32`.
    pub open spec fn fits_chars(ui: Ui, n: int) -> bool {
        &&& is_i32(abs_int(ui.cursor.x2 - ui.cursor.x1))
        &&& 0 < ui.cursor.spec_width()
        &&& n + 3 * ui.cursor.spec_width() <= i32::MAX
        &&& ui.has_room(ui.cursor.spec_width(), n)
    }

    /// What this label needs of `ui`.
    pub open spec fn fits(&self, ui: Ui) -> bool {
        Self::fits_chars(ui, self.text.char_count())
    }
}

impl Widget for Label<StyledText> {
    open spec fn ready(&self, ui: Ui) -> bool {
        self.fits(ui)
    }

    open spec fn shown(&self, before: Ui, after: Ui, r: UiResult) -> bool {
        !r.changed && styled_label_shown(self.text, before, after)
    }

    /// Draws the text from the cursor, continuing on the next row after the
    /// cursor's last column, in a block that holds all of it, and allocates
    /// the cells it took.
    fn ui(self, ui: &mut Ui) -> (r: UiResult)
        ensures
            final(ui).cursor.x1 == old(ui).cursor.x1,
            final(ui).cursor.x2 == old(ui).cursor.x2,
            forall|w: int, h: int|
                #![trigger old(ui).has_room(w, h)]
                old(ui).has_room(w, h) && old(ui).cursor.spec_width() <= w
                    && self.text.char_count() <= h ==> final(ui).has_room(
                    w,
                    h - self.text.char_count(),
                ),
    {
        let mut draw_batch = ui.ctx.new_draw_batch();
        let width = ui.cursor.width();
        proof {
            lemma_chars_in_runs_nonneg(self.text.runs@, self.text.runs@.len() as int);
            lemma_run_block(self.text.char_count(), width as int);
        }
        let n = self.text.char_len() as i32;
        let rows = n / width + 1;
        let end = print_runs(width, rows, &self.text);
        let (w, h) = extent(width, rows, end);
        proof {
            ui.lemma_room_fits(width as int, n as int, w as int, h as int);
        }
        let rect = ui.allocate(w, h);
        let origin = Point::new(rect.x1, rect.y1);
        let clip = Rect::with_size(0, 0, w, h);
        draw_batch.push(DrawCommand::Styled { origin, width, rows, clip, text: self.text });
        let layer = ui.layer;
        ui.ctx.submit_draw_batch(layer, draw_batch);
        proof {
            assert(ui.ctx.submitted@.take(old(ui).ctx.submitted@.len() as int) =~= old(
                ui,
            ).ctx.submitted@);
        }
        UiResult::default()
    }
}

impl Label<String> {
    pub fn from_string(text: &str) -> (r: Self)
        ensures
            r.text@ == text@,
    {
        Self { text: text.to_owned() }
    }

    /// What a label of `len` characters needs of `ui`: a cursor with a
    /// width, room for as many rows as the text could take, and a block
    /// whose cells can be counted in `i32`.
    pub open spec fn fits_len(ui: Ui, len: int) -> bool {
        &&& is_i32(abs_int(ui.cursor.x2 - ui.cursor.x1))
        &&& 0 < ui.cursor.spec_width()
        &&& (wrap_capacity(len) + 2) * ui.cursor.spec_width() <= i32::MAX
        &&& ui.has_room(ui.cursor.spec_width(), wrap_capacity(len))
    }
}

impl Widget for Label<String> {
    open spec fn ready(&self, ui: Ui) -> bool {
        Self::fits_len(ui, self.text@.len() as int)
    }

    open spec fn shown(&self, before: Ui, after: Ui, r: UiResult) -> bool {
        !r.changed && wrapped_label_shown(self.text@, before, after)
    }

    /// Draws the text wrapped at spaces in a block as wide as the cursor.
    /// The block starts with as many rows as the text would fill without
    /// wrapping at words, and grows to hold all of it when that is too few;
    /// the label allocates the cells that the text took.
    fn ui(self, ui: &mut Ui) -> (r: UiResult) {
        let mut draw_batch = ui.ctx.new_draw_batch();
        let width = ui.cursor.width();
        let len = self.text.as_str().unicode_len();
        let w = width as usize;
        proof {
            lemma_estimate_bound(len as int, width as int);
        }
        let estimate = (len / w + if len % w > 0 {
            1
        } else {
            0
        }) as i32;
        proof {
            assert(estimate == estimated_rows(self.text@.len() as int, width as int))
                by (nonlinear_arith)
                requires
                    estimate == len / w + if len % w > 0 {
                        1int
                    } else {
                        0int
                    },
                    len == self.text@.len(),
                    w == width,
                    width > 0,
            ;
            assert(len + width <= i32::MAX) by (nonlinear_arith)
                requires
                    0 <= len,
                    (2 * len + 5) * width <= i32::MAX,
                    width > 0,
            ;
            assert((estimate + 2) * width <= i32::MAX) by (nonlinear_arith)
                requires
                    estimate <= 2 * len + 3,
                    (2 * len + 5) * width <= i32::MAX,
                    width > 0,
            ;
        }
        let first = print_wrapped(width, estimate, self.text.as_str());
        let (rows, end) = match first {
            Some(_) => (estimate, first),
            None => {
                let capacity = 2 * (len as i32) + 3;
                (capacity, print_wrapped(width, capacity, self.text.as_str()))
            },
        };
        let (w, h) = extent(width, rows, end);
        proof {
            ui.lemma_room_fits(width as int, 2 * len + 3, w as int, h as int);
        }
        let rect = ui.allocate(w, h);
        let origin = Point::new(rect.x1, rect.y1);
        let clip = Rect::with_size(0, 0, w, h);
        draw_batch.push(DrawCommand::Wrapped { origin, width, rows, clip, text: self.text });
        let layer = ui.layer;
        ui.ctx.submit_draw_batch(layer, draw_batch);
        proof {
            assert(ui.ctx.submitted@.take(old(ui).ctx.submitted@.len() as int) =~= old(
                ui,
            ).ctx.submitted@);
        }
        UiResult::default()
    }
}

/// `n` characters fit in a block of `run_rows(n, width)` rows, whose cells
/// and rows stay within `i32`, and they fill at most `n` rows.
proof fn lemma_run_block(n: int, width: int)
    requires
        0 <= n,
        0 < width,
        n + 3 * width <= i32::MAX,
    ensures
        n <= width * run_rows(n, width),
        (run_rows(n, width) + 2) * width <= i32::MAX,
        0 <= n % width < width,
        0 <= n / width <= n,
        block_extent(width, run_rows(n, width), Some(((n % width) as i32, (n / width) as i32))).0
            <= width,
        block_extent(width, run_rows(n, width), Some(((n % width) as i32, (n / width) as i32))).1
            <= n,
{
    let q = n / width;
    let r = n % width;
    lemma_fundamental_div_mod(n, width);
    lemma_mod_pos_bound(n, width);
    lemma_div_pos_is_pos(n, width);
    assert(q <= n && n <= width * (q + 1) && (q + 3) * width <= i32::MAX) by (nonlinear_arith)
        requires
            n == width * q + r,
            0 <= r < width,
            0 <= q,
            n + 3 * width <= i32::MAX,
    ;
    assert(r > 0 ==> q + 1 <= n) by (nonlinear_arith)
        requires
            n == width * q + r,
            0 <= q,
            0 < width,
    ;
}

/// The estimate of rows is at most one more than the characters.
proof fn lemma_estimate_bound(len: int, width: int)
    requires
        0 <= len,
        0 < width,
    ensures
        estimated_rows(len, width) <= len + 1,
        0 <= estimated_rows(len, width),
{
    lemma_div_pos_is_pos(len, width);
    lemma_fundamental_div_mod(len, width);
    lemma_mod_pos_bound(len, width);
    assert(len / width <= len) by (nonlinear_arith)
        requires
            0 <= len,
            0 < width,
            len == width * (len / width) + len % width,
            0 <= len % width,
            0 <= len / width,
    ;
}

/// The columns and rows that a print took, from where its cursor ended.
fn extent(width: i32, rows: i32, end: Option<(i32, i32)>) -> (r: (i32, i32))
    requires
        0 < width,
        0 <= rows,
        end matches Some((x, y)) ==> 0 <= x < width && 0 <= y && (y < rows || (y == rows && x
            == 0)),
    ensures
        r.0 == block_extent(width as int, rows as int, end).0,
        r.1 == block_extent(width as int, rows as int, end).1,
        0 <= r.0 <= width,
        0 <= r.1 <= rows,
{
    match end {
        None => if rows > 0 {
            (width, rows)
        } else {
            (0, rows)
        },
        Some((x, y)) => {
            let w = if y > 0 {
                width
            } else {
                x
            };
            let h = if x > 0 {
                y + 1
            } else {
                y
            };
            (w, h)
        },
    }
}

} // verus!
