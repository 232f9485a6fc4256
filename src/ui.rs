use vstd::prelude::*;

use crate::context::{pressed_among, Context};
use crate::draw::StyledText;
use crate::geometry::{is_i32, Rect};
use crate::interaction::Interaction;
use crate::layout::{lemma_allocation_inside, Layout};
use crate::widget::label::wrapped_label_shown;
use crate::widget::{Label, SelectionList, Widget};
use crate::UiResult;

verus! {

/// A `Ui` to which nothing was added keeps its frame.
pub proof fn lemma_keeps_frame_refl(a: Ui)
    ensures
        a.keeps_frame(a),
{
    assert(a.ctx.submitted@.take(a.ctx.submitted@.len() as int) =~= a.ctx.submitted@);
}

/// A `Ui` whose batches and bounding box only grew keeps its frame.
pub proof fn lemma_keeps_frame_grow(a: Ui, b: Ui)
    requires
        b.ctx.same_input(a.ctx),
        a.ctx.submitted@.len() <= b.ctx.submitted@.len(),
        b.ctx.submitted@.take(a.ctx.submitted@.len() as int) =~= a.ctx.submitted@,
        b.max_rect == a.max_rect,
        b.layout == a.layout,
        b.layer == a.layer,
        b.min_rect.covers(a.min_rect),
    ensures
        b.keeps_frame(a),
{
}

/// Adding widgets in two steps keeps the frame as one step does.
pub proof fn lemma_keeps_frame_trans(a: Ui, b: Ui, c: Ui)
    requires
        b.keeps_frame(a),
        c.keeps_frame(b),
    ensures
        c.keeps_frame(a),
{
    assert(c.ctx.submitted@.take(a.ctx.submitted@.len() as int) =~= b.ctx.submitted@.take(
        a.ctx.submitted@.len() as int,
    ));
}

/// The state of one region of the screen while widgets are added to it:
/// the hard bound `max_rect`, the bounding box `min_rect` of what was
/// allocated so far, the `cursor` from which the next allocation is carved,
/// and the layer to draw on.
pub struct Ui {
    /// The frame's input; the widgets' batches are submitted to it.
    pub ctx: Context,
    pub max_rect: Rect,
    pub min_rect: Rect,
    pub cursor: Rect,
    pub layout: Layout,
    pub layer: usize,
}

impl Ui {
    /// Every allocation of at most `w` columns and `h` rows made from the
    /// cursor, now or after allocations whose rows add up to at most `h`,
    /// has its bounds in `i32`.
    pub open spec fn has_room(self, w: int, h: int) -> bool {
        &&& 0 <= w
        &&& 0 <= h
        &&& is_i32(self.cursor.x1 - w - 1)
        &&& is_i32(self.cursor.x1 + w + 1)
        &&& is_i32(self.cursor.x2 - w - 1)
        &&& is_i32(self.cursor.x2 + w + 1)
        &&& is_i32(self.cursor.y1 - h - 1)
        &&& is_i32(self.cursor.y1 + h + 1)
        &&& is_i32(self.cursor.y2 - h - 1)
        &&& is_i32(self.cursor.y2 + h + 1)
    }

    /// The cursor lies inside the hard bound.
    pub open spec fn cursor_inside(self) -> bool {
        self.max_rect.encloses(self.cursor)
    }

    /// `self` is `before` after more widgets were added: same input, same
    /// bounds, layout and layer, the earlier batches kept, and a bounding
    /// box that covers the earlier one.
    pub open spec fn keeps_frame(self, before: Ui) -> bool {
        &&& self.ctx.extends(before.ctx)
        &&& self.max_rect == before.max_rect
        &&& self.layout == before.layout
        &&& self.layer == before.layer
        &&& self.min_rect.covers(before.min_rect)
    }

    /// With room for `w` columns and `h` rows, every allocation of at most
    /// that size fits in `i32`.
    pub proof fn lemma_room_fits(self, w: int, h: int, x: int, y: int)
        requires
            self.has_room(w, h),
            0 <= x <= w,
            0 <= y <= h,
        ensures
            self.layout.allocation_fits(self.cursor, x, y),
    {
    }

    /// Create a new `Ui` whose cursor spans `max_rect`.
    pub fn new(ctx: Context, layer: usize, min_rect: Rect, max_rect: Rect, layout: Layout) -> (r:
        Self)
        ensures
            r.ctx == ctx,
            r.layer == layer,
            r.min_rect == min_rect,
            r.max_rect == max_rect,
            r.cursor == max_rect,
            r.layout == layout,
    {
        Ui {
            ctx,
            min_rect,
            max_rect,
            cursor: Rect { x1: max_rect.x1, x2: max_rect.x2, y1: max_rect.y1, y2: max_rect.y2 },
            layout,
            layer,
        }
    }

    /// Allocate `x` columns and `y` rows at the cursor: the cursor's top
    /// moves to the bottom of the allocation, and the bounding box grows to
    /// hold it.
    pub fn allocate(&mut self, x: i32, y: i32) -> (r: Rect)
        requires
            old(self).layout.allocation_fits(old(self).cursor, x as int, y as int),
        ensures
            r == old(self).layout.allocation(old(self).cursor, x as int, y as int),
            final(self).cursor == (Rect { y1: r.y2, ..old(self).cursor }),
            final(self).min_rect == old(self).min_rect.hull(r),
            final(self).min_rect.covers(old(self).min_rect),
            final(self).ctx == old(self).ctx,
            final(self).max_rect == old(self).max_rect,
            final(self).layout == old(self).layout,
            final(self).layer == old(self).layer,
            old(self).cursor_inside() && old(self).layout.allocation_inside(
                old(self).cursor,
                x as int,
                y as int,
            ) ==> final(self).cursor_inside() && old(self).cursor.encloses(r),
            forall|w: int, h: int|
                #![trigger old(self).has_room(w, h)]
                old(self).has_room(w, h) && 0 <= x <= w && 0 <= y <= h ==> final(self).has_room(
                    w,
                    h - y,
                ),
    {
        let rect = self.layout.allocate_aligned(self.cursor, x, y);
        self.cursor.y1 = rect.y2;
        self.min_rect.expand_to(rect);
        proof {
            if old(self).cursor_inside() && old(self).layout.allocation_inside(
                old(self).cursor,
                x as int,
                y as int,
            ) {
                lemma_allocation_inside(old(self).layout, old(self).cursor, x as int, y as int);
            }
        }
        rect
    }

    /// Test `interaction` against this frame's input: a click counts when
    /// asked for, made, and inside `rect`; a key counts when it is one of
    /// the keys asked for.
    pub fn interact(&mut self, rect: Rect, interaction: Interaction) -> (r: Interaction)
        ensures
            *final(self) == *old(self),
            r.click == (interaction.click && old(self).ctx.clicked && (old(
                self,
            ).ctx.mouse matches Some(p) && rect.contains_point(p))),
            r.keys@ == match pressed_among(old(self).ctx.key, interaction.keys@) {
                Some(k) => seq![k],
                None => Seq::empty(),
            },
    {
        let mut interacted = Interaction::default();
        if interaction.click && self.ctx.clicked {
            if let Some(p) = self.ctx.mouse {
                if rect.point_in_rect(p) {
                    interacted.click = true;
                }
            }
        }
        if let Some(key) = self.ctx.any_pressed(&interaction.keys) {
            interacted.keys.push(key);
        }
        interacted
    }

    /// Add a widget to the `Ui`.
    pub fn add<W: Widget>(&mut self, widget: W) -> (r: UiResult)
        requires
            widget.ready(*old(self)),
        ensures
            final(self).keeps_frame(*old(self)),
            widget.shown(*old(self), *final(self), r),
    {
        widget.ui(self)
    }

    /// Add a label showing `text` to the `Ui`.
    pub fn label(&mut self, text: &str) -> (r: UiResult)
        requires
            Label::<String>::fits_len(*old(self), text@.len() as int),
        ensures
            final(self).keeps_frame(*old(self)),
            !r.changed,
            wrapped_label_shown(text@, *old(self), *final(self)),
    {
        self.add(Label::from_string(text))
    }

    /// Add an empty selection list to the `Ui`.
    pub fn selection_list<T: Copy>(&mut self) -> (r: UiResult)
        requires
            Label::<StyledText>::fits_chars(*old(self), 0),
        ensures
            final(self).keeps_frame(*old(self)),
            !r.changed,
            final(self).cursor == old(self).cursor,
            final(self).min_rect == old(self).min_rect,
            final(self).ctx.submitted@.len() == old(self).ctx.submitted@.len() + 1,
    {
        self.add(SelectionList::<T>::new())
    }
}

} // verus!
