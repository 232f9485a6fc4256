use vstd::prelude::*;
use vstd::string::StrSliceExecFns;

use crate::context::Context;
use crate::draw::{ColorPair, DrawBatch, DrawCommand, Rgb};
use crate::geometry::{abs_int, is_i32, max_int, min_int, Point, Rect};
use crate::keys::KeyCode;
use crate::layout::{AlignX, AlignY, Layout};
use crate::ui::Ui;

verus! {

/// `v` moved into the range of `i32`.
pub open spec fn clamp_i32(v: int) -> int {
    if v < i32::MIN {
        i32::MIN as int
    } else if v > i32::MAX {
        i32::MAX as int
    } else {
        v
    }
}

/// The keys that close a window.
pub open spec fn closes(key: Option<KeyCode>) -> bool {
    key == Some(KeyCode::Space) || key == Some(KeyCode::Escape)
}

/// The text of the close affordance.
pub open spec fn close_label() -> Seq<char> {
    seq!['E', 'S', 'C', ' ', '[', 'x', ']']
}

/// A window with a border that may be positioned anywhere on the screen and
/// filled with widgets. It grows to hold its content.
pub struct Window<'a> {
    pub title: String,
    pub open: Option<&'a mut bool>,
    pub pos: Option<Point>,
    pub layout: Layout,
    pub width: Option<i32>,
    pub color: ColorPair,
    pub title_color: ColorPair,
}

impl<'a> Window<'a> {
    /// The columns that the title takes, with the close affordance when the
    /// window can be closed.
    pub open spec fn title_len(&self) -> int {
        self.title@.len() + if self.open is Some {
            9int
        } else {
            0int
        }
    }

    /// The upper-left corner: the position given, or the screen's.
    pub open spec fn corner(&self, ctx: Context) -> Point {
        match self.pos {
            Some(p) => p,
            None => Point { x: ctx.screen_rect.x1, y: ctx.screen_rect.y1 },
        }
    }

    /// The width that the window starts with.
    pub open spec fn start_width(&self) -> int {
        max_int(
            match self.width {
                Some(w) => w as int,
                None => 0,
            },
            self.title_len(),
        )
    }

    /// The widest the content may grow.
    pub open spec fn widest(&self, ctx: Context) -> int {
        min_int(
            match self.width {
                Some(w) => w as int,
                None => ctx.screen_rect.spec_width(),
            },
            ctx.screen_rect.spec_width(),
        )
    }

    /// The bounding box that the content starts with: the start width by two
    /// rows, inside the border.
    pub open spec fn start_rect(&self, ctx: Context) -> Rect {
        Rect {
            x1: (self.corner(ctx).x + 1) as i32,
            y1: (self.corner(ctx).y + 1) as i32,
            x2: (self.corner(ctx).x + 1 + self.start_width()) as i32,
            y2: (self.corner(ctx).y + 3) as i32,
        }
    }

    /// The bound of the content: inside the border, as wide as allowed, down
    /// to the bottom of the screen.
    pub open spec fn content_bound(&self, ctx: Context) -> Rect {
        Rect {
            x1: (self.corner(ctx).x + 2) as i32,
            y1: (self.corner(ctx).y + 2) as i32,
            x2: (self.corner(ctx).x + self.widest(ctx)) as i32,
            y2: (ctx.screen_rect.y2 - 1) as i32,
        }
    }

    /// The arithmetic of the window's frame fits in machine integers.
    pub open spec fn fits(&self, ctx: Context) -> bool {
        &&& self.title@.len() + 9 <= i32::MAX
        &&& is_i32(abs_int(ctx.screen_rect.x2 - ctx.screen_rect.x1))
        &&& is_i32(self.corner(ctx).x + 3)
        &&& is_i32(self.corner(ctx).y + 3)
        &&& is_i32(self.corner(ctx).x + 1 + self.start_width())
        &&& is_i32(self.corner(ctx).x + self.widest(ctx))
        &&& is_i32(ctx.screen_rect.y2 - 1)
        &&& ctx.layer + 2000 <= usize::MAX
    }

    /// Create a new window with the given title.
    pub fn new(title: &str) -> (r: Self)
        ensures
            r.title@ == title@,
            r.open is None,
            r.pos is None,
            r.layout == (Layout { x: AlignX::Left, y: AlignY::Top }),
            r.width is None,
            r.color == (ColorPair {
                fg: Rgb { r: 255, g: 255, b: 255 },
                bg: Rgb { r: 0, g: 0, b: 0 },
            }),
            r.title_color == (ColorPair {
                fg: Rgb { r: 255, g: 0, b: 255 },
                bg: Rgb { r: 0, g: 0, b: 0 },
            }),
    {
        Self {
            title: title.to_owned(),
            open: None,
            pos: None,
            layout: Layout::new(AlignX::Left, AlignY::Top),
            width: None,
            color: ColorPair::new(Rgb::white(), Rgb::black()),
            title_color: ColorPair::new(Rgb::magenta(), Rgb::black()),
        }
    }

    /// Add a flag that tells whether the window is open. If the user closes
    /// the window, the flag is set to `false`.
    pub fn open(self, open: &'a mut bool) -> (r: Self)
        ensures
            r.open matches Some(o) && *o == *old(open) && *final(o) == *final(open),
            r.title == self.title,
            r.pos == self.pos,
            r.layout == self.layout,
            r.width == self.width,
            r.color == self.color,
            r.title_color == self.title_color,
    {
        Self { open: Some(open), ..self }
    }

    /// Set the position of the window's upper-left corner.
    pub fn pos(self, point: Point) -> (r: Self)
        ensures
            r.pos == Some(point),
            r.title == self.title,
            r.open == self.open,
            r.layout == self.layout,
            r.width == self.width,
            r.color == self.color,
            r.title_color == self.title_color,
    {
        Self { pos: Some(point), ..self }
    }

    /// Specify a fixed minimum width for the window.
    pub fn width(self, width: i32) -> (r: Self)
        ensures
            r.width == Some(width),
            r.title == self.title,
            r.open == self.open,
            r.pos == self.pos,
            r.layout == self.layout,
            r.color == self.color,
            r.title_color == self.title_color,
    {
        Self { width: Some(width), ..self }
    }

    /// Specify how the content of the window is laid out.
    pub fn layout(self, x: AlignX, y: AlignY) -> (r: Self)
        ensures
            r.layout == (Layout { x, y }),
            r.title == self.title,
            r.open == self.open,
            r.pos == self.pos,
            r.width == self.width,
            r.color == self.color,
            r.title_color == self.title_color,
    {
        Self { layout: Layout::new(x, y), ..self }
    }

    /// Specify the color of the window decorations.
    pub fn color(self, color: ColorPair) -> (r: Self)
        ensures
            r.color == color,
            r.title == self.title,
            r.open == self.open,
            r.pos == self.pos,
            r.layout == self.layout,
            r.width == self.width,
            r.title_color == self.title_color,
    {
        Self { color, ..self }
    }

    /// Specify the color of the title.
    pub fn title_color(self, title_color: ColorPair) -> (r: Self)
        ensures
            r.title_color == title_color,
            r.title == self.title,
            r.open == self.open,
            r.pos == self.pos,
            r.layout == self.layout,
            r.width == self.width,
            r.color == self.color,
    {
        Self { title_color, ..self }
    }
}


/// `v` moved into the range of `i32`.
fn clamp_to_i32(v: i64) -> (r: i32)
    ensures
        r == clamp_i32(v as int),
{
    if v < i32::MIN as i64 {
        i32::MIN
    } else if v > i32::MAX as i64 {
        i32::MAX
    } else {
        v as i32
    }
}

/// The border round the bounding box `m`: one cell outside it on each side,
/// kept within `i32`.
pub open spec fn frame_rect(m: Rect) -> Rect {
    Rect {
        x1: clamp_i32(m.x1 - 1) as i32,
        y1: clamp_i32(m.y1 - 1) as i32,
        x2: clamp_i32(m.x2 + 1) as i32,
        y2: clamp_i32(m.y2 + 1) as i32,
    }
}

impl<'a> Window<'a> {
    /// `ui` is the `Ui` that `content_ui` builds for `ctx`.
    pub open spec fn is_content_ui(&self, ctx: Context, ui: Ui) -> bool {
        &&& ui.ctx.same_input(ctx)
        &&& ui.ctx.submitted@.len() == 0
        &&& ui.layer == ctx.layer + 2000
        &&& ui.min_rect == self.start_rect(ctx)
        &&& ui.max_rect == self.content_bound(ctx)
        &&& ui.cursor == self.content_bound(ctx)
        &&& ui.layout == self.layout
    }

    /// `batch` draws the window's frame round the bounding box `m`: the
    /// border one cell outside it, the title on the border's top edge from
    /// the box's left column, and, when the window can be closed, "ESC [x]"
    /// ending at the box's right edge.
    pub open spec fn is_frame(&self, m: Rect, batch: DrawBatch) -> bool {
        let top = clamp_i32(m.y1 - 1) as i32;
        &&& batch.commands@.len() == if self.open is Some {
            3int
        } else {
            2int
        }
        &&& batch.commands@[0] matches DrawCommand::Box { rect, color } && rect == frame_rect(m)
            && color == self.color
        &&& batch.commands@[1] matches DrawCommand::Print { pos, text, color } && pos == (Point {
            x: m.x1,
            y: top,
        }) && text@ == self.title@ && color == self.title_color
        &&& self.open is Some ==> (batch.commands@[2] matches DrawCommand::Print {
            pos,
            text,
            color,
        } && pos == (Point { x: clamp_i32(m.x2 - 7) as i32, y: top }) && text@ == close_label()
            && color == (ColorPair {
            fg: Rgb { r: 255, g: 0, b: 255 },
            bg: Rgb { r: 0, g: 0, b: 0 },
        }))
    }

    /// The `Ui` that the content of the window is added to: the window's
    /// own layout, a layer above the frame's, the start rectangle as its
    /// bounding box and the content bound as its hard bound.
    pub fn content_ui(&self, ctx: &Context) -> (ui: Ui)
        requires
            self.fits(*ctx),
        ensures
            ui.ctx.same_input(*ctx),
            ui.ctx.submitted@.len() == 0,
            ui.layer == ctx.layer + 2000,
            ui.min_rect == self.start_rect(*ctx),
            ui.max_rect == self.content_bound(*ctx),
            ui.cursor == self.content_bound(*ctx),
            ui.layout == self.layout,
    {
        let open_extra: usize = if self.open.is_some() {
            9
        } else {
            0
        };
        let title_length = (self.title.as_str().unicode_len() + open_extra) as i32;
        let pos = match self.pos {
            Some(p) => p,
            None => Point::new(ctx.screen_rect.x1, ctx.screen_rect.y1),
        };
        let min_width = match self.width {
            Some(w) => w,
            None => 0,
        };
        let screen_width = ctx.screen_rect.width();
        let max_width = match self.width {
            Some(w) => w,
            None => screen_width,
        };
        let rect = Rect {
            x1: pos.x + 1,
            x2: ctx.screen_rect.x2,
            y1: pos.y + 1,
            y2: ctx.screen_rect.y2,
        };
        let start_width = if min_width > title_length {
            min_width
        } else {
            title_length
        };
        let layout = Layout::new(AlignX::Left, AlignY::Top);
        let min_rect = layout.allocate_aligned(rect, start_width, 2);
        let widest = if max_width < screen_width {
            max_width
        } else {
            screen_width
        };
        let bound = Rect { x1: pos.x + 2, x2: pos.x + widest, y1: pos.y + 2, y2: rect.y2 - 1 };
        Ui::new(ctx.same_frame(), ctx.layer + 2000, min_rect, bound, self.layout)
    }

    /// Call to display the window. `content` adds the widgets of the window
    /// to the `Ui` that `content_ui` builds, and its value is returned. After
    /// it returns, the border is drawn one cell outside the bounding box that
    /// the content grew, with the title on its top edge and, when the window
    /// can be closed, "ESC [x]" at the right; the content's batches are
    /// submitted first, then the frame's one batch. When the window has an
    /// open flag and Space or Escape is pressed, the flag is set to `false`
    /// and `None` is returned instead.
    pub fn show<R, F: FnOnce(&mut Ui) -> R>(self, ctx: &mut Context, content: F) -> (r: Option<R>)
        requires
            self.fits(*old(ctx)),
            forall|ui: &mut Ui| self.is_content_ui(*old(ctx), *ui) ==> content.requires((ui,)),
        ensures
            match self.open {
                Some(o) => *final(o) == if closes(old(ctx).key) {
                    false
                } else {
                    *o
                },
                None => true,
            },
            r is None <==> (self.open is Some && closes(old(ctx).key)),
            final(ctx).same_input(*old(ctx)),
            exists|ui: &mut Ui, value: R|
                #![trigger content.ensures((ui,), value)]
                {
                    let before = old(ctx).submitted@.len() as int;
                    let inner = final(ui).ctx.submitted@;
                    &&& self.is_content_ui(*old(ctx), *ui)
                    &&& content.ensures((ui,), value)
                    &&& r matches Some(v) ==> v == value
                    &&& final(ctx).submitted@.len() == before + inner.len() + 1
                    &&& final(ctx).submitted@.take(before) == old(ctx).submitted@
                    &&& final(ctx).submitted@.subrange(before, before + inner.len()) == inner
                    &&& final(ctx).submitted@.last().0 == old(ctx).layer
                    &&& self.is_frame(final(ui).min_rect, final(ctx).submitted@.last().1)
                    &&& final(ui).min_rect.covers(self.start_rect(*old(ctx))) ==> {
                        &&& frame_rect(final(ui).min_rect).x2 - frame_rect(final(ui).min_rect).x1
                            >= self.title_len()
                        &&& frame_rect(final(ui).min_rect).y2 - frame_rect(final(ui).min_rect).y1
                            >= 2
                    }
                },
    {
        let mut draw_batch = ctx.new_draw_batch();
        let layer = ctx.layer;
        let mut ui = self.content_ui(ctx);
        assert(self.is_content_ui(*old(ctx), ui));
        let value = content(&mut ui);
        let ghost after = ui;
        ctx.take_batches(&mut ui.ctx);
        let m = ui.min_rect;
        let frame = Rect::with_exact(
            clamp_to_i32(m.x1 as i64 - 1),
            clamp_to_i32(m.y1 as i64 - 1),
            clamp_to_i32(m.x2 as i64 + 1),
            clamp_to_i32(m.y2 as i64 + 1),
        );
        draw_batch.draw_box(frame, self.color);
        let top = clamp_to_i32(m.y1 as i64 - 1);
        draw_batch.print_color(Point::new(m.x1, top), self.title.as_str(), self.title_color);
        proof {
            assert(draw_batch.commands@[0] == draw_batch.commands@.take(1)[0]);
        }
        if self.open.is_some() {
            draw_batch.print_color(
                Point::new(clamp_to_i32(m.x2 as i64 - 7), top),
                "ESC [x]",
                ColorPair::new(Rgb::magenta(), Rgb::black()),
            );
            proof {
                assert(draw_batch.commands@[0] == draw_batch.commands@.take(2)[0]);
                assert(draw_batch.commands@[1] == draw_batch.commands@.take(2)[1]);
            }
        }
        let ghost frame_batch = draw_batch;
        ctx.submit_draw_batch(layer, draw_batch);
        proof {
            let before = old(ctx).submitted@.len() as int;
            let inner = after.ctx.submitted@;
            assert(ctx.submitted@.take(before) =~= old(ctx).submitted@);
            assert(ctx.submitted@.subrange(before, before + inner.len()) =~= inner);
            reveal_strlit("ESC [x]");
            let m = after.min_rect;
            assert(frame_batch.commands@.len() == if self.open is Some {
                3int
            } else {
                2int
            });
            assert(self.open is Some ==> (frame_batch.commands@[2] matches DrawCommand::Print {
                pos,
                text,
                color,
            } && pos == (Point { x: clamp_i32(m.x2 - 7) as i32, y: clamp_i32(m.y1 - 1) as i32 })));
            assert(self.open is Some ==> (frame_batch.commands@[2] matches DrawCommand::Print {
                pos,
                text,
                color,
            } && text@ == close_label()));
            assert(self.is_frame(after.min_rect, frame_batch));
        }
        let mut keys: Vec<KeyCode> = Vec::new();
        keys.push(KeyCode::Space);
        keys.push(KeyCode::Escape);
        let pressed = ctx.any_pressed(&keys);
        proof {
            assert(keys@ =~= seq![KeyCode::Space, KeyCode::Escape]);
            assert(keys@[0] == KeyCode::Space && keys@[1] == KeyCode::Escape);
            assert(closes(old(ctx).key) ==> keys@.contains(old(ctx).key->0));
        }
        if pressed.is_some() {
            if let Some(open) = self.open {
                *open = false;
                return None;
            }
        }
        Some(value)
    }
}

} // verus!
