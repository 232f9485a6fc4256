use vstd::prelude::*;

use vstd::arithmetic::div_mod::{
    lemma_add_mod_noop, lemma_mod_add_multiples_vanish, lemma_small_mod,
};

use crate::draw::{Rgb, StyledText};
use crate::geometry::{abs_int, is_i32, Rect};
use crate::interaction::Interaction;
use crate::keys::{
    letter_ordinal, letter_to_option, lemma_letter_bijection, letters, option_to_keycode,
    ordinal_letter, KeyCode,
};
use crate::draw::{DrawBatch, DrawCommand};
use crate::text::{char_string, decimal, decimal_string};
use crate::ui::{lemma_keeps_frame_grow, lemma_keeps_frame_refl, lemma_keeps_frame_trans, Ui};
use crate::widget::label::{lemma_place_runs_step, place_runs};
use crate::widget::{Label, Widget};
use crate::UiResult;

verus! {

/// The keys and texts of a list of items.
pub open spec fn item_view<T>(items: Seq<(T, String)>) -> Seq<(T, Seq<char>)> {
    items.map_values(|p: (T, String)| (p.0, p.1@))
}

/// Appending an item appends its key and text to the view.
proof fn lemma_item_view_push<T>(items: Seq<(T, String)>, item: (T, String))
    ensures
        item_view(items.push(item)) == item_view(items).push((item.0, item.1@)),
{
    assert(item_view(items.push(item)) =~= item_view(items).push((item.0, item.1@)));
}

/// The number of pages that `total` items fill, `per_page` to a page.
pub open spec fn page_count(total: int, per_page: int) -> int {
    total / per_page + if total % per_page > 0 {
        1int
    } else {
        0int
    }
}

/// The first item shown for page `page`: that page's first item, or the
/// first item of all when the page lies past the end of the list.
pub open spec fn page_start(total: int, per_page: int, page: int) -> int {
    if page * per_page > total {
        0
    } else {
        page * per_page
    }
}

/// The page after `page`, back to the first after the last.
pub open spec fn next_page(page: int, total: int, per_page: int) -> int {
    (page + 1) % page_count(total, per_page)
}

/// The texts of the page line for page `page` (counted from 0) of `pages`.
pub open spec fn page_line(page: int, pages: int) -> Seq<Seq<char>> {
    seq![
        decimal((page + 1) as nat),
        seq!['/'],
        decimal(pages as nat),
        seq![' ', 'T', 'A', 'B', ' ', 'f', 'o', 'r', ' ', 'm', 'o', 'r', 'e'],
    ]
}

/// The texts of the line that shows item `i` with text `text`: its letter
/// in parentheses, then the text.
pub open spec fn item_line(i: int, text: Seq<char>) -> Seq<Seq<char>> {
    seq![seq!['('], seq![item_letter(i)], seq![')', ' '], text]
}

/// The batch `batch` draws the line of item `i` with text `text`.
pub open spec fn shows_line(batch: (usize, DrawBatch), i: int, text: Seq<char>) -> bool {
    batch.1.commands@.len() > 0 && (batch.1.commands@[0] matches DrawCommand::Styled { text: t, .. }
        && t.run_texts() == item_line(i, text))
}

/// The characters of the lines of the first `k` items.
pub open spec fn lines_chars<T>(items: Seq<(T, Seq<char>)>, k: int) -> int
    decreases k,
{
    if k <= 0 {
        0
    } else {
        lines_chars(items, k - 1) + items[k - 1].1.len() + 4
    }
}

/// The lines of more items hold at least as many characters, and never a
/// negative number.
proof fn lemma_lines_chars_mono<T>(items: Seq<(T, Seq<char>)>, m: int, n: int)
    requires
        m <= n,
    ensures
        0 <= lines_chars(items, m) <= lines_chars(items, n),
    decreases n,
{
    if n > 0 {
        if m < n {
            lemma_lines_chars_mono(items, m, n - 1);
        } else {
            lemma_lines_chars_mono(items, m - 1, n - 1);
        }
    }
}

/// The page reached from `page` after `k` presses of the next-page key.
pub open spec fn advance(page: int, k: nat, total: int, per_page: int) -> int
    decreases k,
{
    if k == 0 {
        page
    } else {
        next_page(advance(page, (k - 1) as nat, total, per_page), total, per_page)
    }
}

/// After `k` presses of the next-page key one is `k` pages on, counted round
/// past the last page back to the first.
pub proof fn lemma_advance(page: int, k: nat, total: int, per_page: int)
    requires
        0 < page_count(total, per_page),
        0 <= page < page_count(total, per_page),
    ensures
        advance(page, k, total, per_page) == (page + k) % page_count(total, per_page),
    decreases k,
{
    let m = page_count(total, per_page);
    if k == 0 {
        lemma_small_mod(page as nat, m as nat);
    } else {
        lemma_advance(page, (k - 1) as nat, total, per_page);
        lemma_add_mod_noop(page + k - 1, 1, m);
        if m > 1 {
            lemma_small_mod(1, m as nat);
        } else {
            assert((page + k) % m == 0);
            assert(((page + k - 1) % m + 1) % m == 0);
        }
    }
}

/// On a list of more than one page, pressing the next-page key once for
/// every page leads back to the page one started on.
pub proof fn lemma_pages_wrap_around(page: int, total: int, per_page: int)
    requires
        0 < per_page <= total,
        0 <= page < page_count(total, per_page),
    ensures
        advance(page, page_count(total, per_page) as nat, total, per_page) == page,
{
    let m = page_count(total, per_page);
    assert(total / per_page >= 1) by (nonlinear_arith)
        requires
            0 < per_page <= total,
    ;
    lemma_advance(page, m as nat, total, per_page);
    lemma_mod_add_multiples_vanish(page, m);
    lemma_small_mod(page as nat, m as nat);
}

/// The lower-case letter shown before the item with ordinal `i`.
pub open spec fn item_letter(i: int) -> char {
    ((97 + i) as u8) as char
}

/// Copies a list of items.
fn copy_items<T: Copy>(items: &Vec<(T, String)>) -> (r: Vec<(T, String)>)
    ensures
        item_view(r@) == item_view(items@),
{
    let mut r: Vec<(T, String)> = Vec::new();
    let mut i: usize = 0;
    while i < items.len()
        invariant
            0 <= i <= items@.len(),
            item_view(r@) == item_view(items@).take(i as int),
        decreases items@.len() - i,
    {
        let key = items[i].0;
        let text = items[i].1.clone();
        proof {
            lemma_item_view_push(r@, (key, text));
        }
        r.push((key, text));
        proof {
            assert(item_view(r@) =~= item_view(items@).take(i + 1));
        }
        i = i + 1;
    }
    proof {
        assert(item_view(items@).take(items@.len() as int) =~= item_view(items@));
    }
    r
}

/// A widget that shows one page of a list of items; the page index is
/// owned by the caller.
pub struct Paginate<'a, T: Copy> {
    pub items: Vec<(T, String)>,
    pub paginate: usize,
    pub page: &'a mut usize,
    pub total_items: usize,
}

impl<'a, T: Copy> Paginate<'a, T> {
    /// The page index and the page size agree with the list.
    pub open spec fn wf(&self) -> bool {
        &&& *self.page * self.paginate <= self.total_items
        &&& self.total_items < usize::MAX
    }

    /// Create a `Paginate` widget showing page `*page` of `items`, `paginate`
    /// items to a page. A page past the end of the list is reset to the
    /// first.
    pub fn new(items: Vec<(T, String)>, paginate: usize, page: &'a mut usize) -> (r: Self)
        requires
            items@.len() < usize::MAX,
        ensures
            r.total_items == items@.len(),
            r.paginate == paginate,
            *r.page == if *old(page) * paginate > items@.len() {
                0
            } else {
                *old(page)
            },
            *final(r.page) == *final(page),
            ({
                let start = page_start(items@.len() as int, paginate as int, *old(page) as int);
                let end = if start + paginate < items@.len() {
                    start + paginate
                } else {
                    items@.len() as int
                };
                item_view(r.items@) == item_view(items@).subrange(start, end)
            }),
            r.wf(),
    {
        let total_items = items.len();
        let start: usize = match (*page).checked_mul(paginate) {
            Some(s) => if s > total_items {
                *page = 0;
                0
            } else {
                s
            },
            None => {
                *page = 0;
                0
            },
        };
        let end: usize = if paginate < total_items - start {
            start + paginate
        } else {
            total_items
        };
        let mut shown: Vec<(T, String)> = Vec::new();
        let mut i: usize = start;
        while i < end
            invariant
                start <= i <= end <= items@.len(),
                item_view(shown@) == item_view(items@).subrange(start as int, i as int),
            decreases end - i,
        {
            let key = items[i].0;
            let text = items[i].1.clone();
            proof {
                lemma_item_view_push(shown@, (key, text));
            }
            shown.push((key, text));
            proof {
                assert(item_view(shown@) =~= item_view(items@).subrange(start as int, i + 1));
            }
            i = i + 1;
        }
        proof {
            assert(*page * paginate <= total_items) by (nonlinear_arith)
                requires
                    *page == 0 || *page * paginate <= total_items,
            ;
        }
        Self { items: shown, paginate, page, total_items }
    }

    /// The items on the current page.
    pub fn items(&self) -> (r: &Vec<(T, String)>)
        ensures
            r@ == self.items@,
    {
        &self.items
    }

    /// The characters of the page line.
    pub open spec fn line_len(&self) -> int {
        decimal((*self.page + 1) as nat).len() + decimal(
            page_count(self.total_items as int, self.paginate as int) as nat,
        ).len() + 14int
    }

    /// What the widget needs of `ui`: a page size, and room for the page
    /// line when it is shown.
    pub open spec fn fits(&self, ui: Ui) -> bool {
        &&& self.wf()
        &&& 0 < self.paginate
        &&& self.total_items >= self.paginate ==> Label::<StyledText>::fits_chars(
            ui,
            self.line_len(),
        )
    }
}

impl<'a, T: Copy> Widget for Paginate<'a, T> {
    open spec fn ready(&self, ui: Ui) -> bool {
        self.fits(ui)
    }

    open spec fn shown(&self, before: Ui, after: Ui, r: UiResult) -> bool {
        &&& !r.changed
        &&& self.total_items < self.paginate ==> after == before
        &&& self.total_items >= self.paginate ==> {
            &&& (after.cursor, after.min_rect) == place_runs(
                before.layout,
                before.cursor,
                before.min_rect,
                before.cursor.spec_width(),
                seq![self.line_len()],
            )
            &&& after.ctx.same_input(before.ctx)
            &&& after.ctx.submitted@.len() == before.ctx.submitted@.len() + 1
            &&& after.ctx.submitted@.take(before.ctx.submitted@.len() as int)
                == before.ctx.submitted@
            &&& after.ctx.submitted@.last().0 == before.layer
            &&& after.ctx.submitted@.last().1.commands@[0] matches DrawCommand::Styled {
                text,
                ..
            } && text.run_texts() == page_line(
                *self.page as int,
                page_count(self.total_items as int, self.paginate as int),
            )
        }
    }

    /// Shows, unless the list holds fewer items than a page, the line
    /// "`page`/`pages` TAB for more" (pages counted from 1), and moves to the
    /// next page (after the last, the first) when Tab is pressed. A list of
    /// fewer items than a page shows nothing.
    fn ui(self, ui: &mut Ui) -> (r: UiResult)
        ensures
            *final(self.page) == if self.total_items >= self.paginate && old(ui).ctx.key == Some(
                KeyCode::Tab,
            ) {
                next_page(*old(self.page) as int, self.total_items as int, self.paginate as int)
            } else {
                *old(self.page) as int
            },
            final(ui).cursor.x1 == old(ui).cursor.x1,
            final(ui).cursor.x2 == old(ui).cursor.x2,
            forall|w: int, h: int|
                #![trigger old(ui).has_room(w, h)]
                old(ui).has_room(w, h) && old(ui).cursor.spec_width() <= w && self.line_len() <= h
                    ==> final(ui).has_room(w, h - self.line_len()),
    {
        if self.total_items < self.paginate {
            proof {
                lemma_keeps_frame_refl(*ui);
            }
            return UiResult::default();
        }
        let per_page = self.paginate;
        let total = self.total_items;
        let max_pages = total / per_page + if total % per_page > 0 {
            1
        } else {
            0
        };
        let current = *self.page;
        proof {
            assert(current < usize::MAX) by (nonlinear_arith)
                requires
                    current * per_page <= total,
                    total < usize::MAX,
                    per_page > 0,
            ;
        }
        let mut text = StyledText::empty();
        text.append_string(Rgb::yellow(), decimal_string(current + 1));
        let ghost t1 = text;
        text.append(Rgb::yellow(), "/");
        let ghost t2 = text;
        text.append_string(Rgb::yellow(), decimal_string(max_pages));
        let ghost t3 = text;
        text.append(Rgb::yellow(), " TAB for more");
        proof {
            reveal_strlit("/");
            reveal_strlit(" TAB for more");
            assert(t2.runs@[0] == t2.runs@.take(1)[0]);
            assert(t3.runs@[0] == t3.runs@.take(2)[0]);
            assert(t3.runs@[1] == t3.runs@.take(2)[1]);
            assert(text.runs@[0] == text.runs@.take(3)[0]);
            assert(text.runs@[1] == text.runs@.take(3)[1]);
            assert(text.runs@[2] == text.runs@.take(3)[2]);
            assert(text.run_texts()[0] == decimal((current + 1) as nat));
            assert(text.run_texts()[1] == seq!['/']);
            assert(text.run_texts()[2] == decimal(max_pages as nat));
            assert(text.run_texts()[3] == page_line(current as int, max_pages as int)[3]);
            assert(text.run_texts() =~= page_line(current as int, max_pages as int));
        }
        proof {
            let b = *ui;
            let counts = seq![self.line_len()];
            lemma_place_runs_step(b.layout, b.cursor, b.min_rect, b.cursor.spec_width(), counts, 0);
            assert(counts.take(1) =~= counts);
            assert(counts.take(0) =~= Seq::<int>::empty());
            assert(text.char_count() == self.line_len());
        }
        Label::new(text).ui(ui);
        let ghost ui_mid = *ui;
        let mut keys: Vec<KeyCode> = Vec::new();
        keys.push(KeyCode::Tab);
        let interacted = ui.interact(Rect::zero(), Interaction::new(keys, false));
        proof {
            assert(interacted.keys@.len() > 0 ==> interacted.keys@[0] == KeyCode::Tab);
            assert(old(ui).ctx.key == Some(KeyCode::Tab) ==> seq![KeyCode::Tab].contains(
                KeyCode::Tab,
            )) by {
                assert(seq![KeyCode::Tab][0] == KeyCode::Tab);
            }
        }
        if interacted.keys.len() > 0 && interacted.keys[0] == KeyCode::Tab {
            proof {
                assert(max_pages > 0) by (nonlinear_arith)
                    requires
                        total >= per_page,
                        per_page > 0,
                        max_pages == total / per_page + if total % per_page > 0 {
                            1int
                        } else {
                            0int
                        },
                ;
            }
            *self.page = (current + 1) % max_pages;
            proof {
                assert(*ui == ui_mid);
            }
            return UiResult::default();
        }
        proof {
            assert(*ui == ui_mid);
            let b = *old(ui);
            assert((ui.cursor, ui.min_rect) == place_runs(
                b.layout,
                b.cursor,
                b.min_rect,
                b.cursor.spec_width(),
                seq![self.line_len()],
            ));
            assert(ui.ctx.submitted@.last().1.commands@[0] matches DrawCommand::Styled {
                text,
                ..
            } && text.run_texts() == page_line(
                *self.page as int,
                page_count(self.total_items as int, self.paginate as int),
            ));
        }
        UiResult::default()
    }
}



/// A widget which displays a list of options, each selected by a letter key.
pub struct SelectionList<'a, T: Copy> {
    pub items: Vec<(T, String)>,
    pub selected: Option<&'a mut Option<T>>,
    pub paginate: Option<Paginate<'a, T>>,
}

impl<'a, T: Copy> Default for SelectionList<'a, T> {
    fn default() -> (r: Self)
        ensures
            r.items@.len() == 0,
            r.selected is None,
            r.paginate is None,
    {
        SelectionList { items: Vec::new(), selected: None, paginate: None }
    }
}

impl<'a, T: Copy> SelectionList<'a, T> {
    /// The items shown: the current page when the list is paginated, else
    /// the items added.
    pub open spec fn visible(&self) -> Seq<(T, Seq<char>)> {
        match self.paginate {
            Some(p) => item_view(p.items@),
            None => item_view(self.items@),
        }
    }

    /// The page lines shown: one when the list is paginated and holds at
    /// least a page of items.
    pub open spec fn page_lines(&self) -> int {
        match self.paginate {
            Some(p) => if p.total_items >= p.paginate {
                1
            } else {
                0
            },
            None => 0,
        }
    }

    /// The selection that the pressed key makes: the item whose letter it
    /// is, if one is shown.
    pub open spec fn chosen(&self, key: Option<KeyCode>) -> Option<T> {
        match key {
            Some(k) => if 0 <= letter_ordinal(k) < self.visible().len() {
                Some(self.visible()[letter_ordinal(k)].0)
            } else {
                None
            },
            None => None,
        }
    }

    /// The characters of the page line, when it is shown.
    pub open spec fn page_chars(&self) -> int {
        match self.paginate {
            Some(p) => if p.total_items >= p.paginate {
                p.line_len()
            } else {
                0
            },
            None => 0,
        }
    }

    /// What the list needs of `ui`: at most 26 items shown, room for the
    /// rows that the page line and the item lines can take, and a
    /// well-formed pagination.
    pub open spec fn fits(&self, ui: Ui) -> bool {
        &&& self.visible().len() <= 26
        &&& Label::<StyledText>::fits_chars(
            ui,
            self.page_chars() + lines_chars(self.visible(), self.visible().len() as int),
        )
        &&& self.paginate matches Some(p) ==> p.wf() && 0 < p.paginate
    }

    /// The characters of each line shown, in order: the page line, if
    /// shown, then the line of each item.
    pub open spec fn line_counts(&self) -> Seq<int> {
        (if self.page_lines() == 1 {
            seq![self.page_chars()]
        } else {
            Seq::empty()
        }) + Seq::new(self.visible().len(), |i: int| self.visible()[i].1.len() + 4int)
    }

    /// Create a new, empty `SelectionList`.
    pub fn new() -> (r: Self)
        ensures
            r.items@.len() == 0,
            r.selected is None,
            r.paginate is None,
    {
        Self::default()
    }

    /// Add a single option to the list.
    pub fn add(self, key: T, text: &str) -> (r: Self)
        ensures
            item_view(r.items@) == item_view(self.items@).push((key, text@)),
            r.selected == self.selected,
            r.paginate == self.paginate,
    {
        let mut s = self;
        let t = text.to_owned();
        proof {
            lemma_item_view_push(s.items@, (key, t));
        }
        s.items.push((key, t));
        s
    }

    /// Add multiple options to the list.
    pub fn add_list(self, items: Vec<(T, String)>) -> (r: Self)
        ensures
            item_view(r.items@) == item_view(self.items@) + item_view(items@),
            r.selected == self.selected,
            r.paginate == self.paginate,
    {
        let mut s = self;
        let mut more = items;
        proof {
            assert(item_view(s.items@ + more@) =~= item_view(s.items@) + item_view(more@));
        }
        s.items.append(&mut more);
        s
    }

    /// Provide a `selection` parameter that will hold the user's selection,
    /// if any.
    pub fn selected(self, selection: &'a mut Option<T>) -> (r: Self)
        ensures
            r.selected matches Some(s) && *s == *old(selection) && *final(s) == *final(selection),
            r.items == self.items,
            r.paginate == self.paginate,
    {
        Self { selected: Some(selection), ..self }
    }

    /// Paginate the list: show page `*page` of `items`, `paginate` to a page.
    pub fn paginate(self, items: Vec<(T, String)>, paginate: usize, page: &'a mut usize) -> (r:
        Self)
        requires
            items@.len() < usize::MAX,
        ensures
            r.items == self.items,
            r.selected == self.selected,
            r.paginate matches Some(p) && p.total_items == items@.len() && p.paginate == paginate
                && *p.page == (if *old(page) * paginate > items@.len() {
                0
            } else {
                *old(page)
            }) && *final(p.page) == *final(page) && p.wf() && ({
                let start = page_start(items@.len() as int, paginate as int, *old(page) as int);
                let end = if start + paginate < items@.len() {
                    start + paginate
                } else {
                    items@.len() as int
                };
                item_view(p.items@) == item_view(items@).subrange(start, end)
            }),
    {
        let p = Paginate::new(items, paginate, page);
        Self { paginate: Some(p), ..self }
    }
}


impl<'a, T: Copy> Widget for SelectionList<'a, T> {
    open spec fn ready(&self, ui: Ui) -> bool {
        self.fits(ui)
    }

    open spec fn shown(&self, before: Ui, after: Ui, r: UiResult) -> bool {
        let base = before.ctx.submitted@.len() + self.page_lines();
        &&& !r.changed
        &&& (after.cursor, after.min_rect) == place_runs(
            before.layout,
            before.cursor,
            before.min_rect,
            before.cursor.spec_width(),
            self.line_counts(),
        )
        &&& after.ctx.same_input(before.ctx)
        &&& after.ctx.submitted@.take(before.ctx.submitted@.len() as int) == before.ctx.submitted@
        &&& after.ctx.submitted@.len() == base + self.visible().len() + 1
        &&& forall|k: int|
            base <= k < base + self.visible().len() ==> shows_line(
                #[trigger] after.ctx.submitted@[k],
                k - base,
                self.visible()[k - base].1,
            )
    }

    /// Shows the page line of a paginated list, then a line "(x) text" for
    /// each item shown, `x` being the letters from `a` on; when the key of
    /// one of those letters is pressed, writes that item's key into the
    /// selection. Any other key leaves the selection as it was.
    fn ui(self, ui: &mut Ui) -> (r: UiResult)
        ensures
            match self.selected {
                Some(sel) => *final(sel) == match self.chosen(old(ui).ctx.key) {
                    Some(t) => Some(t),
                    None => *sel,
                },
                None => true,
            },
            match self.paginate {
                Some(p) => *final(p.page) == if p.total_items >= p.paginate && old(ui).ctx.key
                    == Some(KeyCode::Tab) {
                    next_page(*p.page as int, p.total_items as int, p.paginate as int)
                } else {
                    *p.page as int
                },
                None => true,
            },
    {
        let ghost visible_view = self.visible();
        let ghost page_line = self.page_lines();
        let ghost page_chars = self.page_chars();
        let ghost budget = lines_chars(visible_view, visible_view.len() as int);
        let ghost counts = self.line_counts();
        proof {
            lemma_lines_chars_mono(visible_view, 0, visible_view.len() as int);
        }
        let SelectionList { items, selected, paginate } = self;
        let draw_batch = ui.ctx.new_draw_batch();
        let visible: Vec<(T, String)> = match &paginate {
            Some(p) => copy_items(&p.items),
            None => items,
        };
        assert(ui.has_room(old(ui).cursor.spec_width(), page_chars + budget));
        if let Some(p) = paginate {
            p.ui(ui);
        }
        assert(ui.has_room(old(ui).cursor.spec_width(), budget));
        proof {
            assert(counts.take(page_line) =~= if page_line == 1 {
                seq![page_chars]
            } else {
                Seq::empty()
            });
            lemma_keeps_frame_refl(*old(ui));
            assert(counts.take(0) =~= Seq::<int>::empty());
            if page_line == 1 {
                lemma_place_runs_step(
                    old(ui).layout,
                    old(ui).cursor,
                    old(ui).min_rect,
                    old(ui).cursor.spec_width(),
                    counts,
                    0,
                );
            }
        }
        let width = ui.cursor.width();
        let n = visible.len();
        let mut i: usize = 0;
        while i < n
            invariant
                0 <= i <= n <= 26,
                n == visible@.len(),
                item_view(visible@) == visible_view,
                width == old(ui).cursor.spec_width(),
                ui.cursor.x1 == old(ui).cursor.x1,
                ui.cursor.x2 == old(ui).cursor.x2,
                budget == lines_chars(visible_view, n as int),
                page_chars + budget + 3 * width <= i32::MAX,
                0 <= page_chars,
                0 <= page_line <= 1,
                counts.len() == page_line + n,
                forall|j: int| 0 <= j < n ==> #[trigger] counts[page_line + j] == visible_view[j].1.len() + 4,
                (ui.cursor, ui.min_rect) == place_runs(
                    old(ui).layout,
                    old(ui).cursor,
                    old(ui).min_rect,
                    width as int,
                    counts.take(page_line + i),
                ),
                0 < width,
                is_i32(abs_int(ui.cursor.x2 - ui.cursor.x1)),
                ui.has_room(width as int, budget - lines_chars(visible_view, i as int)),
                ui.keeps_frame(*old(ui)),
                ui.ctx.submitted@.len() == old(ui).ctx.submitted@.len() + page_line + i,
                forall|k: int|
                    old(ui).ctx.submitted@.len() + page_line <= k < old(ui).ctx.submitted@.len()
                        + page_line + i ==> shows_line(#[trigger] ui.ctx.submitted@[k], k - old(ui).ctx.submitted@.len() - page_line, visible_view[k - old(ui).ctx.submitted@.len() - page_line].1),
            decreases n - i,
        {
            let mut text = StyledText::empty();
            text.append(Rgb::white(), "(");
            let ghost t1 = text;
            text.append_string(Rgb::yellow(), char_string(((i as u8) + 97) as char));
            let ghost t2 = text;
            text.append(Rgb::white(), ") ");
            let ghost t3 = text;
            text.append(Rgb::white(), visible[i].1.as_str());
            proof {
                reveal_strlit("(");
                reveal_strlit(") ");
                assert(t2.runs@[0] == t2.runs@.take(1)[0]);
                assert(t3.runs@[0] == t3.runs@.take(2)[0]);
                assert(t3.runs@[1] == t3.runs@.take(2)[1]);
                assert(text.runs@[0] == text.runs@.take(3)[0]);
                assert(text.runs@[1] == text.runs@.take(3)[1]);
                assert(text.runs@[2] == text.runs@.take(3)[2]);
                assert(visible_view[i as int].1 == visible@[i as int].1@);
                let line = item_line(i as int, visible_view[i as int].1);
                assert(text.run_texts()[0] == line[0]);
                assert(text.run_texts()[1] == line[1]);
                assert(text.run_texts()[2] == line[2]);
                assert(text.run_texts()[3] == line[3]);
                assert(text.run_texts() =~= line);
                lemma_lines_chars_mono(visible_view, i + 1, n as int);
                lemma_lines_chars_mono(visible_view, i as int, n as int);
                assert(text.char_count() == visible_view[i as int].1.len() + 4);
                assert(lines_chars(visible_view, i + 1) == lines_chars(visible_view, i as int)
                    + visible_view[i as int].1.len() + 4);
            }
            let ghost before = *ui;
            proof {
                lemma_place_runs_step(
                    old(ui).layout,
                    old(ui).cursor,
                    old(ui).min_rect,
                    width as int,
                    counts,
                    page_line + i,
                );
            }
            Label::new(text).ui(ui);
            proof {
                lemma_keeps_frame_trans(*old(ui), before, *ui);
                assert forall|k: int|
                    old(ui).ctx.submitted@.len() + page_line <= k < old(ui).ctx.submitted@.len()
                        + page_line + i + 1 implies shows_line(#[trigger] ui.ctx.submitted@[k], k - old(ui).ctx.submitted@.len() - page_line, visible_view[k - old(ui).ctx.submitted@.len() - page_line].1) by {
                    if k < before.ctx.submitted@.len() {
                        assert(ui.ctx.submitted@[k] == ui.ctx.submitted@.take(
                            before.ctx.submitted@.len() as int,
                        )[k]);
                    }
                }
            }
            i = i + 1;
        }
        proof {
            assert(counts.take(page_line + n) =~= counts);
        }
        let layer = ui.layer;
        let ghost before_submit = *ui;
        ui.ctx.submit_draw_batch(layer, draw_batch);
        proof {
            assert forall|k: int| 0 <= k < before_submit.ctx.submitted@.len() implies #[trigger] ui.ctx.submitted@[k]
                == before_submit.ctx.submitted@[k] by {
                assert(ui.ctx.submitted@[k] == ui.ctx.submitted@.take(
                    before_submit.ctx.submitted@.len() as int,
                )[k]);
            }
            lemma_keeps_frame_grow(before_submit, *ui);
            lemma_keeps_frame_trans(*old(ui), before_submit, *ui);
        }
        let mut keys: Vec<KeyCode> = Vec::new();
        let mut j: usize = 0;
        while j < n
            invariant
                0 <= j <= n <= 26,
                keys@ == letters().take(j as int),
            decreases n - j,
        {
            if let Some(k) = option_to_keycode(j as i32) {
                keys.push(k);
            }
            proof {
                assert(keys@ =~= letters().take(j + 1));
            }
            j = j + 1;
        }
        let ghost ui_final = *ui;
        let interacted = ui.interact(Rect::zero(), Interaction::new(keys, false));
        proof {
            lemma_letter_bijection();
            lemma_pressed_letter(ui_final.ctx.key, n as int);
        }
        if interacted.keys.len() > 0 {
            let key = interacted.keys[0];
            let option = letter_to_option(key);
            if option >= 0 && (option as usize) < n {
                if let Some(sel) = selected {
                    *sel = Some(visible[option as usize].0);
                    return UiResult::default();
                }
            }
        }
        UiResult::default()
    }
}

/// The key pressed is one of the first `n` letters exactly when its ordinal
/// is below `n`.
proof fn lemma_pressed_letter(key: Option<KeyCode>, n: int)
    requires
        0 <= n <= 26,
    ensures
        match key {
            Some(k) => letters().take(n).contains(k) <==> 0 <= letter_ordinal(k) < n,
            None => true,
        },
{
    lemma_letter_bijection();
    if let Some(k) = key {
        if letters().take(n).contains(k) {
            let idx = choose|idx: int| 0 <= idx < n && letters().take(n)[idx] == k;
            assert(ordinal_letter(idx) == Some(k));
        }
        if 0 <= letter_ordinal(k) < n {
            assert(letters().take(n)[letter_ordinal(k)] == k);
        }
    }
}

} // verus!
