use vstd::prelude::*;

use crate::ui::Ui;
use crate::UiResult;

pub mod label;
pub mod selection_list;

pub use label::Label;
pub use selection_list::{Paginate, SelectionList};

verus! {

/// A widget draws itself into a `Ui` and reacts to this frame's input, in a
/// single call that consumes it.
pub trait Widget: Sized {
    /// What the widget needs of `ui` to show itself there.
    spec fn ready(&self, ui: Ui) -> bool;

    /// What showing the widget did to the `Ui`: `after` is `before` once
    /// the widget was added, and `r` is its result.
    spec fn shown(&self, before: Ui, after: Ui, r: UiResult) -> bool;

    /// Called by the `Ui` when a widget should build itself: allocate its
    /// space, draw, and process its interactions.
    fn ui(self, ui: &mut Ui) -> (r: UiResult)
        requires
            self.ready(*old(ui)),
        ensures
            final(ui).keeps_frame(*old(ui)),
            self.shown(*old(ui), *final(ui), r),
    ;
}

} // verus!
