use vstd::prelude::*;

pub mod context;
pub mod draw;
pub mod geometry;
pub mod interaction;
pub mod keys;
pub mod layout;
mod text;
pub mod ui;
pub mod widget;
pub mod window;

pub use context::Context;
pub use draw::{ColorPair, DrawBatch, DrawCommand, Rgb, StyledText, TextRun};
pub use geometry::{Point, Rect};
pub use interaction::Interaction;
pub use keys::KeyCode;
pub use layout::{AlignX, AlignY, Layout};
pub use ui::Ui;
pub use widget::{Label, Paginate, SelectionList, Widget};
pub use window::Window;

verus! {

/// The result of adding a widget to a `Ui`.
#[derive(Debug)]
pub struct UiResult {
    pub changed: bool,
}

impl Default for UiResult {
    fn default() -> (r: Self)
        ensures
            !r.changed,
    {
        UiResult { changed: false }
    }
}

} // verus!
