use vstd::prelude::*;

use crate::draw::DrawBatch;
use crate::geometry::{Point, Rect};
use crate::keys::KeyCode;

verus! {

/// The input and the drawing surface of one frame: the screen, the layer to
/// draw on, the key pressed (at most one), the mouse cell and whether the
/// mouse was clicked. Batches submitted during the frame are collected in
/// `submitted`, each with its z-order, for the backend to draw.
pub struct Context {
    pub screen_rect: Rect,
    pub layer: usize,
    pub key: Option<KeyCode>,
    pub mouse: Option<Point>,
    pub clicked: bool,
    pub submitted: Vec<(usize, DrawBatch)>,
}

/// The key pressed this frame, if it is one of `inputs`.
pub open spec fn pressed_among(key: Option<KeyCode>, inputs: Seq<KeyCode>) -> Option<KeyCode> {
    match key {
        Some(k) => if inputs.contains(k) {
            Some(k)
        } else {
            None
        },
        None => None,
    }
}

impl Context {
    /// The input of `self` and `other` is the same.
    pub open spec fn same_input(self, other: Context) -> bool {
        &&& self.screen_rect == other.screen_rect
        &&& self.layer == other.layer
        &&& self.key == other.key
        &&& self.mouse == other.mouse
        &&& self.clicked == other.clicked
    }

    /// `self` holds the batches of `before` and possibly more after them.
    pub open spec fn extends(self, before: Context) -> bool {
        &&& self.same_input(before)
        &&& before.submitted@.len() <= self.submitted@.len()
        &&& self.submitted@.take(before.submitted@.len() as int) == before.submitted@
    }

    /// Create a new context from this frame's input.
    pub fn new(
        screen_rect: Rect,
        layer: usize,
        key: Option<KeyCode>,
        mouse: Option<Point>,
        clicked: bool,
    ) -> (r: Self)
        ensures
            r.screen_rect == screen_rect,
            r.layer == layer,
            r.key == key,
            r.mouse == mouse,
            r.clicked == clicked,
            r.submitted@.len() == 0,
    {
        Context { screen_rect, layer, key, mouse, clicked, submitted: Vec::new() }
    }

    /// A context with the same input and no batches submitted yet.
    pub fn same_frame(&self) -> (r: Self)
        ensures
            r.same_input(*self),
            r.submitted@.len() == 0,
    {
        Context {
            screen_rect: self.screen_rect,
            layer: self.layer,
            key: self.key,
            mouse: self.mouse,
            clicked: self.clicked,
            submitted: Vec::new(),
        }
    }

    /// Test if any of the given keys were pressed; returns that key.
    pub fn any_pressed(&self, inputs: &Vec<KeyCode>) -> (r: Option<KeyCode>)
        ensures
            r == pressed_among(self.key, inputs@),
    {
        match self.key {
            Some(key) => {
                let mut i: usize = 0;
                while i < inputs.len()
                    invariant
                        0 <= i <= inputs@.len(),
                        self.key == Some(key),
                        forall|j: int| 0 <= j < i ==> inputs@[j] != key,
                    decreases inputs@.len() - i,
                {
                    if inputs[i] == key {
                        assert(inputs@[i as int] == key);
                        return Some(key);
                    }
                    i = i + 1;
                }
                assert(!inputs@.contains(key));
                None
            },
            None => None,
        }
    }

    /// Create a new, empty draw batch.
    pub fn new_draw_batch(&self) -> (b: DrawBatch)
        ensures
            b.commands@.len() == 0,
    {
        DrawBatch::new()
    }

    /// Submit the provided draw batch at the given z-order.
    pub fn submit_draw_batch(&mut self, z_order: usize, batch: DrawBatch)
        ensures
            final(self).same_input(*old(self)),
            final(self).submitted@ == old(self).submitted@.push((z_order, batch)),
    {
        self.submitted.push((z_order, batch));
    }

    /// Moves the batches of `other` to the end of this frame's batches.
    pub fn take_batches(&mut self, other: &mut Context)
        ensures
            final(self).same_input(*old(self)),
            final(self).submitted@ == old(self).submitted@ + old(other).submitted@,
            final(other).same_input(*old(other)),
            final(other).submitted@.len() == 0,
    {
        self.submitted.append(&mut other.submitted);
    }
}

} // verus!
