use vstd::prelude::*;

use crate::keys::KeyCode;

verus! {

/// Specifies what kind of interaction has occurred or should occur: keys of
/// interest, and whether a click is of interest.
pub struct Interaction {
    pub keys: Vec<KeyCode>,
    pub click: bool,
}

impl Interaction {
    pub fn new(keys: Vec<KeyCode>, click: bool) -> (r: Self)
        ensures
            r.keys@ == keys@,
            r.click == click,
    {
        Interaction { keys, click }
    }
}

impl Default for Interaction {
    fn default() -> (r: Self)
        ensures
            r.keys@.len() == 0,
            !r.click,
    {
        Interaction { keys: Vec::new(), click: false }
    }
}

} // verus!
