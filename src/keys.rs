use vstd::prelude::*;

verus! {

/// A key of the keyboard, as far as the widgets tell keys apart.
#[derive(Clone, Copy, Debug, PartialEq, Eq, Structural)]
pub enum KeyCode {
    A,
    B,
    C,
    D,
    E,
    F,
    G,
    H,
    I,
    J,
    K,
    L,
    M,
    N,
    O,
    P,
    Q,
    R,
    S,
    T,
    U,
    V,
    W,
    X,
    Y,
    Z,
    Escape,
    Space,
    Tab,
    Return,
    Back,
    Up,
    Down,
    Left,
    Right,
    /// Any key that no widget reacts to.
    Other,
}

/// The letter keys `A` through `Z`, in order.
pub open spec fn letters() -> Seq<KeyCode> {
    seq![
        KeyCode::A, KeyCode::B, KeyCode::C, KeyCode::D, KeyCode::E, KeyCode::F, KeyCode::G,
        KeyCode::H, KeyCode::I, KeyCode::J, KeyCode::K, KeyCode::L, KeyCode::M, KeyCode::N,
        KeyCode::O, KeyCode::P, KeyCode::Q, KeyCode::R, KeyCode::S, KeyCode::T, KeyCode::U,
        KeyCode::V, KeyCode::W, KeyCode::X, KeyCode::Y, KeyCode::Z
    ]
}

/// The letter key with the given ordinal, for 0 through 25.
pub open spec fn ordinal_letter(option: int) -> Option<KeyCode> {
    if 0 <= option < 26 {
        Some(letters()[option])
    } else {
        None
    }
}

/// The ordinal of a letter key (`A` is 0, `Z` is 25): its position among
/// `letters()`; -1 for any other key.
pub open spec fn letter_ordinal(key: KeyCode) -> int {
    if letters().contains(key) {
        choose|i: int| 0 <= i < 26 && letters()[i] == key
    } else {
        -1
    }
}

/// For A-Z menus, maps the keys A through Z to 0 through 25; any other
/// key gives -1.
pub fn letter_to_option(key: KeyCode) -> (r: i32)
    ensures
        r == letter_ordinal(key),
{
    match key {
        KeyCode::A => 0,
        KeyCode::B => 1,
        KeyCode::C => 2,
        KeyCode::D => 3,
        KeyCode::E => 4,
        KeyCode::F => 5,
        KeyCode::G => 6,
        KeyCode::H => 7,
        KeyCode::I => 8,
        KeyCode::J => 9,
        KeyCode::K => 10,
        KeyCode::L => 11,
        KeyCode::M => 12,
        KeyCode::N => 13,
        KeyCode::O => 14,
        KeyCode::P => 15,
        KeyCode::Q => 16,
        KeyCode::R => 17,
        KeyCode::S => 18,
        KeyCode::T => 19,
        KeyCode::U => 20,
        KeyCode::V => 21,
        KeyCode::W => 22,
        KeyCode::X => 23,
        KeyCode::Y => 24,
        KeyCode::Z => 25,
        _ => -1,
    }
}

/// For A-Z menus, maps 0 through 25 to the keys A through Z.
pub fn option_to_keycode(option: i32) -> (r: Option<KeyCode>)
    ensures
        r == ordinal_letter(option as int),
{
    match option {
        0 => Some(KeyCode::A),
        1 => Some(KeyCode::B),
        2 => Some(KeyCode::C),
        3 => Some(KeyCode::D),
        4 => Some(KeyCode::E),
        5 => Some(KeyCode::F),
        6 => Some(KeyCode::G),
        7 => Some(KeyCode::H),
        8 => Some(KeyCode::I),
        9 => Some(KeyCode::J),
        10 => Some(KeyCode::K),
        11 => Some(KeyCode::L),
        12 => Some(KeyCode::M),
        13 => Some(KeyCode::N),
        14 => Some(KeyCode::O),
        15 => Some(KeyCode::P),
        16 => Some(KeyCode::Q),
        17 => Some(KeyCode::R),
        18 => Some(KeyCode::S),
        19 => Some(KeyCode::T),
        20 => Some(KeyCode::U),
        21 => Some(KeyCode::V),
        22 => Some(KeyCode::W),
        23 => Some(KeyCode::X),
        24 => Some(KeyCode::Y),
        25 => Some(KeyCode::Z),
        _ => None,
    }
}

/// The two letter mappings are inverse to each other: every ordinal 0 through
/// 25 maps to a letter that maps back to it, every letter maps to an ordinal
/// that maps back to it, and no other key or number takes part.
pub proof fn lemma_letter_bijection()
    ensures
        forall|i: int|
            0 <= i < 26 ==> (#[trigger] ordinal_letter(i) matches Some(k) && letter_ordinal(k)
                == i),
        forall|i: int| !(0 <= i < 26) ==> #[trigger] ordinal_letter(i) is None,
        forall|k: KeyCode|
            0 <= #[trigger] letter_ordinal(k) < 26 ==> ordinal_letter(letter_ordinal(k)) == Some(k),
        forall|k: KeyCode| !(0 <= #[trigger] letter_ordinal(k) < 26) ==> letter_ordinal(k) == -1,
{
    assert forall|i: int| 0 <= i < 26 implies (#[trigger] ordinal_letter(i) matches Some(k)
        && letter_ordinal(k) == i) by {
        assert(i == 0 || i == 1 || i == 2 || i == 3 || i == 4 || i == 5 || i == 6 || i == 7 || i
            == 8 || i == 9 || i == 10 || i == 11 || i == 12 || i == 13 || i == 14 || i == 15 || i
            == 16 || i == 17 || i == 18 || i == 19 || i == 20 || i == 21 || i == 22 || i == 23
            || i == 24 || i == 25);
    }
}

} // verus!
