use rouge_gui::keys::{letter_to_option, option_to_keycode};
use rouge_gui::{AlignX, AlignY, KeyCode, Layout, Rect};

fn inside(outer: &Rect, inner: &Rect) -> bool {
    outer.x1 <= inner.x1
        && inner.x2 <= outer.x2
        && outer.y1 <= inner.y1
        && inner.y2 <= outer.y2
        && inner.x1 <= inner.x2
        && inner.y1 <= inner.y2
}

#[test]
fn left_top_allocation_starts_at_corner() {
    let layout = Layout::new(AlignX::Left, AlignY::Top);
    let r = layout.allocate_aligned(Rect::with_size(2, 3, 10, 8), 4, 2);
    assert_eq!(r, Rect::with_exact(2, 3, 6, 5));
}

#[test]
fn right_bottom_allocation_ends_at_corner() {
    let layout = Layout::new(AlignX::Right, AlignY::Bottom);
    let r = layout.allocate_aligned(Rect::with_size(2, 3, 10, 8), 4, 2);
    assert_eq!(r, Rect::with_exact(8, 9, 12, 11));
}

#[test]
fn every_alignment_stays_inside() {
    let xs = [AlignX::Left, AlignX::Right, AlignX::Center];
    let ys = [AlignY::Top, AlignY::Bottom, AlignY::Center];
    let outer = Rect::with_size(1, 2, 9, 7);
    for x in xs.iter() {
        for y in ys.iter() {
            for w in 0..=9 {
                for h in 0..=7 {
                    let r = Layout::new(*x, *y).allocate_aligned(outer, w, h);
                    assert!(inside(&outer, &r), "{:?} {:?} {} {}", x, y, w, h);
                    assert_eq!(r.x2 - r.x1, w);
                    assert_eq!(r.y2 - r.y1, h);
                }
            }
        }
    }
}

#[test]
fn center_gives_the_odd_cell_to_the_right_and_bottom() {
    let layout = Layout::new(AlignX::Center, AlignY::Center);
    let outer = Rect::with_size(0, 0, 10, 10);
    let r = layout.allocate_aligned(outer, 3, 5);
    assert_eq!(r, Rect::with_exact(4, 3, 7, 8));
    let c = outer.center();
    assert_eq!(c.x, 5);
    assert_eq!((r.x2 - c.x) - (c.x - r.x1), 1);
    assert_eq!((r.y2 - c.y) - (c.y - r.y1), 1);
    let even = layout.allocate_aligned(outer, 4, 4);
    assert_eq!(even, Rect::with_exact(3, 3, 7, 7));
}

#[test]
fn center_of_negative_odd_range_rounds_toward_zero() {
    let outer = Rect::with_exact(-3, 0, 0, 1);
    assert_eq!(outer.center().x, -1);
    let r = Layout::new(AlignX::Center, AlignY::Top).allocate_aligned(outer, 3, 1);
    assert_eq!(r.x1, -2);
    assert_eq!(r.x2, 1);
}

#[test]
fn letters_map_to_ordinals_and_back() {
    for i in 0..26 {
        let key = option_to_keycode(i).unwrap();
        assert_eq!(letter_to_option(key), i);
    }
    assert_eq!(option_to_keycode(0), Some(KeyCode::A));
    assert_eq!(option_to_keycode(25), Some(KeyCode::Z));
    assert_eq!(option_to_keycode(26), None);
    assert_eq!(option_to_keycode(-1), None);
    assert_eq!(letter_to_option(KeyCode::B), 1);
    assert_eq!(letter_to_option(KeyCode::Escape), -1);
    assert_eq!(letter_to_option(KeyCode::Tab), -1);
}
