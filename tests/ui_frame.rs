use rouge_gui::{
    AlignX, AlignY, Context, DrawCommand, Interaction, KeyCode, Label, Layout, Point, Rect, Ui,
    Widget,
};

fn screen() -> Rect {
    Rect::with_size(0, 0, 20, 10)
}

fn ui_with(key: Option<KeyCode>, mouse: Option<Point>, clicked: bool) -> Ui {
    let ctx = Context::new(screen(), 0, key, mouse, clicked);
    Ui::new(ctx, 0, Rect::with_exact(0, 0, 0, 0), screen(), Layout::new(AlignX::Left, AlignY::Top))
}

#[test]
fn allocate_stacks_downward_and_grows_bounding_box() {
    let mut ui = ui_with(None, None, false);
    let a = ui.allocate(5, 2);
    assert_eq!(a, Rect::with_exact(0, 0, 5, 2));
    assert_eq!(ui.cursor, Rect::with_exact(0, 2, 20, 10));
    assert_eq!(ui.min_rect, Rect::with_exact(0, 0, 5, 2));
    let b = ui.allocate(8, 3);
    assert_eq!(b, Rect::with_exact(0, 2, 8, 5));
    assert_eq!(ui.cursor, Rect::with_exact(0, 5, 20, 10));
    assert_eq!(ui.min_rect, Rect::with_exact(0, 0, 8, 5));
    let c = ui.allocate(2, 1);
    assert_eq!(c, Rect::with_exact(0, 5, 2, 6));
    assert_eq!(ui.min_rect, Rect::with_exact(0, 0, 8, 6));
    assert_eq!(ui.max_rect, screen());
}

#[test]
fn allocate_never_moves_cursor_outside_max_rect() {
    let mut ui = ui_with(None, None, false);
    for _ in 0..10 {
        let before = ui.min_rect;
        ui.allocate(3, 1);
        assert!(ui.min_rect.x1 <= before.x1 && ui.min_rect.x2 >= before.x2);
        assert!(ui.min_rect.y1 <= before.y1 && ui.min_rect.y2 >= before.y2);
        assert!(ui.cursor.y1 <= ui.max_rect.y2 && ui.cursor.y1 >= ui.max_rect.y1);
    }
    assert_eq!(ui.cursor.y1, 10);
}

#[test]
fn click_inside_rect_matches() {
    let mut ui = ui_with(None, Some(Point::new(3, 3)), true);
    let r = ui.interact(Rect::with_size(2, 2, 4, 4), Interaction::new(Vec::new(), true));
    assert!(r.click);
    assert!(r.keys.is_empty());
}

#[test]
fn click_outside_rect_does_not_match() {
    let mut ui = ui_with(None, Some(Point::new(9, 9)), true);
    let r = ui.interact(Rect::with_size(2, 2, 4, 4), Interaction::new(Vec::new(), true));
    assert!(!r.click);
    let mut edge = ui_with(None, Some(Point::new(6, 3)), true);
    let r = edge.interact(Rect::with_size(2, 2, 4, 4), Interaction::new(Vec::new(), true));
    assert!(!r.click);
}

#[test]
fn click_not_asked_for_does_not_match() {
    let mut ui = ui_with(None, Some(Point::new(3, 3)), true);
    let r = ui.interact(Rect::with_size(2, 2, 4, 4), Interaction::new(Vec::new(), false));
    assert!(!r.click);
    let mut no_click = ui_with(None, Some(Point::new(3, 3)), false);
    let r = no_click.interact(Rect::with_size(2, 2, 4, 4), Interaction::new(Vec::new(), true));
    assert!(!r.click);
}

#[test]
fn pressed_key_matches_only_when_asked_for() {
    let mut ui = ui_with(Some(KeyCode::C), None, false);
    let r = ui.interact(Rect::zero(), Interaction::new(vec![KeyCode::A, KeyCode::C], false));
    assert_eq!(r.keys, vec![KeyCode::C]);
    let r = ui.interact(Rect::zero(), Interaction::new(vec![KeyCode::A, KeyCode::B], false));
    assert!(r.keys.is_empty());
    assert_eq!(ui.ctx.any_pressed(&vec![KeyCode::C]), Some(KeyCode::C));
    assert_eq!(ui.ctx.any_pressed(&vec![]), None);
}

#[test]
fn plain_label_is_measured_by_word_wrapping() {
    let mut ui = ui_with(None, None, false);
    Label::from_string("hello world").ui(&mut ui);
    // "hello " and "world " end the cursor at column 12 of the first row.
    assert_eq!(ui.cursor.y1, 1);
    assert_eq!(ui.min_rect, Rect::with_exact(0, 0, 12, 1));
    assert_eq!(ui.ctx.submitted.len(), 1);
    match &ui.ctx.submitted[0].1.commands[0] {
        DrawCommand::Wrapped { origin, width, rows, clip, text } => {
            assert_eq!(*origin, Point::new(0, 0));
            assert_eq!(*width, 20);
            assert_eq!(*rows, 1);
            assert_eq!(*clip, Rect::with_exact(0, 0, 12, 1));
            assert_eq!(text, "hello world");
        }
        other => panic!("unexpected command {:?}", other),
    }
}

#[test]
fn long_plain_label_takes_the_estimated_rows() {
    let mut ui = ui_with(None, None, false);
    // 29 characters in 20 columns: an estimate of two rows, which the words fill.
    ui.label("aaaa bbbb cccc dddd eeee ffff");
    assert_eq!(ui.min_rect.x2, 20);
    assert_eq!(ui.min_rect.y2, 2);
    assert_eq!(ui.cursor.y1, 2);
}

#[test]
fn styled_label_continues_on_the_next_row() {
    let mut ui = ui_with(None, None, false);
    let mut text = rouge_gui::StyledText::empty();
    text.append(rouge_gui::Rgb::white(), "(a) ");
    text.append(rouge_gui::Rgb::yellow(), "Sword");
    Label::new(text).ui(&mut ui);
    assert_eq!(ui.min_rect, Rect::with_exact(0, 0, 9, 1));
    let mut long = rouge_gui::StyledText::empty();
    long.append(rouge_gui::Rgb::white(), "abcdefghijklmnopqrstuvwxyz");
    Label::new(long).ui(&mut ui);
    assert_eq!(ui.min_rect, Rect::with_exact(0, 0, 20, 3));
    assert_eq!(ui.ctx.submitted.len(), 2);
    match &ui.ctx.submitted[1].1.commands[0] {
        DrawCommand::Styled { rows, clip, .. } => {
            assert_eq!(*rows, 2);
            assert_eq!(*clip, Rect::with_exact(0, 0, 20, 2));
        }
        other => panic!("unexpected command {:?}", other),
    }
}
