use rouge_gui::{
    AlignX, AlignY, Context, DrawCommand, KeyCode, Label, Layout, Paginate, Point, Rect,
    SelectionList, Ui, Widget, Window,
};

fn screen() -> Rect {
    Rect::with_size(0, 0, 40, 30)
}

fn ui_with(key: Option<KeyCode>) -> Ui {
    let ctx = Context::new(screen(), 0, key, None, false);
    Ui::new(ctx, 0, Rect::with_exact(0, 0, 0, 0), screen(), Layout::new(AlignX::Left, AlignY::Top))
}

fn numbered(n: usize) -> Vec<(usize, String)> {
    (0..n).map(|i| (i, format!("item {}", i))).collect()
}

#[test]
fn paginate_first_page_of_ten_by_three() {
    let mut page: usize = 0;
    let p = Paginate::new(numbered(10), 3, &mut page);
    let keys: Vec<usize> = p.items().iter().map(|(k, _)| *k).collect();
    assert_eq!(keys, vec![0, 1, 2]);
    assert_eq!(p.total_items, 10);
}

#[test]
fn paginate_last_page_is_clipped() {
    let mut page: usize = 3;
    let p = Paginate::new(numbered(10), 3, &mut page);
    let keys: Vec<usize> = p.items().iter().map(|(k, _)| *k).collect();
    assert_eq!(keys, vec![9]);
    drop(p);
    assert_eq!(page, 3);
}

#[test]
fn paginate_stale_page_resets_to_first() {
    let mut page: usize = 5;
    let p = Paginate::new(numbered(10), 3, &mut page);
    let keys: Vec<usize> = p.items().iter().map(|(k, _)| *k).collect();
    assert_eq!(keys, vec![0, 1, 2]);
    drop(p);
    assert_eq!(page, 0);
}

#[test]
fn paginate_shows_page_line() {
    let mut page: usize = 0;
    let mut ui = ui_with(None);
    Paginate::new(numbered(10), 3, &mut page).ui(&mut ui);
    assert_eq!(page, 0);
    assert_eq!(ui.ctx.submitted.len(), 1);
    match &ui.ctx.submitted[0].1.commands[0] {
        DrawCommand::Styled { text, .. } => {
            let line: String = text.runs.iter().map(|r| r.text.as_str()).collect();
            assert_eq!(line, "1/4 TAB for more");
        }
        other => panic!("unexpected command {:?}", other),
    }
}

#[test]
fn paginate_tab_four_times_wraps_to_first_page() {
    let mut page: usize = 0;
    let mut seen = Vec::new();
    for _ in 0..4 {
        let mut ui = ui_with(Some(KeyCode::Tab));
        Paginate::new(numbered(10), 3, &mut page).ui(&mut ui);
        seen.push(page);
    }
    assert_eq!(seen, vec![1, 2, 3, 0]);
}

#[test]
fn paginate_page_line_counts_pages_from_one() {
    let mut page: usize = 11;
    let mut ui = ui_with(None);
    Paginate::new(numbered(123), 10, &mut page).ui(&mut ui);
    match &ui.ctx.submitted[0].1.commands[0] {
        DrawCommand::Styled { text, .. } => {
            let line: String = text.runs.iter().map(|r| r.text.as_str()).collect();
            assert_eq!(line, "12/13 TAB for more");
        }
        other => panic!("unexpected command {:?}", other),
    }
}

#[test]
fn paginate_single_page_shows_nothing() {
    let mut page: usize = 0;
    let mut ui = ui_with(Some(KeyCode::Tab));
    Paginate::new(numbered(2), 3, &mut page).ui(&mut ui);
    assert_eq!(page, 0);
    assert!(ui.ctx.submitted.is_empty());
}

#[test]
fn selection_list_letter_selects_item() {
    let mut selected: Option<i32> = None;
    let mut ui = ui_with(Some(KeyCode::B));
    let list = SelectionList::new().add(1, "Sword").add(2, "Shield").selected(&mut selected);
    ui.add(list);
    assert_eq!(selected, Some(2));
}

#[test]
fn selection_list_draws_lettered_lines() {
    let mut selected: Option<i32> = None;
    let mut ui = ui_with(None);
    SelectionList::new().add(1, "Sword").add(2, "Shield").selected(&mut selected).ui(&mut ui);
    assert_eq!(selected, None);
    let lines: Vec<String> = ui
        .ctx
        .submitted
        .iter()
        .filter_map(|(_, b)| match b.commands.first() {
            Some(DrawCommand::Styled { text, .. }) => {
                Some(text.runs.iter().map(|r| r.text.as_str()).collect())
            }
            _ => None,
        })
        .collect();
    assert_eq!(lines, vec!["(a) Sword".to_string(), "(b) Shield".to_string()]);
    assert_eq!(ui.ctx.submitted.len(), 3);
    assert_eq!(ui.cursor.y1, 2);
}

#[test]
fn selection_list_ignores_letter_past_the_items() {
    let mut selected: Option<i32> = Some(7);
    let mut ui = ui_with(Some(KeyCode::C));
    SelectionList::new().add(1, "Sword").add(2, "Shield").selected(&mut selected).ui(&mut ui);
    assert_eq!(selected, Some(7));
}

#[test]
fn selection_list_ignores_other_keys() {
    let mut selected: Option<i32> = None;
    let mut ui = ui_with(Some(KeyCode::Escape));
    SelectionList::new()
        .add_list(vec![(1, "Sword".to_string()), (2, "Shield".to_string())])
        .selected(&mut selected)
        .ui(&mut ui);
    assert_eq!(selected, None);
}

#[test]
fn selection_list_selects_on_current_page() {
    let mut selected: Option<usize> = None;
    let mut page: usize = 1;
    let mut ui = ui_with(Some(KeyCode::A));
    SelectionList::new()
        .paginate(numbered(10), 3, &mut page)
        .selected(&mut selected)
        .ui(&mut ui);
    assert_eq!(selected, Some(3));
    assert_eq!(page, 1);
}

#[test]
fn selection_list_pagination_allocates_its_lines() {
    let mut page: usize = 0;
    let mut ui = ui_with(None);
    SelectionList::<usize>::new().paginate(numbered(10), 3, &mut page).ui(&mut ui);
    // The page line and three one-row item lines are allocated, nothing more.
    assert_eq!(ui.min_rect.y2, 4);
    assert_eq!(ui.cursor.y1, 4);
    assert_eq!(ui.ctx.submitted.len(), 5);
}

#[test]
fn window_escape_closes_open_window() {
    let mut ctx = Context::new(screen(), 0, Some(KeyCode::Escape), None, false);
    let mut open = true;
    let r = Window::new("Inventory").open(&mut open).show(&mut ctx, |ui| {
        ui.label("Sword");
        5
    });
    assert!(!open);
    assert_eq!(r, None);
}

#[test]
fn window_without_open_flag_ignores_escape() {
    let mut ctx = Context::new(screen(), 0, Some(KeyCode::Escape), None, false);
    let r = Window::new("Inventory").show(&mut ctx, |_ui| 5);
    assert_eq!(r, Some(5));
}

#[test]
fn window_stays_open_on_other_keys() {
    let mut ctx = Context::new(screen(), 0, Some(KeyCode::A), None, false);
    let mut open = true;
    let r = Window::new("Inventory").open(&mut open).show(&mut ctx, |_ui| 5);
    assert!(open);
    assert_eq!(r, Some(5));
}

#[test]
fn window_frame_surrounds_grown_content() {
    let mut ctx = Context::new(screen(), 3, None, None, false);
    let mut open = true;
    let r = Window::new("Inventory").open(&mut open).pos(Point::new(2, 2)).show(&mut ctx, |ui| {
        assert_eq!(ui.layer, 2003);
        assert_eq!(ui.min_rect, Rect::with_exact(3, 3, 21, 5));
        assert_eq!(ui.max_rect, Rect::with_exact(4, 4, 42, 29));
        ui.label("Sword");
        ui.label("Shield");
        ui.min_rect
    });
    let content = r.unwrap();
    assert_eq!(content, Rect::with_exact(3, 3, 21, 6));
    assert_eq!(ctx.submitted.len(), 3);
    assert_eq!(ctx.submitted[0].0, 2003);
    let (layer, batch) = &ctx.submitted[2];
    assert_eq!(*layer, 3);
    assert_eq!(batch.commands.len(), 3);
    match &batch.commands[0] {
        DrawCommand::Box { rect, .. } => assert_eq!(*rect, Rect::with_exact(2, 2, 22, 7)),
        other => panic!("unexpected command {:?}", other),
    }
    match &batch.commands[1] {
        DrawCommand::Print { pos, text, .. } => {
            assert_eq!(*pos, Point::new(3, 2));
            assert_eq!(text, "Inventory");
        }
        other => panic!("unexpected command {:?}", other),
    }
    match &batch.commands[2] {
        DrawCommand::Print { pos, text, .. } => {
            assert_eq!(*pos, Point::new(14, 2));
            assert_eq!(text, "ESC [x]");
        }
        other => panic!("unexpected command {:?}", other),
    }
}

#[test]
fn label_from_string_keeps_text() {
    let l = Label::from_string("abc");
    assert_eq!(l.text, "abc");
}

#[test]
fn selection_list_long_item_keeps_its_text() {
    let mut selected: Option<i32> = None;
    let screen = Rect::with_size(0, 0, 8, 30);
    let ctx = Context::new(screen, 0, None, None, false);
    let mut ui =
        Ui::new(ctx, 0, Rect::with_exact(0, 0, 0, 0), screen, Layout::new(AlignX::Left, AlignY::Top));
    SelectionList::new().add(1, "Longsword").selected(&mut selected).ui(&mut ui);
    // "(a) Longsword" is 13 characters: two rows of eight columns.
    assert_eq!(ui.cursor.y1, 2);
    match &ui.ctx.submitted[0].1.commands[0] {
        DrawCommand::Styled { rows, clip, text, .. } => {
            assert_eq!(*rows, 2);
            assert_eq!(*clip, Rect::with_exact(0, 0, 8, 2));
            let line: String = text.runs.iter().map(|r| r.text.as_str()).collect();
            assert_eq!(line, "(a) Longsword");
        }
        other => panic!("unexpected command {:?}", other),
    }
}
