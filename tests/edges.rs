use rouge_gui::{
    AlignX, AlignY, ColorPair, Context, DrawBatch, DrawCommand, KeyCode, Label, Layout, Point,
    Rect, Rgb, SelectionList, Ui, Widget, Window,
};

fn ui_with(key: Option<KeyCode>, width: i32) -> Ui {
    let screen = Rect::with_size(0, 0, width, 40);
    let ctx = Context::new(screen, 0, key, None, false);
    Ui::new(ctx, 0, Rect::with_exact(0, 0, 0, 0), screen, Layout::new(AlignX::Left, AlignY::Top))
}

#[test]
fn twenty_six_items_end_at_z() {
    let items: Vec<(u8, String)> = (0..26u8).map(|i| (i, format!("n{}", i))).collect();
    let mut selected = None;
    let mut ui = ui_with(Some(KeyCode::Z), 40);
    SelectionList::new().add_list(items).selected(&mut selected).ui(&mut ui);
    assert_eq!(selected, Some(25));
    assert_eq!(ui.cursor.y1, 26);
}

#[test]
fn empty_selection_list_ignores_letters() {
    let mut selected: Option<u8> = None;
    let mut ui = ui_with(Some(KeyCode::A), 40);
    SelectionList::new().selected(&mut selected).ui(&mut ui);
    assert_eq!(selected, None);
    assert_eq!(ui.ctx.submitted.len(), 1);
    assert!(ui.ctx.submitted[0].1.commands.is_empty());
}

#[test]
fn ui_selection_list_adds_an_empty_list() {
    let mut ui = ui_with(None, 40);
    ui.selection_list::<u8>();
    assert_eq!(ui.ctx.submitted.len(), 1);
    assert_eq!(ui.cursor.y1, 0);
}

#[test]
fn empty_label_takes_the_space_it_prints() {
    let mut ui = ui_with(None, 10);
    // No rows are estimated; the block grows and the print writes one space.
    Label::from_string("").ui(&mut ui);
    assert_eq!(ui.min_rect, Rect::with_exact(0, 0, 1, 1));
    assert_eq!(ui.ctx.submitted.len(), 1);
}

#[test]
fn wrapped_label_grows_past_the_estimate() {
    let mut ui = ui_with(None, 5);
    // Ten characters make an estimate of two rows of five; the words need three.
    ui.label("abc def gh");
    assert_eq!(ui.min_rect, Rect::with_exact(0, 0, 5, 3));
    assert_eq!(ui.cursor.y1, 3);
    match &ui.ctx.submitted[0].1.commands[0] {
        DrawCommand::Wrapped { rows, clip, .. } => {
            assert_eq!(*rows, 23);
            assert_eq!(*clip, Rect::with_exact(0, 0, 5, 3));
        }
        other => panic!("unexpected command {:?}", other),
    }
}

#[test]
fn window_without_open_flag_has_no_close_text() {
    let mut ctx = Context::new(Rect::with_size(0, 0, 40, 30), 0, None, None, false);
    let r = Window::new("Map").show(&mut ctx, |_ui| 1);
    assert_eq!(r, Some(1));
    let (_, batch) = ctx.submitted.last().unwrap();
    assert_eq!(batch.commands.len(), 2);
    match &batch.commands[0] {
        DrawCommand::Box { rect, .. } => assert_eq!(*rect, Rect::with_exact(0, 0, 5, 4)),
        other => panic!("unexpected command {:?}", other),
    }
}

#[test]
fn window_width_sets_start_and_bound() {
    let ctx = Context::new(Rect::with_size(0, 0, 40, 30), 0, None, None, false);
    let w = Window::new("Map").width(12).pos(Point::new(5, 1)).layout(AlignX::Right, AlignY::Top);
    let ui = w.content_ui(&ctx);
    assert_eq!(ui.min_rect, Rect::with_exact(6, 2, 18, 4));
    assert_eq!(ui.max_rect, Rect::with_exact(7, 3, 17, 29));
    assert_eq!(ui.layout, Layout::new(AlignX::Right, AlignY::Top));
    assert_eq!(ui.layer, 2000);
}

#[test]
fn submitted_batches_keep_their_order() {
    let mut ctx = Context::new(Rect::with_size(0, 0, 10, 10), 4, None, None, false);
    let mut a = ctx.new_draw_batch();
    let white_on_black = ColorPair::new(Rgb::white(), Rgb::black());
    a.print_color(Point::new(0, 0), "a", white_on_black);
    ctx.submit_draw_batch(7, a);
    ctx.submit_draw_batch(2, DrawBatch::new());
    assert_eq!(ctx.submitted.len(), 2);
    assert_eq!(ctx.submitted[0].0, 7);
    assert_eq!(ctx.submitted[0].1.commands.len(), 1);
    assert_eq!(ctx.submitted[1].0, 2);
}
