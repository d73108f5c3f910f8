use whiteboard::text::{first_hit, is_double_click};
use whiteboard::{
    ActionId, ActionLog, ActionType, BatchKind, InputEvent, Key, MouseButton, Point, Rect,
    Rectangle, Rgba, TextEntries, Vertex, WindowState,
};

fn id(n: u128) -> ActionId {
    ActionId { value: n }
}

fn moved(ws: &mut WindowState, x: i32, y: i32) {
    assert!(ws.input_with_id(InputEvent::CursorMoved { position: Point { x, y } }, id(9999)));
}

fn mouse(ws: &mut WindowState, button: MouseButton, pressed: bool, now_ms: u64, n: u128) -> bool {
    ws.input_with_id(
        InputEvent::MouseInput { button, pressed, control: false, now_ms },
        id(n),
    )
}

fn key(ws: &mut WindowState, k: Key, pressed: bool, n: u128) {
    assert!(ws.input_with_id(InputEvent::KeyboardInput { key: k, pressed }, id(n)));
}

fn draw(ws: &mut WindowState, points: &[(i32, i32)], n: u128) {
    mouse(ws, MouseButton::Left, true, 0, n);
    for &(x, y) in points {
        moved(ws, x, y);
    }
    mouse(ws, MouseButton::Left, false, 0, n);
}

fn type_text(ws: &mut WindowState, s: &str, n: u128) {
    for c in s.chars() {
        key(ws, Key::Character(c.to_string()), true, n);
        key(ws, Key::Character(c.to_string()), false, n);
    }
}

fn black() -> Rgba {
    Rgba { r: 0, g: 0, b: 0, a: 255 }
}

fn vertex(x: i32, y: i32) -> Vertex {
    Vertex { position: Point { x, y }, color: black() }
}

#[test]
fn stroke_of_three_points_is_committed_and_flushed() {
    let mut ws = WindowState::new(800, 600);
    draw(&mut ws, &[(0, 0), (10, 0), (10, 10)], 1);
    assert_eq!(ws.log.actions.len(), 1);
    match &ws.log.actions[0].action_type {
        ActionType::Stroke(v) => {
            assert_eq!(v, &vec![vertex(0, 0), vertex(10, 0), vertex(10, 10)]);
        }
        _ => panic!("expected a stroke"),
    }
    assert_eq!(ws.log.strokes.len(), 1);
    ws.update(0);
    let out = ws.take_outbox();
    assert_eq!(out.len(), 1);
    assert_eq!(out[0].kind, BatchKind::ActionRequest);
    assert_eq!(out[0].room, "general");
    assert_eq!(out[0].actions.len(), 1);
    match &out[0].actions[0].payload {
        ActionType::Stroke(v) => assert_eq!(v.len(), 3),
        _ => panic!("expected vertices"),
    }
    assert_eq!(out[0].actions[0].id, "00000000-0000-0000-0000-000000000001");
    assert!(ws.log.events_id.contains(&1));
}

#[test]
fn typing_hi_and_enter_commits_text() {
    let mut ws = WindowState::new(800, 600);
    moved(&mut ws, 100, 120);
    assert!(mouse(&mut ws, MouseButton::Right, true, 0, 5));
    assert!(ws.session.start_typing);
    assert_eq!(ws.log.texts.len(), 1);
    assert_eq!(ws.log.texts[0].position, Point { x: 100, y: 120 });
    type_text(&mut ws, "hi", 5);
    assert_eq!(ws.log.actions.len(), 0);
    key(&mut ws, Key::Enter, true, 5);
    assert!(!ws.session.start_typing);
    assert_eq!(ws.log.actions.len(), 1);
    match &ws.log.actions[0].action_type {
        ActionType::Text(t) => {
            assert_eq!(t.text, "hi");
            assert!(!t.pending);
        }
        _ => panic!("expected text"),
    }
    assert!(!ws.log.texts[0].pending);
}

#[test]
fn undo_after_two_strokes_sends_delete_of_second() {
    let mut ws = WindowState::new(800, 600);
    draw(&mut ws, &[(0, 0), (5, 5)], 1);
    draw(&mut ws, &[(20, 20), (30, 30)], 2);
    ws.update(0);
    ws.take_outbox();
    key(&mut ws, Key::Control, true, 3);
    key(&mut ws, Key::Character("z".to_string()), true, 3);
    assert_eq!(ws.log.actions.len(), 1);
    assert_eq!(ws.log.actions[0].id, id(1));
    assert_eq!(ws.log.strokes.len(), 1);
    let out = ws.take_outbox();
    assert_eq!(out.len(), 1);
    assert_eq!(out[0].kind, BatchKind::IsDeleted);
    assert_eq!(out[0].actions.len(), 1);
    assert_eq!(out[0].actions[0].id, "00000000-0000-0000-0000-000000000002");
}

#[test]
fn stroke_points_in_order_any_length() {
    let mut ws = WindowState::new(800, 600);
    let pts: Vec<(i32, i32)> = (0..20).map(|i| (i * 3, 100 - i)).collect();
    draw(&mut ws, &pts, 7);
    assert_eq!(ws.log.actions.len(), 1);
    match &ws.log.actions[0].action_type {
        ActionType::Stroke(v) => {
            let want: Vec<Vertex> = pts.iter().map(|&(x, y)| vertex(x, y)).collect();
            assert_eq!(v, &want);
        }
        _ => panic!("expected a stroke"),
    }
}

#[test]
fn release_with_one_point_or_none_commits_nothing() {
    let mut ws = WindowState::new(800, 600);
    draw(&mut ws, &[], 1);
    assert_eq!(ws.log.actions.len(), 0);
    draw(&mut ws, &[(3, 4)], 2);
    assert_eq!(ws.log.actions.len(), 0);
    assert!(ws.log.strokes.is_empty());
    assert!(ws.gesture.current_stroke.is_empty());
}

#[test]
fn double_click_inside_text_bounds_edits_it() {
    let mut ws = WindowState::new(800, 600);
    moved(&mut ws, 100, 100);
    mouse(&mut ws, MouseButton::Right, true, 0, 1);
    type_text(&mut ws, "ab", 1);
    key(&mut ws, Key::Enter, true, 1);
    assert!(ws.set_text_bounds(0, Rect { x: 90, y: 90, width: 40, height: 20 }));
    assert_eq!(ws.log.actions.len(), 1);
    // first press, far in time from the commit's click: starts a new entry
    moved(&mut ws, 100, 101);
    mouse(&mut ws, MouseButton::Right, true, 10_000, 2);
    assert_eq!(ws.log.texts.len(), 2);
    // second press within 500 ms and 5 px: commits the new empty entry and
    // opens the existing one
    moved(&mut ws, 103, 104);
    mouse(&mut ws, MouseButton::Right, true, 10_400, 3);
    assert!(ws.session.start_typing);
    assert_eq!(ws.session.editing_text_index, Some(0));
    assert_eq!(ws.log.texts.len(), 2);
    assert!(ws.log.texts[0].pending);
    type_text(&mut ws, "c", 4);
    assert_eq!(ws.log.texts[0].text, "abc");
    key(&mut ws, Key::Enter, true, 5);
    match &ws.log.actions.last().unwrap().action_type {
        ActionType::Text(t) => assert_eq!(t.text, "abc"),
        _ => panic!("expected text"),
    }
}

#[test]
fn click_outside_text_bounds_creates_entry_at_click() {
    let mut ws = WindowState::new(800, 600);
    ws.set_current_color(Rgba { r: 255, g: 0, b: 0, a: 255 });
    ws.set_font_size(24);
    moved(&mut ws, 300, 40);
    mouse(&mut ws, MouseButton::Right, true, 0, 1);
    assert_eq!(ws.log.texts.len(), 1);
    let e = &ws.log.texts[0];
    assert_eq!(e.position, Point { x: 300, y: 40 });
    assert_eq!(e.color, Rgba { r: 255, g: 0, b: 0, a: 255 });
    assert_eq!(e.font_size, 24);
    assert!(e.pending);
    assert_eq!(e.text, "");
    assert_eq!(ws.session.editing_text_index, None);
}

#[test]
fn undo_is_lifo() {
    let mut ws = WindowState::new(800, 600);
    for n in 1..=4u128 {
        draw(&mut ws, &[(0, 0), (n as i32, 1)], n);
    }
    let mut undone = Vec::new();
    for _ in 0..4 {
        assert!(ws.undo());
        let out = ws.take_outbox();
        assert_eq!(out.len(), 1);
        undone.push(out[0].actions[0].id.clone());
    }
    assert_eq!(ws.log.actions.len(), 0);
    assert!(!ws.undo());
    assert_eq!(
        undone,
        vec![
            "00000000-0000-0000-0000-000000000004".to_string(),
            "00000000-0000-0000-0000-000000000003".to_string(),
            "00000000-0000-0000-0000-000000000002".to_string(),
            "00000000-0000-0000-0000-000000000001".to_string(),
        ]
    );
}

#[test]
fn undo_while_typing_leaves_log() {
    let mut ws = WindowState::new(800, 600);
    draw(&mut ws, &[(0, 0), (1, 1)], 1);
    mouse(&mut ws, MouseButton::Right, true, 0, 2);
    assert!(!ws.undo());
    assert_eq!(ws.log.actions.len(), 1);
    key(&mut ws, Key::Control, true, 3);
    key(&mut ws, Key::Character("z".to_string()), true, 3);
    assert_eq!(ws.log.actions.len(), 1);
    assert_eq!(ws.log.texts[0].text, "z");
}

#[test]
fn flush_skips_sent_ids_and_marks_new_ones() {
    let mut ws = WindowState::new(800, 600);
    draw(&mut ws, &[(0, 0), (1, 1)], 1);
    ws.update(0);
    draw(&mut ws, &[(2, 2), (3, 3)], 2);
    ws.update(0);
    let out = ws.take_outbox();
    assert_eq!(out.len(), 2);
    assert_eq!(out[0].actions.len(), 1);
    assert_eq!(out[1].actions.len(), 1);
    assert_eq!(out[1].actions[0].id, "00000000-0000-0000-0000-000000000002");
    assert!(ws.log.events_id.contains(&1));
    assert!(ws.log.events_id.contains(&2));
    ws.update(0);
    assert!(ws.take_outbox().is_empty());
}

#[test]
fn flush_withheld_while_typing() {
    let mut ws = WindowState::new(800, 600);
    draw(&mut ws, &[(0, 0), (1, 1)], 1);
    mouse(&mut ws, MouseButton::Right, true, 0, 2);
    ws.update(0);
    assert!(ws.take_outbox().is_empty());
    assert!(ws.log.events_id.is_empty());
    key(&mut ws, Key::Enter, true, 3);
    ws.update(0);
    let out = ws.take_outbox();
    assert_eq!(out.len(), 1);
    assert_eq!(out[0].actions.len(), 2);
}

#[test]
fn undone_id_stays_in_sent_set() {
    let mut ws = WindowState::new(800, 600);
    draw(&mut ws, &[(0, 0), (1, 1)], 1);
    ws.update(0);
    assert!(ws.undo());
    assert!(ws.log.events_id.contains(&1));
}

#[test]
fn rectangle_with_s_held_commits_shape() {
    let mut ws = WindowState::new(800, 600);
    key(&mut ws, Key::Character("s".to_string()), true, 1);
    moved(&mut ws, 10, 20);
    mouse(&mut ws, MouseButton::Left, true, 0, 1);
    moved(&mut ws, 30, 40);
    moved(&mut ws, 50, 60);
    assert_eq!(ws.gesture.shape_positions.len(), 2);
    mouse(&mut ws, MouseButton::Left, false, 0, 1);
    assert_eq!(ws.log.actions.len(), 1);
    let want = Rectangle { first: Point { x: 10, y: 20 }, last: Point { x: 50, y: 60 }, color: black() };
    match &ws.log.actions[0].action_type {
        ActionType::Shapes(r) => assert_eq!(*r, want),
        _ => panic!("expected a rectangle"),
    }
    assert_eq!(ws.log.shapes, vec![want]);
    assert!(ws.gesture.current_stroke.is_empty());
}

#[test]
fn degenerate_rectangle_is_committed() {
    let mut ws = WindowState::new(800, 600);
    ws.arm_rectangle_tool();
    moved(&mut ws, 7, 7);
    mouse(&mut ws, MouseButton::Left, true, 0, 1);
    mouse(&mut ws, MouseButton::Left, false, 0, 1);
    assert_eq!(ws.log.shapes.len(), 1);
    assert_eq!(ws.log.shapes[0].first, ws.log.shapes[0].last);
    assert!(!ws.gesture.create_rect);
}

#[test]
fn key_release_ends_rectangle_capture() {
    let mut ws = WindowState::new(800, 600);
    key(&mut ws, Key::Character("s".to_string()), true, 1);
    mouse(&mut ws, MouseButton::Left, true, 0, 1);
    moved(&mut ws, 4, 4);
    key(&mut ws, Key::Character("s".to_string()), false, 1);
    assert_eq!(ws.log.shapes.len(), 1);
    assert!(ws.pressed_keys.is_empty());
}

#[test]
fn reused_id_commits_nothing() {
    let mut ws = WindowState::new(800, 600);
    draw(&mut ws, &[(0, 0), (1, 1)], 1);
    draw(&mut ws, &[(2, 2), (3, 3)], 1);
    assert_eq!(ws.log.actions.len(), 1);
    assert_eq!(ws.log.strokes.len(), 1);
}

#[test]
fn backspace_and_delete_remove_last_character() {
    let mut ws = WindowState::new(800, 600);
    mouse(&mut ws, MouseButton::Right, true, 0, 1);
    type_text(&mut ws, "héllo", 1);
    key(&mut ws, Key::Backspace, true, 1);
    assert_eq!(ws.log.texts[0].text, "héll");
    key(&mut ws, Key::Delete, true, 1);
    assert_eq!(ws.log.texts[0].text, "hél");
    key(&mut ws, Key::Backspace, true, 1);
    key(&mut ws, Key::Backspace, true, 1);
    assert_eq!(ws.log.texts[0].text, "h");
    key(&mut ws, Key::Backspace, true, 1);
    key(&mut ws, Key::Backspace, true, 1);
    assert_eq!(ws.log.texts[0].text, "");
}

#[test]
fn back_key_commits_text() {
    let mut ws = WindowState::new(800, 600);
    mouse(&mut ws, MouseButton::Right, true, 0, 1);
    type_text(&mut ws, "x", 1);
    key(&mut ws, Key::GoBack, true, 1);
    assert!(!ws.session.start_typing);
    assert_eq!(ws.log.actions.len(), 1);
}

#[test]
fn second_click_commits_text_being_typed() {
    let mut ws = WindowState::new(800, 600);
    moved(&mut ws, 10, 10);
    mouse(&mut ws, MouseButton::Right, true, 0, 1);
    type_text(&mut ws, "ok", 1);
    moved(&mut ws, 400, 400);
    mouse(&mut ws, MouseButton::Right, true, 5_000, 2);
    assert!(!ws.session.start_typing);
    assert_eq!(ws.log.actions.len(), 1);
    assert_eq!(ws.log.actions[0].id, id(2));
    assert_eq!(ws.log.texts.len(), 1);
}

#[test]
fn control_click_alias_starts_text() {
    let mut ws = WindowState::new(800, 600);
    ws.ctrl_click_is_secondary = true;
    assert!(ws.input_with_id(
        InputEvent::MouseInput { button: MouseButton::Left, pressed: true, control: true, now_ms: 0 },
        id(1),
    ));
    assert!(ws.session.start_typing);
    assert!(ws.gesture.mouse_pressed);
}

#[test]
fn other_button_is_not_taken() {
    let mut ws = WindowState::new(800, 600);
    assert!(!mouse(&mut ws, MouseButton::Other, true, 0, 1));
    assert!(mouse(&mut ws, MouseButton::Middle, true, 0, 1));
    assert!(!ws.gesture.mouse_pressed);
}

#[test]
fn resize_ignores_zero_side() {
    let mut ws = WindowState::new(800, 600);
    assert!(ws.input_with_id(InputEvent::Resized { width: 1024, height: 768 }, id(1)));
    assert_eq!((ws.width, ws.height), (1024, 768));
    ws.resize(0, 500);
    assert_eq!((ws.width, ws.height), (1024, 768));
}

#[test]
fn caret_blinks_every_half_second_while_typing() {
    let mut ws = WindowState::new(800, 600);
    mouse(&mut ws, MouseButton::Right, true, 1_000, 1);
    assert!(ws.session.cursor_visible);
    ws.update(1_499);
    assert!(ws.session.cursor_visible);
    ws.update(1_500);
    assert!(!ws.session.cursor_visible);
    assert!(ws.input_with_id(InputEvent::Focused { focused: true, now_ms: 2_000 }, id(2)));
    assert!(ws.session.cursor_visible);
}

#[test]
fn double_click_thresholds() {
    let p = Point { x: 100, y: 100 };
    assert!(!is_double_click(10, p, None, None));
    assert!(is_double_click(500, Point { x: 103, y: 104 }, Some(0), Some(p)));
    assert!(!is_double_click(501, p, Some(0), Some(p)));
    assert!(!is_double_click(100, Point { x: 104, y: 104 }, Some(0), Some(p)));
    assert!(is_double_click(100, Point { x: 95, y: 100 }, Some(0), Some(p)));
    assert!(is_double_click(5, p, Some(10), Some(p)));
    assert!(!is_double_click(0, Point { x: i32::MAX, y: 0 }, Some(0), Some(Point { x: i32::MIN, y: 0 })));
}

#[test]
fn first_hit_picks_earliest_entry() {
    let mut a = TextEntries::null(black(), 16);
    a.bounds = Rect { x: 0, y: 0, width: 10, height: 10 };
    let mut b = TextEntries::null(black(), 16);
    b.bounds = Rect { x: 5, y: 5, width: 10, height: 10 };
    let texts = vec![a, b];
    assert_eq!(first_hit(&texts, Point { x: 7, y: 7 }), Some(0));
    assert_eq!(first_hit(&texts, Point { x: 15, y: 15 }), Some(1));
    assert_eq!(first_hit(&texts, Point { x: 16, y: 15 }), None);
}

#[test]
fn rectangle_outline_vertices() {
    let r = Rectangle { first: Point { x: 1, y: 2 }, last: Point { x: 3, y: 4 }, color: black() };
    let v = r.to_vertices();
    let want = vec![
        vertex(1, 4), vertex(3, 4),
        vertex(3, 4), vertex(3, 2),
        vertex(3, 2), vertex(1, 2),
        vertex(1, 2), vertex(1, 4),
    ];
    assert_eq!(v, want);
}

#[test]
fn null_text_entry() {
    let e = TextEntries::null(black(), 12);
    assert_eq!(e.text, "");
    assert!(e.pending);
    assert_eq!(e.font_size, 12);
    assert_eq!(e.bounds, Rect { x: 0, y: 0, width: 0, height: 0 });
}

#[test]
fn wire_id_is_hyphenated_hex() {
    let mut ws = WindowState::new(800, 600);
    draw(&mut ws, &[(0, 0), (1, 1)], 0x0123_4567_89ab_cdef_fedc_ba98_7654_3210);
    ws.update(0);
    let out = ws.take_outbox();
    assert_eq!(out[0].actions[0].id, "01234567-89ab-cdef-fedc-ba9876543210");
}

#[test]
fn input_draws_fresh_ids() {
    let mut ws = WindowState::new(800, 600);
    for i in 0..3 {
        assert!(ws.input(InputEvent::MouseInput { button: MouseButton::Left, pressed: true, control: false, now_ms: 0 }));
        assert!(ws.input(InputEvent::CursorMoved { position: Point { x: i, y: 0 } }));
        assert!(ws.input(InputEvent::CursorMoved { position: Point { x: i, y: 9 } }));
        assert!(ws.input(InputEvent::MouseInput { button: MouseButton::Left, pressed: false, control: false, now_ms: 0 }));
    }
    assert_eq!(ws.log.actions.len(), 3);
    for a in &ws.log.actions {
        assert_eq!((a.id.value >> 76) & 0xf, 4);
    }
}

#[test]
fn empty_log_flush_and_undo() {
    let mut log = ActionLog::new();
    assert!(log.flush().is_none());
    assert!(log.undo().is_none());
    assert_eq!(log.len(), 0);
}
