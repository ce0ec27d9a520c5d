use todo_layout::layout::{MyApp, Pos, Rect, SIDE_GAP, WINDOW_B_HEIGHT, WINDOW_B_WIDTH};

fn center() -> Pos {
    Pos { x: 500, y: 400 }
}

#[test]
fn fresh_app_shows_nothing() {
    let app = MyApp::new();
    assert!(!app.show_a);
    assert!(!app.show_b);
    assert!(!app.place_a_on_next_frame);
    assert!(!app.place_b_on_next_frame);
}

#[test]
fn open_arms_exactly_one_placement() {
    let mut app = MyApp::new();
    app.open_a();
    assert!(app.show_a);
    assert!(app.place_a_on_next_frame);
    // the frame after the open computes a position and consumes the flag
    let first = app.frame_a(center());
    assert!(first.is_some());
    assert!(!app.place_a_on_next_frame);
    // the surface stays open, but no later frame places it again
    let second = app.frame_a(center());
    assert!(app.show_a);
    assert_eq!(second, None);
}

#[test]
fn open_b_arms_b_independently() {
    let mut app = MyApp::new();
    app.open_b();
    assert!(app.place_b_on_next_frame);
    assert!(!app.place_a_on_next_frame);
    let placed = app.frame_b(center(), None);
    assert!(placed.is_some());
    assert!(!app.place_b_on_next_frame);
    assert_eq!(app.frame_b(center(), None), None);
}

#[test]
fn reopen_rearms_one_placement() {
    let mut app = MyApp::new();
    app.open_a();
    app.frame_a(center());
    app.close_a();
    app.frame_a(center());
    app.open_a();
    assert!(app.place_a_on_next_frame);
    assert!(app.frame_a(center()).is_some());
    assert_eq!(app.frame_a(center()), None);
}

#[test]
fn a_is_centered_on_its_opening_frame() {
    let mut app = MyApp::new();
    app.open_a();
    let placed = app.frame_a(center());
    // A's fixed size is 260 by 120, so centering backs off by half of each
    assert_eq!(placed, Some(Pos { x: 500 - 130, y: 400 - 60 }));
}

#[test]
fn b_docks_beside_a_when_both_open_in_one_frame() {
    let mut app = MyApp::new();
    app.open_a();
    app.open_b();
    let a_pos = app.frame_a(center()).unwrap();
    // A is rendered first; its on-screen rectangle anchors B
    let a_rect =
        Rect { left: a_pos.x, top: a_pos.y, right: a_pos.x + 260, bottom: a_pos.y + 120 };
    let b_pos = app.frame_b(center(), Some(a_rect)).unwrap();
    assert_eq!(b_pos, Pos { x: a_rect.right + SIDE_GAP, y: a_rect.top });
    assert_eq!(b_pos, Pos { x: 370 + 260 + 12, y: 340 });
}

#[test]
fn b_alone_is_centered() {
    let mut app = MyApp::new();
    app.open_b();
    let b_pos = app.frame_b(center(), None).unwrap();
    assert_eq!(
        b_pos,
        Pos { x: center().x - WINDOW_B_WIDTH / 2, y: center().y - WINDOW_B_HEIGHT / 2 }
    );
    assert_eq!(b_pos, Pos { x: 300, y: 310 });
}

#[test]
fn b_falls_back_to_center_when_a_was_not_rendered() {
    let mut app = MyApp::new();
    app.open_a();
    app.open_b();
    // A's render produced no rectangle this frame: B centers instead
    app.frame_a(center());
    let b_pos = app.frame_b(center(), None).unwrap();
    assert_eq!(b_pos, Pos { x: 300, y: 310 });
}

#[test]
fn b_ignores_a_rect_when_a_is_closed() {
    let mut app = MyApp::new();
    app.open_b();
    let stale = Rect { left: 0, top: 0, right: 260, bottom: 120 };
    let b_pos = app.frame_b(center(), Some(stale)).unwrap();
    assert_eq!(b_pos, Pos { x: 300, y: 310 });
}

#[test]
fn close_does_not_place() {
    let mut app = MyApp::new();
    app.open_a();
    app.close_a();
    // A is no longer visible, so its armed flag yields no position
    assert_eq!(app.frame_a(center()), None);
    assert!(!app.place_a_on_next_frame);
}
