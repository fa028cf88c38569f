use glboot::command::GlCommand;
use glboot::window::{handle_window_event, Action, Key, Vec2, WindowEvent, WindowState};

#[test]
fn escape_press_requests_close() {
    let mut w = WindowState::new(800, 600);
    let c = handle_window_event(&mut w, WindowEvent::Key(Key::Escape, Action::Press));
    assert_eq!(c, None);
    assert_eq!(w, WindowState { width: 800, height: 600, should_close: true });
}

#[test]
fn escape_release_and_other_keys_are_ignored() {
    let mut w = WindowState::new(800, 600);
    handle_window_event(&mut w, WindowEvent::Key(Key::Escape, Action::Release));
    handle_window_event(&mut w, WindowEvent::Key(Key::Escape, Action::Repeat));
    handle_window_event(&mut w, WindowEvent::Key(Key::Other, Action::Press));
    handle_window_event(&mut w, WindowEvent::Other);
    assert_eq!(w, WindowState::new(800, 600));
}

#[test]
fn close_event_requests_close() {
    let mut w = WindowState::new(640, 480);
    assert_eq!(handle_window_event(&mut w, WindowEvent::Close), None);
    assert!(w.should_close);
    assert_eq!((w.width, w.height), (640, 480));
}

#[test]
fn resize_updates_size_and_viewport_only() {
    let mut w = WindowState::new(800, 600);
    let c = handle_window_event(&mut w, WindowEvent::Resize(1024, 768));
    assert_eq!(c, Some(GlCommand::Viewport { width: 1024, height: 768 }));
    assert_eq!(w, WindowState { width: 1024, height: 768, should_close: false });

    let mut closing = WindowState { width: 10, height: 20, should_close: true };
    handle_window_event(&mut closing, WindowEvent::Resize(0, 5));
    assert_eq!(closing, WindowState { width: 0, height: 5, should_close: true });
}

#[test]
fn malformed_resize_is_ignored() {
    let mut w = WindowState::new(800, 600);
    assert_eq!(handle_window_event(&mut w, WindowEvent::Resize(-1, 600)), None);
    assert_eq!(handle_window_event(&mut w, WindowEvent::Resize(800, -3)), None);
    assert_eq!(w, WindowState::new(800, 600));
}

#[test]
fn vec2_text_and_equality() {
    let v = Vec2::new(800, 600);
    assert_eq!(v.to_string(), "{800, 600}");
    assert_eq!(Vec2::new(0, 4294967295).to_string(), "{0, 4294967295}");
    let f = Vec2::from((800, 600));
    assert!(f == v);
    assert!(Vec2::new(800, 601) != v);
    let s = WindowState::new(3, 7).size();
    assert_eq!((s.x, s.y), (3, 7));
}
