use tao::error::OsError;
use tao::window::{Window, WindowBuilder};

#[test]
fn builder_carries_title_and_size_into_the_window() {
    let w = WindowBuilder::new()
        .with_title("hello".to_string())
        .with_inner_size(320, 200)
        .build(7, true)
        .unwrap();
    assert_eq!(w.id, 7);
    assert_eq!(w.title, "hello");
    assert_eq!(w.inner_size(), (320, 200));
    assert!(!w.cursor_grabbed);
    assert!(w.cursor_visible);
}

#[test]
fn build_without_a_window_system_is_a_typed_error() {
    let r = WindowBuilder::new().build(1, false);
    assert_eq!(r, Err(OsError::WindowSystemUnavailable));
}

#[test]
fn retitling_changes_only_the_title() {
    let mut w = Window::new(2);
    w.set_title("renamed".to_string());
    assert_eq!(w.title, "renamed");
    assert_eq!(w.inner_size(), (800, 600));
    assert_eq!(w.id, 2);
}

#[test]
fn accepted_cursor_grab_updates_the_state() {
    let mut w = Window::new(1);
    assert!(!w.cursor_grabbed);
    assert!(w.set_cursor_grab(true, true).is_ok());
    assert!(w.cursor_grabbed);
    assert!(w.set_cursor_grab(false, true).is_ok());
    assert!(!w.cursor_grabbed);
}

#[test]
fn denied_cursor_grab_is_a_typed_error_and_changes_nothing() {
    let mut w = Window::new(1);
    let r = w.set_cursor_grab(true, false);
    assert_eq!(r, Err(OsError::CursorGrabDenied));
    assert!(!w.cursor_grabbed);
    assert_eq!(w, Window::new(1));
}

#[test]
fn cursor_visibility_toggles() {
    let mut w = Window::new(3);
    assert!(w.cursor_visible);
    w.set_cursor_visible(false);
    assert!(!w.cursor_visible);
    w.set_cursor_visible(true);
    assert!(w.cursor_visible);
}

#[test]
fn error_messages_name_their_cause() {
    assert_eq!(
        OsError::StatusBarUnavailable.message(),
        "the host status bar is unavailable"
    );
    assert_eq!(
        OsError::ImageConstructionFailed.message(),
        "the host could not build an image from the icon bytes"
    );
    assert_eq!(OsError::DuplicateMenuItemId.message(), "two custom menu items share one id");
    assert_eq!(OsError::CursorGrabDenied.message(), "the host denied the cursor grab");
    assert_eq!(
        OsError::WindowSystemUnavailable.message(),
        "the host window system could not create a window"
    );
}
