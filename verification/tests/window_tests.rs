use textured_quad::window::{
    CONTEXT_VERSION_MAJOR, CONTEXT_VERSION_MINOR, WINDOW_HEIGHT, WINDOW_TITLE, WINDOW_WIDTH,
};

#[test]
fn window_opens_at_300_by_300() {
    assert_eq!((WINDOW_WIDTH, WINDOW_HEIGHT), (300, 300));
    assert_eq!(WINDOW_TITLE, "Hello Window");
}

#[test]
fn context_is_version_3_2() {
    assert_eq!((CONTEXT_VERSION_MAJOR, CONTEXT_VERSION_MINOR), (3, 2));
}
