use taimen::render::{CHAT_SIDEBAR_WIDTH, CONTROLS_BAR_HEIGHT, DEFAULT_GRID_COLUMNS};

#[test]
fn layout_constants_are_positive() {
    assert!(DEFAULT_GRID_COLUMNS > 0);
    assert!(CONTROLS_BAR_HEIGHT > 0);
    assert!(CHAT_SIDEBAR_WIDTH > 0);
}

#[test]
fn layout_constant_values() {
    assert_eq!(DEFAULT_GRID_COLUMNS, 3);
    assert_eq!(CONTROLS_BAR_HEIGHT, 3);
    assert_eq!(CHAT_SIDEBAR_WIDTH, 40);
}
