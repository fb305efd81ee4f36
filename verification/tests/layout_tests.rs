use neovide_tabs::layout::{
    calculate_drop_index, calculate_swap_target, calculate_visible_tabs, get_button_rects,
    get_new_tab_button_rect, get_tab_rect, hit_test_buttons, hit_test_tab_bar, rgb_to_colorref,
    HoveredButton, TabHitResult, BUTTON_WIDTH, NEW_TAB_BUTTON_WIDTH, TAB_BAR_LEFT_MARGIN,
    TAB_VERTICAL_PADDING, TAB_WIDTH, TITLEBAR_HEIGHT,
};

#[test]
fn test_rgb_to_colorref() {
    // Test conversion from RGB to COLORREF
    assert_eq!(rgb_to_colorref(0xFF0000), 0x0000FF); // Red
    assert_eq!(rgb_to_colorref(0x00FF00), 0x00FF00); // Green (no change)
    assert_eq!(rgb_to_colorref(0x0000FF), 0xFF0000); // Blue
    assert_eq!(rgb_to_colorref(0x1a1b26), 0x261b1a); // Tokyo Night dark
}

#[test]
fn test_button_rects() {
    let (min, max, close) = get_button_rects(1024);

    // Close button should be rightmost
    assert_eq!(close.right, 1024);
    assert_eq!(close.left, 1024 - BUTTON_WIDTH);

    // Maximize button should be next
    assert_eq!(max.right, close.left);
    assert_eq!(max.left, 1024 - BUTTON_WIDTH * 2);

    // Minimize button should be leftmost
    assert_eq!(min.right, max.left);
    assert_eq!(min.left, 1024 - BUTTON_WIDTH * 3);

    // All buttons should span the title bar height
    assert_eq!(min.top, 0);
    assert_eq!(min.bottom, TITLEBAR_HEIGHT);
}

#[test]
fn test_hit_test_buttons() {
    let width = 1024;
    let y = TITLEBAR_HEIGHT / 2;
    assert_eq!(hit_test_buttons(width - 10, y, width), HoveredButton::Close);
    assert_eq!(
        hit_test_buttons(width - BUTTON_WIDTH - 10, y, width),
        HoveredButton::Maximize
    );
    assert_eq!(
        hit_test_buttons(width - 2 * BUTTON_WIDTH - 10, y, width),
        HoveredButton::Minimize
    );
    assert_eq!(hit_test_buttons(10, y, width), HoveredButton::Outside);
    assert_eq!(hit_test_buttons(width - 10, TITLEBAR_HEIGHT + 5, width), HoveredButton::Outside);
}

#[test]
fn test_get_tab_rect() {
    let tab0 = get_tab_rect(0, 1024);
    assert_eq!(tab0.left, TAB_BAR_LEFT_MARGIN);
    assert_eq!(tab0.right, TAB_BAR_LEFT_MARGIN + TAB_WIDTH);
    assert_eq!(tab0.top, TAB_VERTICAL_PADDING);
    assert_eq!(tab0.bottom, TITLEBAR_HEIGHT - TAB_VERTICAL_PADDING);

    let tab1 = get_tab_rect(1, 1024);
    assert_eq!(tab1.left, TAB_BAR_LEFT_MARGIN + TAB_WIDTH);
    assert_eq!(tab1.right, TAB_BAR_LEFT_MARGIN + TAB_WIDTH * 2);
}

#[test]
fn test_get_new_tab_button_rect() {
    let btn = get_new_tab_button_rect(0, 1024);
    assert_eq!(btn.left, TAB_BAR_LEFT_MARGIN);
    assert_eq!(btn.right, TAB_BAR_LEFT_MARGIN + NEW_TAB_BUTTON_WIDTH);

    let btn = get_new_tab_button_rect(2, 1024);
    assert_eq!(btn.left, TAB_BAR_LEFT_MARGIN + TAB_WIDTH * 2);
}

#[test]
fn test_calculate_visible_tabs() {
    // A wide window shows a few tabs without overflow
    assert_eq!(calculate_visible_tabs(2, 1024), (2, false));
    assert_eq!(calculate_visible_tabs(0, 1024), (0, false));
    // A narrow window cannot show many tabs; overflow appears
    let (visible, overflow) = calculate_visible_tabs(8, 1024);
    assert!(overflow);
    assert!(visible < 8);
}

#[test]
fn test_hit_test_tab_bar() {
    let width = 1024;
    let tab_count = 2;
    let y = (TAB_VERTICAL_PADDING + TITLEBAR_HEIGHT - TAB_VERTICAL_PADDING) / 2;

    // First tab area
    let x = TAB_BAR_LEFT_MARGIN + 20;
    assert_eq!(
        hit_test_tab_bar(x, y, tab_count, width),
        TabHitResult::Tab(0)
    );

    // Second tab area
    let x = TAB_BAR_LEFT_MARGIN + TAB_WIDTH + 20;
    assert_eq!(
        hit_test_tab_bar(x, y, tab_count, width),
        TabHitResult::Tab(1)
    );

    // New tab button area
    let x = TAB_BAR_LEFT_MARGIN + TAB_WIDTH * 2 + 10;
    assert_eq!(
        hit_test_tab_bar(x, y, tab_count, width),
        TabHitResult::NewTabButton
    );

    // Caption area (between new tab button and window buttons)
    let x = TAB_BAR_LEFT_MARGIN + TAB_WIDTH * 2 + NEW_TAB_BUTTON_WIDTH + 50;
    assert_eq!(
        hit_test_tab_bar(x, y, tab_count, width),
        TabHitResult::Caption
    );
}

#[test]
fn test_hit_test_tab_bar_close_glyph() {
    let width = 1024;
    let y = TITLEBAR_HEIGHT / 2;
    // The close glyph sits near the right edge of the tab
    let x = TAB_BAR_LEFT_MARGIN + TAB_WIDTH - 10;
    assert_eq!(hit_test_tab_bar(x, y, 2, width), TabHitResult::TabClose(0));
    // Below the tab band but inside the title bar: caption
    assert_eq!(hit_test_tab_bar(50, 1, 2, width), TabHitResult::Caption);
    // Below the title bar: outside
    assert_eq!(
        hit_test_tab_bar(50, TITLEBAR_HEIGHT + 5, 2, width),
        TabHitResult::Outside
    );
}

#[test]
fn test_calculate_drop_index() {
    let width = 1024;
    let tab_count = 3;

    // Position at first tab
    assert_eq!(
        calculate_drop_index(TAB_BAR_LEFT_MARGIN + 10, tab_count, width),
        0
    );

    // Position at second tab
    assert_eq!(
        calculate_drop_index(TAB_BAR_LEFT_MARGIN + TAB_WIDTH + 10, tab_count, width),
        1
    );

    // Position at third tab
    assert_eq!(
        calculate_drop_index(TAB_BAR_LEFT_MARGIN + TAB_WIDTH * 2 + 10, tab_count, width),
        2
    );

    // Position beyond last tab
    assert_eq!(
        calculate_drop_index(TAB_BAR_LEFT_MARGIN + TAB_WIDTH * 10, tab_count, width),
        2
    );

    // Position before first tab
    assert_eq!(calculate_drop_index(0, tab_count, width), 0);
}

#[test]
fn test_calculate_swap_target() {
    let width = 1024;
    let tab_count = 3;

    // Tab at index 0, visual position at its normal spot - no swap
    let tab0_rect = get_tab_rect(0, width);
    assert_eq!(
        calculate_swap_target(0, tab0_rect.left, tab_count, width),
        None
    );

    // Tab at index 0, dragged right past center of tab 1 - should swap to index 1
    let tab1_rect = get_tab_rect(1, width);
    let tab1_center = (tab1_rect.left + tab1_rect.right) / 2;
    // Position where tab 0's center is past tab 1's center
    let visual_x = tab1_center - TAB_WIDTH / 2 + 1;
    assert_eq!(
        calculate_swap_target(0, visual_x, tab_count, width),
        Some(1)
    );

    // Tab at index 1, dragged left past center of tab 0 - should swap to index 0
    let tab0_center = (tab0_rect.left + tab0_rect.right) / 2;
    // Position where tab 1's center is past tab 0's center (to the left)
    let visual_x = tab0_center - TAB_WIDTH / 2 - 1;
    assert_eq!(
        calculate_swap_target(1, visual_x, tab_count, width),
        Some(0)
    );

    // Tab at index 0 (leftmost) - can't swap left
    let visual_x = -50; // Far left
    assert_eq!(calculate_swap_target(0, visual_x, tab_count, width), None);

    // Tab at index 2 (rightmost with 3 tabs) - can't swap right
    let tab2_rect = get_tab_rect(2, width);
    let visual_x = tab2_rect.left + TAB_WIDTH * 2; // Far right
    assert_eq!(calculate_swap_target(2, visual_x, tab_count, width), None);

    // Single tab - no swaps possible
    assert_eq!(calculate_swap_target(0, 0, 1, width), None);
}
