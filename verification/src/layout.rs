//! Tab-bar layout: where tabs, their close buttons, the new-tab button,
//! the profile-dropdown button and the overflow button sit inside the
//! custom title bar, and hit testing over those rectangles.
//!
//! All rectangles follow from a handful of fixed pixel constants, so every
//! function here is a pure formula over its arguments.

use vstd::prelude::*;
use crate::geometry::Rect;

verus! {

/// Height of the custom title bar that holds the tab strip.
pub const TITLEBAR_HEIGHT: i32 = 32;

/// Width of each caption button (minimize, maximize, close).
pub const BUTTON_WIDTH: i32 = 46;

/// Fixed width of one tab.
pub const TAB_WIDTH: i32 = 200;

/// Side of the square close glyph inside a tab.
pub const TAB_CLOSE_SIZE: i32 = 16;

/// Gap between a tab's right edge and its close glyph.
pub const TAB_CLOSE_PADDING: i32 = 8;

/// Width of the new-tab button.
pub const NEW_TAB_BUTTON_WIDTH: i32 = 32;

/// Width of the profile-dropdown button.
pub const DROPDOWN_BUTTON_WIDTH: i32 = 20;

/// Width of the overflow button shown when not every tab fits.
pub const OVERFLOW_BUTTON_WIDTH: i32 = 48;

/// Gap between the window's left edge and the first tab.
pub const TAB_BAR_LEFT_MARGIN: i32 = 8;

/// Vertical inset of tabs within the title bar.
pub const TAB_VERTICAL_PADDING: i32 = 4;

/// Which caption button a point falls on.
#[derive(Clone, Copy, Debug, PartialEq, Eq, Structural)]
pub enum HoveredButton {
    Minimize,
    Maximize,
    Close,
    Outside,
}

/// What a point in the title bar hits.
#[derive(Clone, Copy, Debug, PartialEq, Eq, Structural)]
pub enum TabHitResult {
    /// The body of the tab at this index.
    Tab(usize),
    /// The close glyph of the tab at this index.
    TabClose(usize),
    /// The new-tab button.
    NewTabButton,
    /// The profile-dropdown button.
    ProfileDropdown,
    /// The overflow button.
    OverflowButton,
    /// Empty title-bar area used to drag the host window.
    Caption,
    /// Below the title bar.
    Outside,
}

/// Convert a color in `0x00RRGGBB` form to the OS's `0x00BBGGRR` form.
pub open spec fn spec_rgb_to_colorref(rgb: u32) -> u32 {
    (((rgb & 0xFF) << 16) | (rgb & 0xFF00) | ((rgb >> 16) & 0xFF)) as u32
}

/// Swap the red and blue channels of a packed color.
pub fn rgb_to_colorref(rgb: u32) -> (r: u32)
    ensures
        r == spec_rgb_to_colorref(rgb),
{
    let red = (rgb >> 16) & 0xFF;
    let green = (rgb >> 8) & 0xFF;
    let blue = rgb & 0xFF;
    let out = (blue << 16) | (green << 8) | red;
    proof {
        assert(((rgb & 0xFF) << 16) | (rgb & 0xFF00) | ((rgb >> 16) & 0xFF)
            == ((rgb & 0xFF) << 16) | (((rgb >> 8) & 0xFF) << 8) | ((rgb >> 16) & 0xFF))
            by (bit_vector);
    }
    out
}

/// The three caption-button rectangles, right-aligned in the title bar:
/// `(minimize, maximize, close)`, with close rightmost.
pub fn get_button_rects(client_width: i32) -> (r: (Rect, Rect, Rect))
    requires
        0 <= client_width,
    ensures
        r.2.left == client_width - BUTTON_WIDTH && r.2.right == client_width,
        r.1.left == client_width - 2 * BUTTON_WIDTH && r.1.right == client_width - BUTTON_WIDTH,
        r.0.left == client_width - 3 * BUTTON_WIDTH && r.0.right == client_width - 2 * BUTTON_WIDTH,
        r.0.top == 0 && r.0.bottom == TITLEBAR_HEIGHT,
        r.1.top == 0 && r.1.bottom == TITLEBAR_HEIGHT,
        r.2.top == 0 && r.2.bottom == TITLEBAR_HEIGHT,
{
    let close_rect = Rect {
        left: client_width - BUTTON_WIDTH,
        top: 0,
        right: client_width,
        bottom: TITLEBAR_HEIGHT,
    };
    let maximize_rect = Rect {
        left: client_width - BUTTON_WIDTH * 2,
        top: 0,
        right: client_width - BUTTON_WIDTH,
        bottom: TITLEBAR_HEIGHT,
    };
    let minimize_rect = Rect {
        left: client_width - BUTTON_WIDTH * 3,
        top: 0,
        right: client_width - BUTTON_WIDTH * 2,
        bottom: TITLEBAR_HEIGHT,
    };
    (minimize_rect, maximize_rect, close_rect)
}

/// Which caption button the point falls on.
pub open spec fn spec_hit_test_buttons(x: int, y: int, client_width: int) -> HoveredButton {
    if !(0 <= y < TITLEBAR_HEIGHT) {
        HoveredButton::Outside
    } else if client_width - BUTTON_WIDTH <= x < client_width {
        HoveredButton::Close
    } else if client_width - 2 * BUTTON_WIDTH <= x < client_width - BUTTON_WIDTH {
        HoveredButton::Maximize
    } else if client_width - 3 * BUTTON_WIDTH <= x < client_width - 2 * BUTTON_WIDTH {
        HoveredButton::Minimize
    } else {
        HoveredButton::Outside
    }
}

/// Hit test the caption buttons.
pub fn hit_test_buttons(x: i32, y: i32, client_width: i32) -> (r: HoveredButton)
    requires
        0 <= client_width,
    ensures
        r == spec_hit_test_buttons(x as int, y as int, client_width as int),
{
    if !(0 <= y && y < TITLEBAR_HEIGHT) {
        return HoveredButton::Outside;
    }
    let (minimize_rect, maximize_rect, close_rect) = get_button_rects(client_width);
    if x >= close_rect.left && x < close_rect.right {
        HoveredButton::Close
    } else if x >= maximize_rect.left && x < maximize_rect.right {
        HoveredButton::Maximize
    } else if x >= minimize_rect.left && x < minimize_rect.right {
        HoveredButton::Minimize
    } else {
        HoveredButton::Outside
    }
}

/// Left edge of the tab at `index`: tabs are contiguous, `TAB_WIDTH` wide,
/// starting at `TAB_BAR_LEFT_MARGIN`.
pub open spec fn spec_tab_left(index: int) -> int {
    TAB_BAR_LEFT_MARGIN + index * TAB_WIDTH
}

/// True when the tab-bar arithmetic for `index` stays in range.
pub open spec fn tab_index_fits(index: int) -> bool {
    spec_tab_left(index) + TAB_WIDTH <= i32::MAX
}

/// The rectangle of the tab at `index`.
pub fn get_tab_rect(index: usize, client_width: i32) -> (r: Rect)
    requires
        tab_index_fits(index as int),
    ensures
        r.left == spec_tab_left(index as int),
        r.right == spec_tab_left(index as int) + TAB_WIDTH,
        r.top == TAB_VERTICAL_PADDING,
        r.bottom == TITLEBAR_HEIGHT - TAB_VERTICAL_PADDING,
{
    let _ = client_width;
    let left = TAB_BAR_LEFT_MARGIN + (index as i32) * TAB_WIDTH;
    Rect {
        left,
        top: TAB_VERTICAL_PADDING,
        right: left + TAB_WIDTH,
        bottom: TITLEBAR_HEIGHT - TAB_VERTICAL_PADDING,
    }
}

/// The close glyph's rectangle within a tab rectangle.
pub fn get_tab_close_rect(tab_rect: &Rect) -> (r: Rect)
    requires
        i32::MIN + TAB_CLOSE_PADDING + TAB_CLOSE_SIZE <= tab_rect.right,
        0 <= tab_rect.top + tab_rect.bottom - TAB_CLOSE_SIZE,
        tab_rect.top + tab_rect.bottom <= i32::MAX,
    ensures
        r.left == tab_rect.right - TAB_CLOSE_PADDING - TAB_CLOSE_SIZE,
        r.right == r.left + TAB_CLOSE_SIZE,
        r.top == (tab_rect.top + tab_rect.bottom - TAB_CLOSE_SIZE) / 2,
        r.bottom == r.top + TAB_CLOSE_SIZE,
{
    let close_left = tab_rect.right - TAB_CLOSE_PADDING - TAB_CLOSE_SIZE;
    let close_top = (tab_rect.top + tab_rect.bottom - TAB_CLOSE_SIZE) / 2;
    Rect {
        left: close_left,
        top: close_top,
        right: close_left + TAB_CLOSE_SIZE,
        bottom: close_top + TAB_CLOSE_SIZE,
    }
}

/// Left edge of the new-tab button, which sits after the visible tabs and,
/// when present, after the overflow button.
pub open spec fn spec_new_tab_left(visible_tab_count: int, has_overflow: bool) -> int {
    if has_overflow {
        spec_tab_left(visible_tab_count) + OVERFLOW_BUTTON_WIDTH
    } else {
        spec_tab_left(visible_tab_count)
    }
}

/// The new-tab button's rectangle.
pub fn get_new_tab_button_rect_ex(visible_tab_count: usize, has_overflow: bool, client_width: i32) -> (r: Rect)
    requires
        spec_new_tab_left(visible_tab_count as int, has_overflow) + NEW_TAB_BUTTON_WIDTH <= i32::MAX,
    ensures
        r.left == spec_new_tab_left(visible_tab_count as int, has_overflow),
        r.right == r.left + NEW_TAB_BUTTON_WIDTH,
        r.top == TAB_VERTICAL_PADDING,
        r.bottom == TITLEBAR_HEIGHT - TAB_VERTICAL_PADDING,
{
    let _ = client_width;
    let left = if has_overflow {
        TAB_BAR_LEFT_MARGIN + (visible_tab_count as i32) * TAB_WIDTH + OVERFLOW_BUTTON_WIDTH
    } else {
        TAB_BAR_LEFT_MARGIN + (visible_tab_count as i32) * TAB_WIDTH
    };
    Rect {
        left,
        top: TAB_VERTICAL_PADDING,
        right: left + NEW_TAB_BUTTON_WIDTH,
        bottom: TITLEBAR_HEIGHT - TAB_VERTICAL_PADDING,
    }
}

/// The new-tab button's rectangle when no overflow button is shown.
pub fn get_new_tab_button_rect(tab_count: usize, client_width: i32) -> (r: Rect)
    requires
        spec_tab_left(tab_count as int) + NEW_TAB_BUTTON_WIDTH <= i32::MAX,
    ensures
        r.left == spec_tab_left(tab_count as int),
        r.right == r.left + NEW_TAB_BUTTON_WIDTH,
        r.top == TAB_VERTICAL_PADDING,
        r.bottom == TITLEBAR_HEIGHT - TAB_VERTICAL_PADDING,
{
    get_new_tab_button_rect_ex(tab_count, false, client_width)
}

/// The profile-dropdown button's rectangle, just right of the new-tab button.
pub fn get_dropdown_button_rect_ex(visible_tab_count: usize, has_overflow: bool, client_width: i32) -> (r: Rect)
    requires
        spec_new_tab_left(visible_tab_count as int, has_overflow) + NEW_TAB_BUTTON_WIDTH
            + DROPDOWN_BUTTON_WIDTH <= i32::MAX,
    ensures
        r.left == spec_new_tab_left(visible_tab_count as int, has_overflow) + NEW_TAB_BUTTON_WIDTH,
        r.right == r.left + DROPDOWN_BUTTON_WIDTH,
        r.top == TAB_VERTICAL_PADDING,
        r.bottom == TITLEBAR_HEIGHT - TAB_VERTICAL_PADDING,
{
    let new_tab_rect = get_new_tab_button_rect_ex(visible_tab_count, has_overflow, client_width);
    Rect {
        left: new_tab_rect.right,
        top: TAB_VERTICAL_PADDING,
        right: new_tab_rect.right + DROPDOWN_BUTTON_WIDTH,
        bottom: TITLEBAR_HEIGHT - TAB_VERTICAL_PADDING,
    }
}

/// The overflow button's rectangle, right after the visible tabs.
pub fn get_overflow_button_rect(visible_tab_count: usize, client_width: i32) -> (r: Rect)
    requires
        spec_tab_left(visible_tab_count as int) + OVERFLOW_BUTTON_WIDTH <= i32::MAX,
    ensures
        r.left == spec_tab_left(visible_tab_count as int),
        r.right == r.left + OVERFLOW_BUTTON_WIDTH,
        r.top == TAB_VERTICAL_PADDING,
        r.bottom == TITLEBAR_HEIGHT - TAB_VERTICAL_PADDING,
{
    let _ = client_width;
    let left = TAB_BAR_LEFT_MARGIN + (visible_tab_count as i32) * TAB_WIDTH;
    Rect {
        left,
        top: TAB_VERTICAL_PADDING,
        right: left + OVERFLOW_BUTTON_WIDTH,
        bottom: TITLEBAR_HEIGHT - TAB_VERTICAL_PADDING,
    }
}

/// Rightmost x the tab strip may reach before the caption buttons.
pub open spec fn spec_tab_bar_max_x(client_width: int) -> int {
    client_width - 3 * BUTTON_WIDTH - 8
}

/// Rightmost x the tab strip may reach before the caption buttons.
pub fn get_tab_bar_max_x(client_width: i32) -> (r: i32)
    requires
        0 <= client_width,
    ensures
        r == spec_tab_bar_max_x(client_width as int),
{
    client_width - (BUTTON_WIDTH * 3) - 8
}

/// How many tabs fit before the caption buttons, leaving room for the
/// new-tab and dropdown buttons, and for the overflow button when one is
/// needed.
pub open spec fn spec_visible_count(tab_count: int, client_width: int) -> int {
    if tab_count == 0 {
        0
    } else {
        let avail = spec_tab_bar_max_x(client_width) - TAB_BAR_LEFT_MARGIN
            - (NEW_TAB_BUTTON_WIDTH + DROPDOWN_BUTTON_WIDTH + OVERFLOW_BUTTON_WIDTH);
        let max_visible = if avail < 0 { 0 } else { avail / TAB_WIDTH as int };
        if max_visible >= tab_count && spec_fits_without_overflow(tab_count, client_width) {
            tab_count
        } else if max_visible < tab_count {
            max_visible
        } else {
            tab_count
        }
    }
}

/// Whether every tab fits once the overflow button's room is reclaimed.
pub open spec fn spec_fits_without_overflow(tab_count: int, client_width: int) -> bool {
    let avail = spec_tab_bar_max_x(client_width) - TAB_BAR_LEFT_MARGIN
        - (NEW_TAB_BUTTON_WIDTH + DROPDOWN_BUTTON_WIDTH);
    let max_visible = if avail < 0 { 0 } else { avail / TAB_WIDTH as int };
    max_visible >= tab_count
}

/// Whether the overflow button is shown.
pub open spec fn spec_has_overflow(tab_count: int, client_width: int) -> bool {
    if tab_count == 0 {
        false
    } else {
        let avail = spec_tab_bar_max_x(client_width) - TAB_BAR_LEFT_MARGIN
            - (NEW_TAB_BUTTON_WIDTH + DROPDOWN_BUTTON_WIDTH + OVERFLOW_BUTTON_WIDTH);
        let max_visible = if avail < 0 { 0 } else { avail / TAB_WIDTH as int };
        if max_visible >= tab_count && spec_fits_without_overflow(tab_count, client_width) {
            false
        } else {
            max_visible < tab_count
        }
    }
}

/// How many tabs are displayed and whether an overflow button is needed.
pub fn calculate_visible_tabs(tab_count: usize, client_width: i32) -> (r: (usize, bool))
    requires
        0 <= client_width,
    ensures
        r.0 == spec_visible_count(tab_count as int, client_width as int),
        r.1 == spec_has_overflow(tab_count as int, client_width as int),
{
    if tab_count == 0 {
        return (0, false);
    }
    let max_x = get_tab_bar_max_x(client_width);
    let reserved_space = NEW_TAB_BUTTON_WIDTH + DROPDOWN_BUTTON_WIDTH + OVERFLOW_BUTTON_WIDTH;
    let available_width = max_x - TAB_BAR_LEFT_MARGIN - reserved_space;
    let max_visible: usize = if available_width < 0 {
        0
    } else {
        (available_width as usize) / (TAB_WIDTH as usize)
    };

    if max_visible >= tab_count {
        let available_without_overflow =
            max_x - TAB_BAR_LEFT_MARGIN - NEW_TAB_BUTTON_WIDTH - DROPDOWN_BUTTON_WIDTH;
        let max_visible_no_overflow: usize = if available_without_overflow < 0 {
            0
        } else {
            (available_without_overflow as usize) / (TAB_WIDTH as usize)
        };
        if max_visible_no_overflow >= tab_count {
            return (tab_count, false);
        }
    }

    let visible = if max_visible < tab_count { max_visible } else { tab_count };
    (visible, max_visible < tab_count)
}

/// The slot index a horizontal position falls into, counting contiguous
/// `TAB_WIDTH`-wide slots from the left margin.
pub open spec fn spec_tab_slot(x: int) -> int {
    (x - TAB_BAR_LEFT_MARGIN) / TAB_WIDTH as int
}

/// Whether a point lies on the close glyph of the tab at `index`.
pub open spec fn spec_in_close_glyph(x: int, y: int, index: int) -> bool {
    let close_left = spec_tab_left(index) + TAB_WIDTH - TAB_CLOSE_PADDING - TAB_CLOSE_SIZE;
    let close_top = (TAB_VERTICAL_PADDING + (TITLEBAR_HEIGHT - TAB_VERTICAL_PADDING)
        - TAB_CLOSE_SIZE) / 2;
    &&& close_left <= x < close_left + TAB_CLOSE_SIZE
    &&& close_top <= y < close_top + TAB_CLOSE_SIZE
}

/// What a point in the title bar hits: the tab band holds the visible tabs
/// (cut off at the strip's right limit), then the overflow button when one
/// is shown, then the new-tab and dropdown buttons; anything else in the
/// title bar is caption, anything below it is outside.
pub open spec fn spec_hit_test_tab_bar(x: int, y: int, tab_count: int, client_width: int) -> TabHitResult {
    if !(TAB_VERTICAL_PADDING <= y < TITLEBAR_HEIGHT - TAB_VERTICAL_PADDING) {
        if 0 <= y < TITLEBAR_HEIGHT {
            TabHitResult::Caption
        } else {
            TabHitResult::Outside
        }
    } else {
        let max_x = spec_tab_bar_max_x(client_width);
        let vis = spec_visible_count(tab_count, client_width);
        let ovf = spec_has_overflow(tab_count, client_width);
        let slot = spec_tab_slot(x);
        let new_tab_left = spec_new_tab_left(vis, ovf);
        if TAB_BAR_LEFT_MARGIN <= x && slot < vis && spec_tab_left(slot) <= max_x {
            if spec_in_close_glyph(x, y, slot) {
                TabHitResult::TabClose(slot as usize)
            } else {
                TabHitResult::Tab(slot as usize)
            }
        } else if ovf && spec_tab_left(vis) <= x < spec_tab_left(vis) + OVERFLOW_BUTTON_WIDTH {
            TabHitResult::OverflowButton
        } else if new_tab_left + NEW_TAB_BUTTON_WIDTH <= max_x
            && new_tab_left <= x < new_tab_left + NEW_TAB_BUTTON_WIDTH {
            TabHitResult::NewTabButton
        } else if new_tab_left + NEW_TAB_BUTTON_WIDTH + DROPDOWN_BUTTON_WIDTH <= max_x
            && new_tab_left + NEW_TAB_BUTTON_WIDTH <= x
                < new_tab_left + NEW_TAB_BUTTON_WIDTH + DROPDOWN_BUTTON_WIDTH {
            TabHitResult::ProfileDropdown
        } else {
            TabHitResult::Caption
        }
    }
}

/// Hit test the tab strip area of the title bar.
pub fn hit_test_tab_bar(x: i32, y: i32, tab_count: usize, client_width: i32) -> (r: TabHitResult)
    requires
        0 <= client_width,
    ensures
        r == spec_hit_test_tab_bar(x as int, y as int, tab_count as int, client_width as int),
{
    if !(TAB_VERTICAL_PADDING <= y && y < TITLEBAR_HEIGHT - TAB_VERTICAL_PADDING) {
        if 0 <= y && y < TITLEBAR_HEIGHT {
            return TabHitResult::Caption;
        }
        return TabHitResult::Outside;
    }

    let max_x = get_tab_bar_max_x(client_width);
    let (visible_count, has_overflow) = calculate_visible_tabs(tab_count, client_width);
    proof {
        lemma_visible_count_fits(tab_count as int, client_width as int);
    }

    let mut i: usize = 0;
    let mut cut_off = false;
    while i < visible_count
        invariant_except_break
            !cut_off,
        invariant
            0 <= client_width,
            TAB_VERTICAL_PADDING <= y < TITLEBAR_HEIGHT - TAB_VERTICAL_PADDING,
            visible_count == spec_visible_count(tab_count as int, client_width as int),
            visible_count <= tab_count,
            max_x == spec_tab_bar_max_x(client_width as int),
            spec_tab_left(visible_count as int)
                + OVERFLOW_BUTTON_WIDTH + NEW_TAB_BUTTON_WIDTH + DROPDOWN_BUTTON_WIDTH <= i32::MAX,
            i <= visible_count,
            forall|j: int| 0 <= j < i ==> spec_tab_left(j) <= max_x
                && !(spec_tab_left(j) <= x < spec_tab_left(j) + TAB_WIDTH),
        ensures
            cut_off ==> i < visible_count && spec_tab_left(i as int) > max_x,
            !cut_off ==> i == visible_count,
            forall|j: int| 0 <= j < i ==> spec_tab_left(j) <= max_x
                && !(spec_tab_left(j) <= x < spec_tab_left(j) + TAB_WIDTH),
        decreases visible_count - i,
    {
        proof {
            assert(spec_tab_left(i as int) + TAB_WIDTH <= spec_tab_left(visible_count as int))
                by (nonlinear_arith)
                requires i < visible_count;
        }
        let tab_rect = get_tab_rect(i, client_width);
        if tab_rect.left > max_x {
            cut_off = true;
            break;
        }
        if x >= tab_rect.left && x < tab_rect.right {
            let close_rect = get_tab_close_rect(&tab_rect);
            let hit = if x >= close_rect.left && x < close_rect.right
                && y >= close_rect.top && y < close_rect.bottom {
                TabHitResult::TabClose(i)
            } else {
                TabHitResult::Tab(i)
            };
            proof {
                lemma_slot_of_contained_x(x as int, i as int);
            }
            return hit;
        }
        i += 1;
    }

    proof {
        lemma_no_tab_hit(x as int, i as int, visible_count as int, max_x as int, cut_off);
    }

    if has_overflow {
        let overflow_rect = get_overflow_button_rect(visible_count, client_width);
        if x >= overflow_rect.left && x < overflow_rect.right {
            return TabHitResult::OverflowButton;
        }
    }

    let new_tab_rect = get_new_tab_button_rect_ex(visible_count, has_overflow, client_width);
    if new_tab_rect.right <= max_x {
        if x >= new_tab_rect.left && x < new_tab_rect.right {
            return TabHitResult::NewTabButton;
        }
    }

    let dropdown_rect = get_dropdown_button_rect_ex(visible_count, has_overflow, client_width);
    if dropdown_rect.right <= max_x {
        if x >= dropdown_rect.left && x < dropdown_rect.right {
            return TabHitResult::ProfileDropdown;
        }
    }

    TabHitResult::Caption
}

/// The strip never runs past the window: the slot past the last displayed
/// tab, and the buttons after it, stay inside the coordinate range.
proof fn lemma_visible_count_fits(tab_count: int, client_width: int)
    requires
        0 <= tab_count,
        0 <= client_width <= i32::MAX,
    ensures
        0 <= spec_visible_count(tab_count, client_width) <= tab_count,
        spec_tab_left(spec_visible_count(tab_count, client_width))
            + OVERFLOW_BUTTON_WIDTH + NEW_TAB_BUTTON_WIDTH + DROPDOWN_BUTTON_WIDTH <= i32::MAX,
{
    let vis = spec_visible_count(tab_count, client_width);
    if tab_count == 0 {
    } else {
        let avail = spec_tab_bar_max_x(client_width) - TAB_BAR_LEFT_MARGIN
            - (NEW_TAB_BUTTON_WIDTH + DROPDOWN_BUTTON_WIDTH + OVERFLOW_BUTTON_WIDTH);
        let maxv = if avail < 0 { 0 } else { avail / TAB_WIDTH as int };
        let avail2 = spec_tab_bar_max_x(client_width) - TAB_BAR_LEFT_MARGIN
            - (NEW_TAB_BUTTON_WIDTH + DROPDOWN_BUTTON_WIDTH);
        let max2 = if avail2 < 0 { 0 } else { avail2 / TAB_WIDTH as int };
        if maxv >= tab_count && spec_fits_without_overflow(tab_count, client_width) {
            assert(vis == tab_count);
            assert(tab_count <= max2);
            assert(avail2 >= 0);
            assert(TAB_WIDTH as int * (avail2 / TAB_WIDTH as int) <= avail2) by (nonlinear_arith)
                requires avail2 >= 0;
            assert(TAB_WIDTH as int * tab_count <= TAB_WIDTH as int * max2) by (nonlinear_arith)
                requires tab_count <= max2;
        } else {
            assert(vis <= maxv);
            if avail >= 0 {
                assert(TAB_WIDTH as int * (avail / TAB_WIDTH as int) <= avail) by (nonlinear_arith)
                    requires avail >= 0;
                assert(TAB_WIDTH as int * vis <= TAB_WIDTH as int * maxv) by (nonlinear_arith)
                    requires vis <= maxv;
            }
        }
    }
}

/// When `x` lies within the slot of tab `i`, the slot formula recovers `i`.
proof fn lemma_slot_of_contained_x(x: int, i: int)
    requires
        0 <= i,
        spec_tab_left(i) <= x < spec_tab_left(i) + TAB_WIDTH,
    ensures
        spec_tab_slot(x) == i,
        TAB_BAR_LEFT_MARGIN <= x,
{
    assert((x - TAB_BAR_LEFT_MARGIN) / TAB_WIDTH as int == i) by (nonlinear_arith)
        requires TAB_WIDTH as int * i <= x - TAB_BAR_LEFT_MARGIN < TAB_WIDTH as int * (i + 1);
    assert(TAB_BAR_LEFT_MARGIN <= x) by (nonlinear_arith)
        requires 0 <= i, spec_tab_left(i) <= x;
}

/// After the scan over the displayed tabs found nothing, no slot both
/// contains `x` and is reachable before the strip's right limit.
proof fn lemma_no_tab_hit(x: int, i: int, vis: int, max_x: int, cut_off: bool)
    requires
        cut_off ==> i < vis && spec_tab_left(i) > max_x,
        !cut_off ==> i == vis,
        forall|j: int| 0 <= j < i ==> spec_tab_left(j) <= max_x
            && !(spec_tab_left(j) <= x < spec_tab_left(j) + TAB_WIDTH),
    ensures
        !(TAB_BAR_LEFT_MARGIN <= x && spec_tab_slot(x) < vis
            && spec_tab_left(spec_tab_slot(x)) <= max_x),
{
    if TAB_BAR_LEFT_MARGIN <= x && spec_tab_slot(x) < vis
        && spec_tab_left(spec_tab_slot(x)) <= max_x {
        let s = spec_tab_slot(x);
        assert(0 <= s && TAB_WIDTH as int * s <= x - TAB_BAR_LEFT_MARGIN
            < TAB_WIDTH as int * (s + 1)) by (nonlinear_arith)
            requires s == (x - TAB_BAR_LEFT_MARGIN) / TAB_WIDTH as int, x >= TAB_BAR_LEFT_MARGIN;
        assert(spec_tab_left(s) <= x < spec_tab_left(s) + TAB_WIDTH);
        if s < i {
            assert(false);
        } else {
            assert(cut_off && i <= s);
            assert(spec_tab_left(i) <= spec_tab_left(s)) by (nonlinear_arith)
                requires i <= s;
            assert(false);
        }
    }
}

/// The slot a dropped tab lands in: the slot under `x`, clamped to the
/// existing tabs.
pub open spec fn spec_drop_index(x: int, tab_count: int) -> int {
    if x < TAB_BAR_LEFT_MARGIN {
        0
    } else if spec_tab_slot(x) >= tab_count {
        if tab_count == 0 { 0 } else { tab_count - 1 }
    } else {
        spec_tab_slot(x)
    }
}

/// Which index a tab dropped at `x` should take.
pub fn calculate_drop_index(x: i32, tab_count: usize, client_width: i32) -> (r: usize)
    requires
        i32::MIN + TAB_BAR_LEFT_MARGIN <= x,
    ensures
        r == spec_drop_index(x as int, tab_count as int),
{
    let _ = client_width;
    let relative_x = x - TAB_BAR_LEFT_MARGIN;
    if relative_x < 0 {
        return 0;
    }
    let index = (relative_x as usize) / (TAB_WIDTH as usize);
    if index >= tab_count {
        if tab_count == 0 { 0 } else { tab_count - 1 }
    } else {
        index
    }
}

/// Whether dragging the tab at `drag_tab_index`, drawn with its left edge
/// at `drag_visual_x`, should swap with a neighbour: the swap fires as soon
/// as the dragged tab's center passes the neighbour's center, to the right
/// first, else to the left.
pub open spec fn spec_swap_target(drag_tab_index: int, drag_visual_x: int, tab_count: int) -> Option<usize> {
    if tab_count <= 1 {
        Option::None
    } else {
        let drag_center = drag_visual_x + TAB_WIDTH as int / 2;
        if drag_tab_index < tab_count - 1
            && drag_center > spec_tab_left(drag_tab_index + 1) + TAB_WIDTH as int / 2 {
            Option::Some((drag_tab_index + 1) as usize)
        } else if drag_tab_index > 0
            && drag_center < spec_tab_left(drag_tab_index - 1) + TAB_WIDTH as int / 2 {
            Option::Some((drag_tab_index - 1) as usize)
        } else {
            Option::None
        }
    }
}

/// Decide whether a drag at this visual position crosses a neighbour's
/// midpoint and must swap with it.
pub fn calculate_swap_target(
    drag_tab_index: usize,
    drag_visual_x: i32,
    tab_count: usize,
    client_width: i32,
) -> (r: Option<usize>)
    requires
        drag_tab_index < tab_count || tab_count == 0,
        2 * spec_tab_left(tab_count as int) + TAB_WIDTH <= i32::MAX,
        drag_visual_x <= i32::MAX - TAB_WIDTH / 2,
    ensures
        r == spec_swap_target(drag_tab_index as int, drag_visual_x as int, tab_count as int),
{
    let _ = client_width;
    if tab_count <= 1 {
        return Option::None;
    }

    let drag_center = drag_visual_x + TAB_WIDTH / 2;

    proof {
        assert(forall|k: int| 0 <= k <= tab_count as int ==> #[trigger] spec_tab_left(k)
            <= spec_tab_left(tab_count as int)) by (nonlinear_arith);
    }

    if drag_tab_index < tab_count - 1 {
        let right_tab_index = drag_tab_index + 1;
        let right_tab_rect = get_tab_rect(right_tab_index, 0);
        let right_tab_center = (right_tab_rect.left + right_tab_rect.right) / 2;
        proof {
            let l = spec_tab_left(right_tab_index as int);
            assert((l + (l + TAB_WIDTH)) / 2 == l + TAB_WIDTH as int / 2) by (nonlinear_arith)
                requires 0 <= l;
        }
        if drag_center > right_tab_center {
            return Option::Some(right_tab_index);
        }
    }

    if drag_tab_index > 0 {
        let left_tab_index = drag_tab_index - 1;
        let left_tab_rect = get_tab_rect(left_tab_index, 0);
        let left_tab_center = (left_tab_rect.left + left_tab_rect.right) / 2;
        proof {
            let l = spec_tab_left(left_tab_index as int);
            assert((l + (l + TAB_WIDTH)) / 2 == l + TAB_WIDTH as int / 2) by (nonlinear_arith)
                requires 0 <= l;
        }
        if drag_center < left_tab_center {
            return Option::Some(left_tab_index);
        }
    }

    Option::None
}

} // verus!
