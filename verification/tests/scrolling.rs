use wincmd::font::{Font, FontArrangment};
use wincmd::render::{rect_contains_point, signed, ScrollbarState, VisualCommandLine};
use wincmd::screen::Screen;

fn view() -> VisualCommandLine {
    VisualCommandLine::new(Font {
        arrangment: FontArrangment::ASCII,
        glyph_size: (8, 16),
        sheet_width: 255,
    })
}

fn screen(text: &str) -> Screen {
    let mut s = Screen::new(0x07);
    s.set_text(text.to_string());
    s
}

fn lines(n: usize) -> String {
    "x\n".repeat(n)
}

#[test]
fn new_view_is_at_the_top_and_locked() {
    let v = view();
    assert_eq!(v.scroll(), 0);
    assert_eq!(v.last_pos(), (0, 0));
    assert_eq!(v.scrollbar_state(), ScrollbarState::Blurred);
    assert_eq!(v.font().glyph_size, (8, 16));
    assert!(v.is_caret_rendered());
}

#[test]
fn caret_blinks_every_ten_frames() {
    let mut v = view();
    let s = screen("");
    let mut seen = Vec::new();
    for _ in 0..40 {
        seen.push(v.is_caret_rendered());
        v.update((640, 400), &s);
    }
    for (i, on) in seen.iter().enumerate() {
        assert_eq!(*on, (i / 10) % 2 == 0);
    }
}

#[test]
fn frame_lays_out_the_text() {
    let mut v = view();
    v.update((640, 400), &screen("abc\nde"));
    assert_eq!(v.last_pos(), (16, 16));
    assert_eq!(v.scroll(), 0);
}

#[test]
fn locked_view_follows_the_end_of_the_text() {
    let mut v = view();
    v.update((640, 400), &screen(&lines(50)));
    assert_eq!(v.last_pos(), (0, 800));
    assert_eq!(v.scroll(), 416);
    v.update((640, 400), &screen(&lines(60)));
    assert_eq!(v.last_pos(), (0, 960));
    assert_eq!(v.scroll(), 576);
}

#[test]
fn text_gives_way_to_the_scrollbar() {
    let mut v = view();
    let text = "a".repeat(80);
    v.update((640, 400), &screen(&text));
    assert_eq!(v.last_pos(), (0, 16));
    let mut w = view();
    let long = lines(50) + &"a".repeat(78);
    w.update((640, 400), &screen(&long));
    assert_eq!(w.last_pos(), (624, 800));
    w.update((640, 400), &screen(&long));
    assert_eq!(w.last_pos(), (0, 816));
}

#[test]
fn scroll_by_moves_and_unlocks() {
    let mut v = view();
    v.update((640, 400), &screen(&lines(50)));
    v.scroll_by(-100);
    assert_eq!(v.scroll(), 316);
    v.update((640, 400), &screen(&lines(60)));
    assert_eq!(v.scroll(), 316);
    v.scroll_by(-1000);
    assert_eq!(v.scroll(), 0);
    v.scroll_by(5000);
    assert_eq!(v.scroll(), 5000);
    v.update((640, 400), &screen(&lines(60)));
    assert_eq!(v.scroll(), 576);
    v.lock_scroll();
    v.scroll_by(-16);
    v.lock_scroll();
    v.update((640, 400), &screen(&lines(60)));
    assert_eq!(v.scroll(), 576);
}

#[test]
fn arrows_scroll_by_twenty() {
    let mut v = view();
    v.update((640, 400), &screen(&lines(50)));
    v.press_on(false, true, false);
    assert_eq!(v.scroll(), 396);
    assert_eq!(v.scrollbar_state(), ScrollbarState::Blurred);
    v.press_on(false, false, true);
    assert_eq!(v.scroll(), 416);
    v.press_on(false, true, true);
    assert_eq!(v.scroll(), 416);
    v.update((640, 400), &screen(&lines(60)));
    assert_eq!(v.scroll(), 416);
    let mut top = view();
    top.scroll_by(7);
    top.press_on(false, true, false);
    assert_eq!(top.scroll(), 0);
    top.press_on(false, true, true);
    assert_eq!(top.scroll(), 20);
}

#[test]
fn press_elsewhere_changes_nothing() {
    let mut v = view();
    v.update((640, 400), &screen(&lines(50)));
    v.press_on(false, false, false);
    assert_eq!(v.scroll(), 416);
    assert_eq!(v.scrollbar_state(), ScrollbarState::Blurred);
    v.update((640, 400), &screen(&lines(60)));
    assert_eq!(v.scroll(), 576);
}

#[test]
fn thumb_is_hovered_held_and_released() {
    let mut v = view();
    v.update((640, 400), &screen(&lines(50)));
    assert!(!v.move_on(400, true, 3));
    assert_eq!(v.scrollbar_state(), ScrollbarState::Hovered);
    assert!(!v.move_on(400, false, 3));
    assert_eq!(v.scrollbar_state(), ScrollbarState::Blurred);
    assert_eq!(v.scroll(), 416);
    v.press_on(true, false, false);
    assert_eq!(v.scrollbar_state(), ScrollbarState::Pressed);
    assert!(v.move_on(400, false, -10));
    assert_eq!(v.scrollbar_state(), ScrollbarState::Pressed);
    assert_eq!(v.scroll(), 416 - 21);
    assert!(v.move_on(400, true, 10));
    assert_eq!(v.scroll(), 416);
    assert!(v.move_on(400, true, -1000));
    assert_eq!(v.scroll(), 0);
    v.mouse_release();
    assert_eq!(v.scrollbar_state(), ScrollbarState::Blurred);
    assert!(!v.move_on(400, false, 10));
    assert_eq!(v.scroll(), 0);
}

#[test]
fn drag_rounds_towards_zero() {
    let mut v = view();
    v.update((640, 400), &screen(&lines(50)));
    v.press_on(true, false, false);
    assert!(v.move_on(400, false, -1));
    assert_eq!(v.scroll(), 414);
    assert!(v.move_on(400, false, 1));
    assert_eq!(v.scroll(), 416);
    let mut small = view();
    small.update((640, 20), &screen(&lines(50)));
    small.press_on(true, false, false);
    assert_eq!(small.scroll(), 796);
    assert!(small.move_on(20, false, 1));
    assert_eq!(small.scroll(), 796 - 57);
}

#[test]
fn thumb_rect_of_a_short_text_is_zero() {
    let v = view();
    assert_eq!(v.get_scrollbar_thumb_rect((640, 400), 0), (0, 0, 0, 0));
    assert_eq!(v.get_scrollbar_thumb_rect((640, 400), 399), (0, 0, 0, 0));
    assert_eq!(v.get_scrollbar_thumb_rect((640, 10), 33), (0, 0, 0, 0));
    assert_eq!(v.get_scrollbar_thumb_rect((3, 10), 33), (0, 0, 0, 0));
}

#[test]
fn thumb_rect_of_a_long_text() {
    let mut v = view();
    assert_eq!(v.get_scrollbar_thumb_rect((640, 400), 800), (625, 17, 14, 183));
    assert_eq!(v.get_scrollbar_thumb_rect((640, 400), 400), (625, 17, 14, 366));
    v.scroll_by(200);
    assert_eq!(v.get_scrollbar_thumb_rect((640, 400), 800), (625, 17 + 91, 14, 183));
    v.scroll_by(5000);
    assert_eq!(v.get_scrollbar_thumb_rect((640, 400), 800), (625, 17 + 183, 14, 183));
    assert_eq!(v.get_scrollbar_thumb_rect((640, 10), 34), (625, 17, 14, 0));
}

#[test]
fn arrow_squares_sit_at_the_right_edge() {
    assert_eq!(
        VisualCommandLine::arrow_rects((640, 400)),
        ((624, 0, 16, 16), (624, 384, 16, 16))
    );
    assert_eq!(VisualCommandLine::arrow_rects((0, 0)), ((-16, 0, 16, 16), (-16, -16, 16, 16)));
}

#[test]
fn right_bound_leaves_room_for_the_scrollbar() {
    let mut v = view();
    assert_eq!(v.right_bound((640, 400)), 640);
    v.update((640, 400), &screen(&lines(50)));
    assert_eq!(v.right_bound((640, 400)), 624);
    assert_eq!(v.right_bound((640, 800)), 640);
    assert_eq!(v.right_bound((0, 10)), -16);
}

#[test]
fn try_update_refuses_what_would_overflow() {
    let mut v = view();
    assert!(v.try_update((640, 400), &screen(&lines(50))));
    assert_eq!(v.last_pos(), (0, 800));
    assert_eq!(v.scroll(), 416);
    assert!(!v.try_update((u32::MAX, 400), &screen("abc")));
    assert!(!v.try_update((640, 0x8000_0000), &screen("abc")));
    assert_eq!(v.last_pos(), (0, 800));
    assert_eq!(v.scroll(), 416);
    let mut tall = VisualCommandLine::new(Font {
        arrangment: FontArrangment::ASCII,
        glyph_size: (8, 0x4000_0000),
        sheet_width: 255,
    });
    assert!(tall.try_update((640, 400), &screen("a")));
    assert_eq!(tall.last_pos(), (8, 0));
    assert!(!tall.try_update((640, 400), &screen("a\nb\nc")));
    assert_eq!(tall.last_pos(), (8, 0));
    assert!(tall.is_caret_rendered());
}

#[test]
fn try_mouse_move_refuses_a_track_of_no_length() {
    let mut v = view();
    v.update((640, 400), &screen(&lines(50)));
    assert_eq!(v.try_move_on(34, true, 5), Some(false));
    assert_eq!(v.scrollbar_state(), ScrollbarState::Hovered);
    v.press_on(true, false, false);
    assert_eq!(v.try_move_on(34, false, 5), None);
    assert_eq!(v.scroll(), 416);
    assert_eq!(v.scrollbar_state(), ScrollbarState::Pressed);
    assert_eq!(v.try_move_on(400, false, i32::MAX), None);
    assert_eq!(v.scroll(), 416);
    assert_eq!(v.try_move_on(400, false, -10), Some(true));
    assert_eq!(v.scroll(), 395);
    assert_eq!(v.try_move_on(33, false, 1), Some(true));
    assert_eq!(v.scroll(), 0);
}

#[test]
fn checked_thumb_rect_refuses_a_narrow_window() {
    let mut v = view();
    assert_eq!(v.checked_scrollbar_thumb_rect((640, 400), 800), Some((625, 17, 14, 183)));
    assert_eq!(v.checked_scrollbar_thumb_rect((640, 400), 10), Some((0, 0, 0, 0)));
    assert_eq!(v.checked_scrollbar_thumb_rect((3, 400), 10), Some((0, 0, 0, 0)));
    assert_eq!(v.checked_scrollbar_thumb_rect((14, 400), 800), None);
    assert_eq!(v.checked_scrollbar_thumb_rect((15, 400), 800), Some((0, 17, 14, 183)));
    assert_eq!(v.checked_scrollbar_thumb_rect((640, 100_000), 200_000), None);
    v.scroll_by(i32::MAX);
    assert_eq!(v.checked_scrollbar_thumb_rect((640, 65_000), 70_000), Some((625, 17 + 4640, 14, 60325)));
    assert_eq!(v.checked_scrollbar_thumb_rect((640, 1_000), 3_000_000_000), None);
}

#[test]
fn rectangle_holds_its_left_and_top_edge_only() {
    let r = (1, 2, 3, 4);
    assert!(rect_contains_point(r, (1, 2)));
    assert!(!rect_contains_point(r, (0, 1)));
    assert!(rect_contains_point(r, (3, 5)));
    assert!(!rect_contains_point(r, (4, 6)));
    assert!(!rect_contains_point(r, (4, 5)));
    assert!(!rect_contains_point(r, (3, 6)));
}

#[test]
fn rectangle_of_no_size_is_one_wide_and_high() {
    assert!(rect_contains_point((0, 0, 0, 0), (0, 0)));
    assert!(!rect_contains_point((0, 0, 0, 0), (1, 0)));
    assert!(!rect_contains_point((0, 0, 0, 0), (0, 1)));
    assert!(!rect_contains_point((0, 0, 0, 0), (-1, 0)));
}

#[test]
fn rectangle_is_clamped_to_half_the_range() {
    let half = i32::MAX / 2;
    assert!(rect_contains_point((i32::MAX, 0, 5, 5), (half, 0)));
    assert!(!rect_contains_point((i32::MAX, 0, 5, 5), (i32::MAX, 0)));
    assert!(rect_contains_point((i32::MIN, 0, 5, 5), (i32::MIN / 2, 0)));
    assert!(!rect_contains_point((i32::MIN, 0, 5, 5), (i32::MIN, 0)));
    assert!(rect_contains_point((0, 0, u32::MAX, 1), (half - 1, 0)));
    assert!(!rect_contains_point((0, 0, u32::MAX, 1), (half, 0)));
}

#[test]
fn bits_are_read_as_signed() {
    assert_eq!(signed(0), 0);
    assert_eq!(signed(640), 640);
    assert_eq!(signed(0x7fff_ffff), i32::MAX);
    assert_eq!(signed(0x8000_0000), i32::MIN);
    assert_eq!(signed(u32::MAX), -1);
}

#[test]
fn press_on_the_arrows_by_position() {
    let mut v = view();
    v.update((640, 400), &screen(&lines(50)));
    v.mouse_press((640, 400), (630, 5));
    assert_eq!(v.scroll(), 396);
    assert_eq!(v.scrollbar_state(), ScrollbarState::Blurred);
    v.mouse_press((640, 400), (630, 390));
    assert_eq!(v.scroll(), 416);
    v.mouse_press((640, 400), (100, 100));
    assert_eq!(v.scroll(), 416);
    v.update((640, 400), &screen(&lines(60)));
    assert_eq!(v.scroll(), 416);
}

#[test]
fn press_and_drag_the_thumb_by_position() {
    let mut v = view();
    v.update((640, 400), &screen(&lines(50)));
    assert_eq!(v.get_scrollbar_thumb_rect((640, 400), 800), (625, 17 + 183, 14, 183));
    assert!(!v.mouse_move((640, 400), (630, 250), 1));
    assert_eq!(v.scrollbar_state(), ScrollbarState::Hovered);
    assert!(!v.mouse_move((640, 400), (630, 100), 1));
    assert_eq!(v.scrollbar_state(), ScrollbarState::Blurred);
    v.mouse_press((640, 400), (630, 250));
    assert_eq!(v.scrollbar_state(), ScrollbarState::Pressed);
    assert_eq!(v.scroll(), 416);
    assert!(v.mouse_move((640, 400), (630, 240), -10));
    assert_eq!(v.scroll(), 416 - 21);
    v.mouse_release();
    assert_eq!(v.scrollbar_state(), ScrollbarState::Blurred);
}

#[test]
fn press_without_scrollbar_hits_the_corner_thumb() {
    let mut v = view();
    v.mouse_press((640, 400), (0, 0));
    assert_eq!(v.scrollbar_state(), ScrollbarState::Pressed);
    let mut w = view();
    w.mouse_press((640, 400), (1, 0));
    assert_eq!(w.scrollbar_state(), ScrollbarState::Blurred);
}

#[test]
fn try_press_refuses_what_would_overflow() {
    let mut v = view();
    v.update((640, 400), &screen(&lines(50)));
    assert!(v.try_mouse_press((640, 400), (630, 5)));
    assert_eq!(v.scroll(), 396);
    assert!(!v.try_mouse_press((14, 400), (630, 5)));
    assert!(!v.try_mouse_press((0x8000_0000, 400), (0, 0)));
    assert!(!v.try_mouse_press((640, 0x8000_000f), (0, 0)));
    assert_eq!(v.scroll(), 396);
    assert!(v.try_mouse_press((u32::MAX, 900), (-17, 5)));
    assert_eq!(v.scroll(), 376);
}

#[test]
fn try_move_refuses_what_would_overflow() {
    let mut v = view();
    v.update((640, 400), &screen(&lines(50)));
    assert_eq!(v.try_mouse_move((640, 400), (630, 250), 1), Some(false));
    assert_eq!(v.scrollbar_state(), ScrollbarState::Hovered);
    assert_eq!(v.try_mouse_move((14, 400), (630, 250), 1), None);
    assert_eq!(v.scrollbar_state(), ScrollbarState::Hovered);
    v.mouse_press((640, 400), (630, 250));
    assert_eq!(v.try_mouse_move((640, 34), (0, 0), 1), None);
    assert_eq!(v.try_mouse_move((640, 400), (0, 0), -10), Some(true));
    assert_eq!(v.scroll(), 416 - 21);
}

#[test]
fn try_scroll_by_refuses_what_would_overflow() {
    let mut v = view();
    assert!(v.try_scroll_by(i32::MAX));
    assert_eq!(v.scroll(), i32::MAX as u32);
    assert!(!v.try_scroll_by(1));
    assert_eq!(v.scroll(), i32::MAX as u32);
    assert!(v.try_scroll_by(i32::MIN));
    assert_eq!(v.scroll(), 0);
    v.press_on(false, false, true);
    v.scroll_by(i32::MAX - 20);
    v.press_on(false, false, true);
    assert_eq!(v.scroll(), i32::MAX as u32 + 20);
    assert!(!v.try_scroll_by(-1));
    assert_eq!(v.scroll(), i32::MAX as u32 + 20);
}

#[test]
fn scrollbar_is_shown_for_a_text_as_high_as_the_window() {
    let mut v = view();
    assert_eq!(v.scrollbar_height(400), None);
    v.update((640, 400), &screen(&lines(50)));
    assert_eq!(v.scrollbar_height(400), Some(400));
    assert_eq!(v.scrollbar_height(800), Some(800));
    assert_eq!(v.scrollbar_height(801), None);
    assert_eq!(v.scrollbar_height(10), Some(34));
}
