use webterm::screen::{Cell, Screen};
use webterm::scrollback::ScrollbackBuffer;

#[test]
fn test_cell_to_cga_roundtrip() {
    let cell = Cell { ch: b'A', fg: 14, bg: 4 };
    let cga = ScrollbackBuffer::cell_to_cga(&cell);
    let result = ScrollbackBuffer::cga_to_cell(cga);
    assert_eq!(result.ch, cell.ch);
    assert_eq!(result.fg, cell.fg);
    assert_eq!(result.bg, cell.bg);
}

#[test]
fn test_scrollback_indicator() {
    let indicator = ScrollbackBuffer::scrollback_indicator();
    assert_eq!(indicator[0], b'S');
    assert_eq!(indicator[1], 0x4E); // Yellow on red
    assert_eq!(indicator[18], b'K');
    assert_eq!(indicator[19], 0x4E);
}

#[test]
fn test_scroll_navigation_mouse() {
    let mut buffer = ScrollbackBuffer::new();

    // Push some test lines
    let cell = Cell { ch: b' ', fg: 7, bg: 0 };
    let line = vec![cell; 80];
    for _ in 0..50 {
        buffer.push_line(&line);
    }

    // Not active initially
    assert!(!buffer.is_active());

    // Scroll up activates and moves offset (mouse mode)
    buffer.scroll_up(1);
    assert!(buffer.is_active());
    assert!(!buffer.keyboard_entry());
    assert_eq!(buffer.viewport_position(), 1);

    // Scroll up more
    buffer.scroll_up(10);
    assert_eq!(buffer.viewport_position(), 11);

    // Scroll down
    buffer.scroll_down(5);
    assert_eq!(buffer.viewport_position(), 6);

    // Scroll down to bottom exits (mouse mode only)
    buffer.scroll_down(10);
    assert!(!buffer.is_active());
    assert_eq!(buffer.viewport_position(), 0);
}

#[test]
fn test_max_lines_trimming() {
    let mut buffer = ScrollbackBuffer::with_max_lines(10);
    let cell = Cell { ch: b'X', fg: 7, bg: 0 };
    let line = vec![cell; 80];

    // Add 15 lines
    for _ in 0..15 {
        buffer.push_line(&line);
    }

    // Should be trimmed to 10
    assert_eq!(buffer.history_len(), 10);
}

fn line_of(ch: u8) -> Vec<Cell> {
    vec![Cell { ch, fg: 7, bg: 0 }; 80]
}

#[test]
fn pack_unpack_is_a_bijection_on_four_bit_colours() {
    for fg in 0..16u8 {
        for bg in 0..16u8 {
            for ch in [0u8, b'A', 0xB0, 0xFF] {
                let cell = Cell { ch, fg, bg };
                let cga = ScrollbackBuffer::cell_to_cga(&cell);
                assert_eq!(cga[1], (bg << 4) | fg);
                assert_eq!(ScrollbackBuffer::cga_to_cell(cga), cell);
            }
        }
    }
}

#[test]
fn history_never_exceeds_max_lines() {
    let mut buffer = ScrollbackBuffer::with_max_lines(3);
    for i in 0..20u8 {
        buffer.push_line(&line_of(b'a' + i));
        assert!(buffer.history_len() <= 3);
    }
    let mut none = ScrollbackBuffer::with_max_lines(0);
    none.push_line(&line_of(b'x'));
    assert_eq!(none.history_len(), 0);
}

#[test]
fn short_line_is_padded_with_zero_bytes() {
    let mut buffer = ScrollbackBuffer::new();
    buffer.push_line(&[Cell { ch: b'Q', fg: 2, bg: 1 }]);
    buffer.enter_viewer_mode();
    let screen = Screen::new();
    let line = buffer.get_display_line(0, &screen).unwrap();
    assert_eq!(line[0], b'Q');
    assert_eq!(line[1], 0x12);
    assert!(line[2..].iter().all(|&b| b == 0));
}

#[test]
fn mouse_anchor_keeps_history_rows_in_place() {
    let mut buffer = ScrollbackBuffer::new();
    for i in 0..40u8 {
        buffer.push_line(&line_of(b'0' + i));
    }
    let screen = Screen::new();
    buffer.scroll_up(30);
    assert_eq!(buffer.viewport_position(), 30);
    let before: Vec<_> = (0..25).map(|y| buffer.get_display_line(y, &screen).unwrap()).collect();
    buffer.push_line(&line_of(b'#'));
    assert_eq!(buffer.viewport_position(), 31);
    let after: Vec<_> = (0..25).map(|y| buffer.get_display_line(y, &screen).unwrap()).collect();
    assert_eq!(before, after);
    // first row of the window is history line 40 - 30 = 10
    assert_eq!(after[0][0], b'0' + 10);
}

#[test]
fn keyboard_mode_window_stays_put_as_lines_arrive() {
    let mut buffer = ScrollbackBuffer::new();
    for i in 0..40u8 {
        buffer.push_line(&line_of(b'0' + i));
    }
    buffer.toggle_scrollback();
    assert!(buffer.keyboard_entry());
    assert_eq!(buffer.viewport_position(), 40);
    buffer.scroll_up(30);
    assert_eq!(buffer.viewport_position(), 10);
    buffer.push_line(&line_of(b'#'));
    assert_eq!(buffer.viewport_position(), 10);
    let screen = Screen::new();
    assert_eq!(buffer.get_display_line(0, &screen).unwrap()[0], b'0' + 10);
}

#[test]
fn keyboard_scroll_down_never_exits() {
    let mut buffer = ScrollbackBuffer::new();
    for _ in 0..30 {
        buffer.push_line(&line_of(b'k'));
    }
    buffer.enter_scrollback_keyboard();
    buffer.scroll_up(7);
    for _ in 0..100 {
        buffer.scroll_down(3);
        assert!(buffer.is_active());
    }
    buffer.page_down();
    assert!(buffer.is_active());
    assert_eq!(buffer.viewport_position(), 30);
}

#[test]
fn animated_exit_runs_six_lines_a_frame() {
    let mut buffer = ScrollbackBuffer::new();
    for _ in 0..100 {
        buffer.push_line(&line_of(b'm'));
    }
    buffer.scroll_up(20);
    assert!(buffer.start_animated_exit());
    assert!(buffer.is_animating_exit());
    assert!(buffer.animate_exit_frame());
    assert_eq!(buffer.viewport_position(), 14);
    assert!(buffer.animate_exit_frame());
    assert!(buffer.animate_exit_frame());
    assert_eq!(buffer.viewport_position(), 2);
    assert!(!buffer.animate_exit_frame());
    assert!(!buffer.is_active());
    assert!(!buffer.is_animating_exit());
}

#[test]
fn scroll_up_cancels_animation_and_continues() {
    let mut buffer = ScrollbackBuffer::new();
    for _ in 0..100 {
        buffer.push_line(&line_of(b'm'));
    }
    buffer.scroll_up(20);
    buffer.start_animated_exit();
    buffer.animate_exit_frame();
    buffer.scroll_up(5);
    assert!(!buffer.is_animating_exit());
    assert!(buffer.is_active());
    assert_eq!(buffer.viewport_position(), 19);
}

#[test]
fn toggle_parks_animation_in_keyboard_mode() {
    let mut buffer = ScrollbackBuffer::new();
    for _ in 0..100 {
        buffer.push_line(&line_of(b'm'));
    }
    buffer.scroll_up(20);
    buffer.start_animated_exit();
    buffer.animate_exit_frame();
    buffer.toggle_scrollback();
    assert!(!buffer.is_animating_exit());
    assert!(buffer.keyboard_entry());
    assert_eq!(buffer.viewport_position(), 100 - 14);
}

#[test]
fn viewer_mode_hides_indicators_and_starts_at_top() {
    let mut buffer = ScrollbackBuffer::new();
    assert!(!buffer.should_show_indicators());
    buffer.enter_viewer_mode();
    assert!(!buffer.is_active());
    buffer.push_line(&line_of(b'v'));
    buffer.enter_viewer_mode();
    assert!(buffer.is_active());
    assert!(buffer.is_viewer_mode());
    assert!(!buffer.should_show_indicators());
    assert_eq!(buffer.viewport_position(), 0);
    buffer.scroll_down(1000);
    assert!(buffer.is_active());
    buffer.exit_scrollback();
    assert!(!buffer.is_viewer_mode());
}

#[test]
fn display_line_past_last_row_is_none() {
    let buffer = ScrollbackBuffer::new();
    let screen = Screen::new();
    assert!(buffer.get_display_line(25, &screen).is_none());
    assert!(buffer.get_display_line(24, &screen).is_some());
}

#[test]
fn entering_needs_history() {
    let mut buffer = ScrollbackBuffer::default();
    buffer.enter_scrollback();
    assert!(!buffer.is_active());
    buffer.enter_scrollback_keyboard();
    assert!(!buffer.is_active());
    buffer.scroll_up(3);
    assert!(!buffer.is_active());
}
