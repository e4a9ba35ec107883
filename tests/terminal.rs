use webterm::parser::{AnsiParser, ParseAction};
use webterm::screen::{Cell, Screen};
use webterm::scrollback::ScrollbackBuffer;
use webterm::terminal::Terminal;

fn cell(t: &Terminal, x: usize, y: usize) -> Cell {
    *t.screen.get_cell(x, y).unwrap()
}

fn packed_row(screen: &Screen, y: usize) -> Vec<u8> {
    let mut out = Vec::new();
    for c in screen.get_line(y).unwrap() {
        out.extend_from_slice(&ScrollbackBuffer::cell_to_cga(&c));
    }
    out
}

/// History line `i`, read through viewer mode.
fn history_line(t: &mut Terminal, i: usize) -> Vec<u8> {
    t.scrollback.enter_viewer_mode();
    t.scrollback.scroll_down(i);
    let line = t.scrollback.get_display_line(0, &t.screen).unwrap().to_vec();
    t.scrollback.exit_scrollback();
    line
}

#[test]
fn sgr_reset_and_color() {
    let mut t = Terminal::new();
    t.process_bytes(b"\x1b[31;44mX");
    assert_eq!(cell(&t, 0, 0), Cell { ch: b'X', fg: 1, bg: 4 });
    assert_eq!(t.screen.cursor_pos(), (1, 0));
}

#[test]
fn bold_bright() {
    let mut t = Terminal::new();
    t.process_bytes(b"\x1b[1;32mA");
    assert_eq!(cell(&t, 0, 0), Cell { ch: b'A', fg: 10, bg: 0 });
}

#[test]
fn reverse_video() {
    let mut t = Terminal::new();
    t.process_bytes(b"\x1b[31;43;7mZ");
    assert_eq!(cell(&t, 0, 0), Cell { ch: b'Z', fg: 3, bg: 1 });
}

#[test]
fn blink_brightens_background() {
    let mut t = Terminal::new();
    t.process_bytes(b"\x1b[5;41mB\x1b[0mC\x1b[mD\x1b[95;103mE\x1b[99;33mF");
    assert_eq!(cell(&t, 0, 0), Cell { ch: b'B', fg: 7, bg: 9 });
    assert_eq!(cell(&t, 1, 0), Cell { ch: b'C', fg: 7, bg: 0 });
    assert_eq!(cell(&t, 2, 0), Cell { ch: b'D', fg: 7, bg: 0 });
    assert_eq!(cell(&t, 3, 0), Cell { ch: b'E', fg: 13, bg: 11 });
    assert_eq!(cell(&t, 4, 0), Cell { ch: b'F', fg: 3, bg: 11 });
}

#[test]
fn bottom_line_newline_captures_row_zero() {
    let mut t = Terminal::new();
    t.process_bytes(b"TOP LINE");
    t.process_bytes(b"\x1b[25;1H");
    assert_eq!(t.screen.cursor_pos(), (0, 24));
    t.process_bytes(&[b'x'; 79]);
    assert_eq!(t.scrollback.history_len(), 0);
    let row0 = packed_row(&t.screen, 0);
    t.process_bytes(b"\n");
    assert_eq!(t.scrollback.history_len(), 1);
    assert_eq!(history_line(&mut t, 0), row0);
    assert_eq!(t.screen.cursor_pos(), (0, 24));
}

#[test]
fn bottom_line_eightieth_printable_scrolls_before_the_newline() {
    let mut t = Terminal::new();
    t.process_bytes(b"FIRST");
    t.process_bytes(b"\x1b[25;1H");
    let row0 = packed_row(&t.screen, 0);
    t.process_bytes(&[b'y'; 80]);
    // the 80th printable in the last column already scrolls
    assert_eq!(t.scrollback.history_len(), 1);
    assert_eq!(history_line(&mut t, 0), row0);
    let row0_before_newline = packed_row(&t.screen, 0);
    t.process_bytes(b"\n");
    assert_eq!(t.scrollback.history_len(), 2);
    assert_eq!(history_line(&mut t, 1), row0_before_newline);
    // two scrolls: the full row of 'y' has moved up to row 22
    assert_eq!(cell(&t, 79, 22).ch, b'y');
    assert_eq!(cell(&t, 79, 23).ch, b' ');
}

#[test]
fn csi_2j_captures_full_screen() {
    let mut t = Terminal::new();
    t.process_bytes(b"ABC");
    let rows: Vec<Vec<u8>> = (0..25).map(|y| packed_row(&t.screen, y)).collect();
    t.process_bytes(b"\x1b[2J");
    assert_eq!(t.scrollback.history_len(), 25);
    let first = history_line(&mut t, 0);
    assert_eq!(&first[0..6], &[b'A', 0x07, b'B', 0x07, b'C', 0x07]);
    for (i, row) in rows.iter().enumerate() {
        assert_eq!(&history_line(&mut t, i), row);
    }
    for y in 0..25 {
        for x in 0..80 {
            assert_eq!(cell(&t, x, y), Cell { ch: b' ', fg: 7, bg: 0 });
        }
    }
    assert_eq!(t.screen.cursor_pos(), (0, 0));
}

#[test]
fn csi_2j_clears_with_current_background() {
    let mut t = Terminal::new();
    t.process_bytes(b"\x1b[44m\x1b[2J");
    assert_eq!(cell(&t, 40, 12), Cell { ch: b' ', fg: 7, bg: 4 });
    t.process_bytes(b"\x1b[0;5;42m\x1b[2J");
    assert_eq!(cell(&t, 0, 0), Cell { ch: b' ', fg: 7, bg: 10 });
}

#[test]
fn other_erase_modes_change_nothing() {
    let mut t = Terminal::new();
    t.process_bytes(b"ABC\x1b[J\x1b[1J\x1b[K\x1b[2K");
    assert_eq!(cell(&t, 0, 0).ch, b'A');
    assert_eq!(t.scrollback.history_len(), 0);
    assert_eq!(t.screen.cursor_pos(), (3, 0));
}

#[test]
fn cursor_moves_clamp_into_the_screen() {
    let mut t = Terminal::new();
    t.process_bytes(b"\x1b[10;20H");
    assert_eq!(t.screen.cursor_pos(), (19, 9));
    t.process_bytes(b"\x1b[3A");
    assert_eq!(t.screen.cursor_pos(), (19, 6));
    t.process_bytes(b"\x1b[100A");
    assert_eq!(t.screen.cursor_pos(), (19, 0));
    t.process_bytes(b"\x1b[B");
    assert_eq!(t.screen.cursor_pos(), (19, 1));
    t.process_bytes(b"\x1b[999B");
    assert_eq!(t.screen.cursor_pos(), (19, 24));
    t.process_bytes(b"\x1b[5C");
    assert_eq!(t.screen.cursor_pos(), (24, 24));
    t.process_bytes(b"\x1b[4294967295C");
    assert_eq!(t.screen.cursor_pos(), (79, 24));
    t.process_bytes(b"\x1b[D");
    assert_eq!(t.screen.cursor_pos(), (78, 24));
    t.process_bytes(b"\x1b[200D");
    assert_eq!(t.screen.cursor_pos(), (0, 24));
    t.process_bytes(b"\x1b[999;999f");
    assert_eq!(t.screen.cursor_pos(), (79, 24));
    t.process_bytes(b"\x1b[H");
    assert_eq!(t.screen.cursor_pos(), (0, 0));
    t.process_bytes(b"\x1b[0;0H");
    assert_eq!(t.screen.cursor_pos(), (0, 0));
}

#[test]
fn cursor_stays_in_bounds_for_any_bytes() {
    let mut t = Terminal::with_scrollback_lines(7);
    let mut seed: u32 = 12345;
    for _ in 0..20000 {
        seed = seed.wrapping_mul(1103515245).wrapping_add(12345);
        let b = (seed >> 16) as u8;
        t.process_byte(b);
        let (x, y) = t.screen.cursor_pos();
        assert!(x < 80 && y < 25);
        assert!(t.scrollback.history_len() <= 7);
    }
}

#[test]
fn carriage_return_and_unknown_escapes() {
    let mut t = Terminal::new();
    t.process_bytes(b"abc\rX");
    assert_eq!(cell(&t, 0, 0).ch, b'X');
    assert_eq!(t.screen.cursor_pos(), (1, 0));
    t.process_bytes(b"\x1bZq\x07\x1b[5z!");
    assert_eq!(cell(&t, 1, 0).ch, b'q');
    assert_eq!(cell(&t, 2, 0).ch, b'!');
}

#[test]
fn overflowing_parameter_is_dropped() {
    let mut t = Terminal::new();
    // 99999999999 does not fit in 32 bits: only 5 remains, the row
    t.process_bytes(b"\x1b[5;99999999999H");
    assert_eq!(t.screen.cursor_pos(), (0, 4));
}

#[test]
fn parser_reports_actions() {
    let mut p = AnsiParser::new();
    let mut s = Screen::new();
    assert!(p.is_in_normal_state());
    for &b in b"\x1b[2" {
        assert_eq!(p.process_byte(b, &mut s), ParseAction::Nothing);
    }
    assert!(!p.is_in_normal_state());
    assert!(p.will_clear_screen(b'J'));
    assert!(!p.will_clear_screen(b'H'));
    assert_eq!(p.process_byte(b'J', &mut s), ParseAction::ScreenCleared);
    assert!(p.is_in_normal_state());
    s.set_cursor(0, 24);
    assert_eq!(p.process_byte(b'\n', &mut s), ParseAction::LineScrolled);
    s.set_cursor(79, 24);
    assert_eq!(p.process_byte(b'a', &mut s), ParseAction::LineScrolled);
    assert_eq!(s.cursor_pos(), (0, 24));
}

#[test]
fn will_clear_screen_reads_the_parameter_on_the_wire() {
    let mut p = AnsiParser::new();
    let mut s = Screen::new();
    for &b in b"\x1b[2;" {
        p.process_byte(b, &mut s);
    }
    assert!(p.will_clear_screen(b'J'));
    let mut q = AnsiParser::new();
    for &b in b"\x1b[" {
        q.process_byte(b, &mut s);
    }
    assert!(!q.will_clear_screen(b'J'));
    assert!(!AnsiParser::new().will_clear_screen(b'J'));
}

#[test]
fn screen_scroll_up_shifts_rows() {
    let mut s = Screen::new();
    s.set_cell(3, 1, Cell { ch: b'q', fg: 1, bg: 2 });
    s.set_cell(5, 0, Cell { ch: b'z', fg: 1, bg: 2 });
    s.set_cell(80, 0, Cell { ch: b'!', fg: 1, bg: 2 });
    s.scroll_up();
    assert_eq!(*s.get_cell(3, 0).unwrap(), Cell { ch: b'q', fg: 1, bg: 2 });
    assert_eq!(*s.get_cell(5, 0).unwrap(), Cell::default());
    assert_eq!(*s.get_cell(3, 24).unwrap(), Cell { ch: b' ', fg: 7, bg: 0 });
    assert!(s.get_cell(80, 0).is_none());
    assert!(s.get_cell(0, 25).is_none());
    assert_eq!(s.dimensions(), (80, 25));
    s.clear();
    assert_eq!(*s.get_cell(3, 0).unwrap(), Cell::default());
}

#[test]
fn mouse_scroll_and_auto_exit() {
    let mut t = Terminal::new();
    for _ in 0..50 {
        t.scrollback.push_line(&vec![Cell::default(); 80]);
    }
    assert!(t.handle_wheel(-120));
    assert!(t.scrollback.is_active());
    assert!(!t.scrollback.keyboard_entry());
    assert_eq!(t.scrollback.viewport_position(), 3);
    assert!(t.handle_wheel(120));
    assert!(!t.scrollback.is_active());
    assert_eq!(t.scrollback.viewport_position(), 0);
}

#[test]
fn wheel_line_counts_and_consumption() {
    let mut t = Terminal::new();
    for _ in 0..50 {
        t.scrollback.push_line(&vec![Cell::default(); 80]);
    }
    assert!(!t.handle_wheel(0));
    assert!(!t.handle_wheel(100));
    assert!(t.handle_wheel(-1));
    assert_eq!(t.scrollback.viewport_position(), 1);
    assert!(t.handle_wheel(-40));
    assert_eq!(t.scrollback.viewport_position(), 2);
    assert!(t.handle_wheel(-41));
    assert_eq!(t.scrollback.viewport_position(), 4);
    assert!(t.handle_wheel(0));
    assert!(t.handle_wheel(-100000));
    assert_eq!(t.scrollback.viewport_position(), 50);
    assert!(t.handle_wheel(i32::MIN));
    assert_eq!(t.scrollback.viewport_position(), 50);
    assert!(t.handle_wheel(80));
    assert_eq!(t.scrollback.viewport_position(), 48);
}

#[test]
fn keyboard_scroll_no_auto_exit() {
    let mut t = Terminal::new();
    for _ in 0..60 {
        t.process_bytes(b"line\r\n");
    }
    let len = t.scrollback.history_len();
    assert!(len > 0);
    assert!(t.handle_key("k", true));
    assert!(t.scrollback.is_active());
    assert!(t.scrollback.keyboard_entry());
    assert_eq!(t.scrollback.viewport_position(), len);
    assert!(t.handle_key("ArrowUp", false));
    assert!(t.handle_key("PageUp", false));
    assert_eq!(t.scrollback.viewport_position(), len - 26);
    for _ in 0..100 {
        assert!(t.handle_key("ArrowDown", false));
        assert!(t.scrollback.is_active());
    }
    assert!(t.handle_key("PageDown", false));
    assert!(t.scrollback.is_active());
    assert!(t.handle_key("x", false));
    assert!(t.scrollback.is_active());
    // at the live screen, Escape exits at once
    assert!(t.handle_key("Escape", false));
    assert!(!t.scrollback.is_active());
    assert!(!t.handle_key("x", false));
}

#[test]
fn escape_and_alt_k_start_the_animated_exit() {
    let mut t = Terminal::new();
    for _ in 0..60 {
        t.process_bytes(b"line\r\n");
    }
    assert!(t.handle_key("K", true));
    t.handle_key("PageUp", false);
    assert!(t.handle_key("Escape", false));
    assert!(t.scrollback.is_animating_exit());
    assert_eq!(t.scrollback.viewport_position(), 25);
    assert!(t.handle_key("k", true));
    assert!(!t.scrollback.is_animating_exit());
    assert!(t.scrollback.keyboard_entry());
    assert!(t.handle_key("k", true));
    assert!(t.scrollback.is_animating_exit());
    while t.scrollback.animate_exit_frame() {}
    assert!(!t.scrollback.is_active());
}

#[test]
fn click_exits_only_while_active() {
    let mut t = Terminal::default();
    assert!(!t.handle_click());
    for _ in 0..30 {
        t.process_bytes(b"\n");
    }
    t.handle_wheel(-400);
    assert!(t.handle_click());
    assert!(t.scrollback.is_animating_exit());
}

#[test]
fn clear_with_digits_after_a_stored_parameter_is_not_anticipated() {
    // ESC [ 2 ; 5 J: the parameter on the wire is 5, so nothing is saved,
    // but the first stored parameter, 2, clears the screen
    let mut t = Terminal::new();
    t.process_bytes(b"ABC\x1b[2;5J");
    assert_eq!(t.scrollback.history_len(), 0);
    assert_eq!(cell(&t, 0, 0).ch, b' ');
    // ESC [ 5 ; 2 J: saved on the strength of the 2 on the wire, not cleared
    let mut u = Terminal::new();
    u.process_bytes(b"ABC\x1b[5;2J");
    assert_eq!(u.scrollback.history_len(), 25);
    assert_eq!(cell(&u, 0, 0).ch, b'A');
}
