use webterm::pacing::{bytes_per_frame, Pacer};
use webterm::terminal::Terminal;

fn frames(total: usize, bps: u32) -> (usize, usize) {
    let mut pacer = Pacer::new(total, bps);
    let mut count = 0;
    let mut processed = 0;
    let mut expected_start = 0;
    while let Some((start, end)) = pacer.next_chunk() {
        assert_eq!(start, expected_start);
        assert!(end > start);
        processed += end - start;
        expected_start = end;
        count += 1;
    }
    assert!(pacer.is_done());
    (count, processed)
}

#[test]
fn bps_pacing_frame_count() {
    assert_eq!(bytes_per_frame(9600), 40);
    for n in [0usize, 1, 39, 40, 41, 1000, 1001, 12345] {
        let (count, processed) = frames(n, 9600);
        assert_eq!(count, (n + 39) / 40);
        assert_eq!(processed, n);
    }
}

#[test]
fn slow_lines_send_at_least_a_byte_a_frame() {
    assert_eq!(bytes_per_frame(0), 1);
    assert_eq!(bytes_per_frame(300), 1);
    assert_eq!(bytes_per_frame(480), 2);
    assert_eq!(bytes_per_frame(2400), 10);
    assert_eq!(frames(7, 300), (7, 7));
}

#[test]
fn paced_and_instant_feeds_agree() {
    let content: Vec<u8> = b"\x1b[2J\x1b[1;31mHello\r\n".iter().cycle().take(3000).cloned().collect();
    let mut paced = Terminal::new();
    let mut pacer = Pacer::new(content.len(), 2400);
    while let Some((start, end)) = pacer.next_chunk() {
        paced.process_bytes(&content[start..end]);
    }
    let mut instant = Terminal::new();
    instant.process_bytes(&content);
    assert_eq!(paced.scrollback.history_len(), instant.scrollback.history_len());
    assert_eq!(paced.screen.cursor_pos(), instant.screen.cursor_pos());
    for y in 0..25 {
        assert_eq!(paced.screen.get_line(y), instant.screen.get_line(y));
    }
}
