//! The diagnostic display: printing, attribute cycling, truncation at the
//! right edge, cursor movement, and scrolling.

use e1000_ping::vga::{VgaWriter, SCREEN_HEIGHT, SCREEN_WIDTH};

const PALETTE: [u8; 7] = [0x74, 0x76, 0x7E, 0x72, 0x73, 0x71, 0x75];

fn cell(w: &VgaWriter, row: usize, col: usize) -> (u8, u8) {
    let at = row * SCREEN_WIDTH * 2 + col * 2;
    (w.screen[at], w.screen[at + 1])
}

#[test]
fn new_writer_is_blank_at_top() {
    let w = VgaWriter::new();
    assert_eq!(w.line(), 0);
    assert_eq!(w.screen.len(), SCREEN_WIDTH * SCREEN_HEIGHT * 2);
    for col in 0..SCREEN_WIDTH {
        assert_eq!(cell(&w, 0, col), (b' ', 0x07));
        assert_eq!(cell(&w, SCREEN_HEIGHT - 1, col), (b' ', 0x07));
    }
}

#[test]
fn print_writes_characters_with_cycling_attributes() {
    let mut w = VgaWriter::new();
    w.print(b"Hello");
    assert_eq!(w.line(), 1);
    for (i, &b) in b"Hello".iter().enumerate() {
        assert_eq!(cell(&w, 0, i), (b, PALETTE[i % 7]));
    }
    // The rest of the row is untouched.
    assert_eq!(cell(&w, 0, 5), (b' ', 0x07));
}

#[test]
fn print_truncates_at_screen_width() {
    let mut w = VgaWriter::new();
    let long: Vec<u8> = (0..100).map(|i| b'A' + (i % 26) as u8).collect();
    w.print(&long);
    assert_eq!(w.line(), 1);
    assert_eq!(cell(&w, 0, SCREEN_WIDTH - 1).0, long[SCREEN_WIDTH - 1]);
    // Nothing spills onto the next row.
    assert_eq!(cell(&w, 1, 0), (b' ', 0x07));
}

#[test]
fn line_cursor_moves_and_reads_back() {
    let mut w = VgaWriter::new();
    w.set_line(12);
    assert_eq!(w.line(), 12);
    w.print(b"x");
    assert_eq!(w.line(), 13);
    assert_eq!(cell(&w, 12, 0), (b'x', PALETTE[0]));
}

#[test]
fn scroll_moves_rows_up_and_blanks_last() {
    let mut w = VgaWriter::new();
    w.set_line(1);
    w.print(b"second row");
    w.scroll_screen();
    assert_eq!(w.line(), SCREEN_HEIGHT - 1);
    // Row 1's text moved to row 0.
    for (i, &b) in b"second row".iter().enumerate() {
        assert_eq!(cell(&w, 0, i), (b, PALETTE[i % 7]));
    }
    for col in 0..SCREEN_WIDTH {
        assert_eq!(cell(&w, SCREEN_HEIGHT - 1, col), (b' ', 0x07));
    }
}

#[test]
fn print_on_full_screen_scrolls_first() {
    let mut w = VgaWriter::new();
    for row in 0..SCREEN_HEIGHT {
        w.set_line(row);
        w.print(format!("row {}", row).as_bytes());
    }
    assert_eq!(w.line(), SCREEN_HEIGHT);
    // The next print scrolls: row 1 ("row 1") moves to the top and the new
    // text lands on the last row.
    w.print(b"overflow");
    assert_eq!(w.line(), SCREEN_HEIGHT);
    for (i, &b) in b"row 1".iter().enumerate() {
        assert_eq!(cell(&w, 0, i).0, b);
    }
    for (i, &b) in b"overflow".iter().enumerate() {
        assert_eq!(cell(&w, SCREEN_HEIGHT - 1, i), (b, PALETTE[i % 7]));
    }
}
