use swim::document::{is_drawable, Document};
use swim::layout::{window_position, DOC_HEIGHT, WINDOW_HEIGHT, WINDOW_WIDTH};

#[test]
fn geometry_constants() {
    assert_eq!(WINDOW_WIDTH, 33);
    assert_eq!(WINDOW_HEIGHT, 12);
    assert_eq!(DOC_HEIGHT, 48);
}

#[test]
fn window_positions_form_a_two_by_two_grid() {
    assert_eq!(window_position(0), (0, 0));
    assert_eq!(window_position(1), (33, 0));
    assert_eq!(window_position(2), (0, 12));
    assert_eq!(window_position(3), (33, 12));
}

#[test]
fn drawable_characters() {
    assert!(is_drawable(' '));
    assert!(is_drawable('a'));
    assert!(is_drawable('~'));
    assert!(!is_drawable('\n'));
    assert!(!is_drawable('\u{7f}'));
    assert!(!is_drawable('\u{1f}'));
    // only the low byte of the code point counts
    assert!(is_drawable('\u{141}'));
}

#[test]
fn new_document_is_blank() {
    let d = Document::default();
    assert_eq!((d.col(), d.row(), d.scroll()), (0, 0, 0));
    for r in 0..DOC_HEIGHT {
        for c in 0..WINDOW_WIDTH {
            assert_eq!(d.glyph(r, c), ' ');
        }
    }
}

#[test]
fn typing_advances_the_cursor() {
    let mut d = Document::default();
    d.type_char('h');
    d.type_char('i');
    assert_eq!(d.glyph(0, 0), 'h');
    assert_eq!(d.glyph(0, 1), 'i');
    assert_eq!(d.col(), 2);
    assert_eq!(d.row(), 0);
}

#[test]
fn typing_a_full_row_then_one_more() {
    let mut d = Document::default();
    d.enter_key();
    let chars: Vec<char> = (0..WINDOW_WIDTH).map(|i| (b'a' + (i % 26) as u8) as char).collect();
    for &c in &chars {
        d.type_char(c);
    }
    for (j, &c) in chars.iter().enumerate() {
        assert_eq!(d.glyph(1, j), c);
    }
    assert_eq!(d.col(), WINDOW_WIDTH - 1);
    d.type_char('Z');
    for j in 0..WINDOW_WIDTH - 1 {
        assert_eq!(d.glyph(1, j), chars[j]);
    }
    assert_eq!(d.glyph(1, WINDOW_WIDTH - 1), 'Z');
    assert_eq!(d.col(), WINDOW_WIDTH - 1);
    assert_eq!(d.row(), 1);
    for c in 0..WINDOW_WIDTH {
        assert_eq!(d.glyph(0, c), ' ');
        assert_eq!(d.glyph(2, c), ' ');
    }
}

#[test]
fn enter_goes_to_next_row_start() {
    let mut d = Document::default();
    d.type_char('x');
    d.enter_key();
    assert_eq!((d.col(), d.row(), d.scroll()), (0, 1, 0));
}

#[test]
fn enter_scrolls_one_row_past_the_window() {
    let mut d = Document::default();
    for _ in 0..WINDOW_HEIGHT - 1 {
        d.enter_key();
    }
    assert_eq!((d.row(), d.scroll()), (WINDOW_HEIGHT - 1, 0));
    d.enter_key();
    assert_eq!((d.row(), d.scroll()), (WINDOW_HEIGHT, 1));
    d.enter_key();
    assert_eq!((d.row(), d.scroll()), (WINDOW_HEIGHT + 1, 2));
}

#[test]
fn enter_stops_on_the_last_row() {
    let mut d = Document::default();
    for _ in 0..DOC_HEIGHT + 5 {
        d.enter_key();
    }
    assert_eq!(d.row(), DOC_HEIGHT - 1);
    assert_eq!(d.scroll(), DOC_HEIGHT - WINDOW_HEIGHT);
}

#[test]
fn backspace_after_enter_goes_to_row_above() {
    let mut d = Document::default();
    d.type_char('a');
    d.enter_key();
    d.enter_key();
    d.enter_key();
    assert_eq!((d.col(), d.row()), (0, 3));
    d.backspace_key();
    assert_eq!((d.col(), d.row()), (WINDOW_WIDTH - 1, 2));
    assert_eq!(d.glyph(2, WINDOW_WIDTH - 1), ' ');
    assert_eq!(d.glyph(0, 0), 'a');
}

#[test]
fn backspace_blanks_previous_cell() {
    let mut d = Document::default();
    d.type_char('a');
    d.type_char('b');
    d.backspace_key();
    assert_eq!(d.col(), 1);
    assert_eq!(d.glyph(0, 1), ' ');
    assert_eq!(d.glyph(0, 0), 'a');
}

#[test]
fn backspace_at_origin_only_clears_the_cell() {
    let mut d = Document::default();
    d.type_char('q');
    d.move_cursor(-1, 0);
    assert_eq!(d.glyph(0, 0), 'q');
    d.backspace_key();
    assert_eq!((d.col(), d.row(), d.scroll()), (0, 0, 0));
    assert_eq!(d.glyph(0, 0), ' ');
}

#[test]
fn backspace_keeps_cursor_on_screen() {
    let mut d = Document::default();
    for _ in 0..WINDOW_HEIGHT {
        d.enter_key();
    }
    assert_eq!((d.row(), d.scroll()), (WINDOW_HEIGHT, 1));
    d.move_cursor(0, -1);
    assert_eq!((d.row(), d.scroll()), (WINDOW_HEIGHT - 1, 1));
    for _ in 0..WINDOW_HEIGHT - 2 {
        d.move_cursor(0, -1);
    }
    assert_eq!((d.col(), d.row(), d.scroll()), (0, 1, 1));
    d.backspace_key();
    assert_eq!((d.col(), d.row(), d.scroll()), (WINDOW_WIDTH - 1, 0, 0));
}

#[test]
fn horizontal_moves_clamp() {
    let mut d = Document::default();
    d.move_cursor(-1, 0);
    assert_eq!(d.col(), 0);
    for _ in 0..WINDOW_WIDTH + 3 {
        d.move_cursor(1, 0);
    }
    assert_eq!(d.col(), WINDOW_WIDTH - 1);
}

#[test]
fn left_at_first_column_keeps_row() {
    let mut d = Document::default();
    d.move_cursor(0, 1);
    d.move_cursor(0, 1);
    d.move_cursor(-1, 0);
    assert_eq!((d.col(), d.row()), (0, 2));
}

#[test]
fn up_at_top_row_keeps_scroll() {
    let mut d = Document::default();
    d.move_cursor(0, -1);
    assert_eq!((d.row(), d.scroll()), (0, 0));
}

#[test]
fn vertical_moves_keep_cursor_on_screen() {
    let mut d = Document::default();
    let moves: [(isize, isize); 6] = [(0, 1), (0, 1), (1, 0), (0, -1), (-1, 0), (0, 1)];
    for step in 0..200 {
        let (dx, dy) = if step < 100 { (0, 1) } else { moves[step % 6] };
        d.move_cursor(dx, dy);
        assert!(d.scroll() <= d.row());
        assert!(d.row() < d.scroll() + WINDOW_HEIGHT);
        assert!(d.row() < DOC_HEIGHT);
        assert!(d.col() < WINDOW_WIDTH);
    }
    assert!(d.scroll() <= DOC_HEIGHT - WINDOW_HEIGHT);
    for _ in 0..DOC_HEIGHT {
        d.move_cursor(0, -1);
    }
    assert_eq!((d.row(), d.scroll()), (0, 0));
}

#[test]
fn moving_down_scrolls_one_row_at_a_time() {
    let mut d = Document::default();
    for _ in 0..WINDOW_HEIGHT - 1 {
        d.move_cursor(0, 1);
    }
    assert_eq!(d.scroll(), 0);
    d.move_cursor(0, 1);
    assert_eq!((d.row(), d.scroll()), (WINDOW_HEIGHT, 1));
    for _ in 0..DOC_HEIGHT {
        d.move_cursor(0, 1);
    }
    assert_eq!((d.row(), d.scroll()), (DOC_HEIGHT - 1, DOC_HEIGHT - WINDOW_HEIGHT));
}
