use swim::editor::{KeyEvent, SwimInterface};
use swim::layout::{BUFFER_HEIGHT, BUFFER_WIDTH};
use swim::render::{Color, Plot, Style};

fn st(fg: Color, bg: Color) -> Style {
    Style { fg, bg }
}

fn p(ch: char, x: usize, y: usize, style: Style) -> Plot {
    Plot { ch, x, y, style }
}

fn names(list: &[&str]) -> Vec<Vec<char>> {
    list.iter().map(|s| s.chars().collect()).collect()
}

#[test]
fn empty_listing_frame_size() {
    let mut e = SwimInterface::default();
    let frame = e.tick(&Vec::new());
    // per window: border 90, header 2, body 396
    assert_eq!(frame.len(), 4 * 488 + 2);
}

#[test]
fn frame_stays_on_screen() {
    let mut e = SwimInterface::default();
    e.key(KeyEvent::WindowSelect(4), 0);
    for _ in 0..30 {
        e.key(KeyEvent::Down, 0);
    }
    let long = names(&["a_very_long_name", "b", "c", "d", "e", "f", "g", "h", "i", "j",
        "k", "l", "m", "n", "o", "p", "q", "r", "s", "t", "u", "v", "w", "x", "y", "z",
        "aa", "bb", "cc"]);
    let frame = e.tick(&long);
    for q in &frame {
        assert!(q.x < BUFFER_WIDTH && q.y < BUFFER_HEIGHT);
    }
}

#[test]
fn border_and_header_of_first_window() {
    let mut e = SwimInterface::default();
    let frame = e.tick(&Vec::new());
    let pink = st(Color::Pink, Color::Black);
    let white = st(Color::White, Color::Black);
    assert_eq!(frame[0], p('.', 0, 0, pink));
    assert_eq!(frame[33], p('.', 0, 11, pink));
    assert_eq!(frame[66], p('.', 0, 0, pink));
    assert_eq!(frame[89], p('.', 32, 11, pink));
    assert_eq!(frame[90], p('F', 15, 0, white));
    assert_eq!(frame[91], p('1', 16, 0, white));
    // the second window is not active
    assert_eq!(frame[488], p('.', 33, 0, white));
    assert_eq!(frame[488 + 91], p('2', 49, 0, white));
}

#[test]
fn body_shows_visible_rows() {
    let mut e = SwimInterface::default();
    e.key(KeyEvent::Char('q'), 0);
    let frame = e.tick(&Vec::new());
    let cyan = st(Color::Cyan, Color::Black);
    assert_eq!(frame[92], p('q', 0, 0, cyan));
    assert_eq!(frame[93], p(' ', 1, 0, cyan));
    assert_eq!(frame[92 + 33], p(' ', 0, 1, cyan));
}

#[test]
fn body_follows_scroll() {
    let mut e = SwimInterface::default();
    for _ in 0..12 {
        e.key(KeyEvent::Char('\n'), 0);
    }
    e.key(KeyEvent::Char('w'), 0);
    let frame = e.tick(&Vec::new());
    let cyan = st(Color::Cyan, Color::Black);
    // row 12 is the last visible row once the view scrolled by one
    assert_eq!(frame[92 + 11 * 33], p('w', 0, 11, cyan));
    let n = frame.len();
    assert_eq!(frame[n - 1], p('_', 1, 11, st(Color::Yellow, Color::Black)));
}

#[test]
fn strip_lists_entries_and_highlights_selection() {
    let mut e = SwimInterface::default();
    e.key(KeyEvent::Right, 4);
    let entries = names(&["hello", "nums", "average", "pi"]);
    let frame = e.tick(&entries);
    let hi = st(Color::Black, Color::White);
    let cyan = st(Color::Cyan, Color::Black);
    // window 0: border, header, body, then the strip
    let start = 90 + 2 + 396;
    assert_eq!(frame[start], p('h', 0, 1, cyan));
    assert_eq!(frame[start + 4], p('o', 4, 1, cyan));
    assert_eq!(frame[start + 5], p('n', 0, 2, hi));
    assert_eq!(frame[start + 8], p('s', 3, 2, hi));
    assert_eq!(frame[start + 9], p('a', 0, 3, cyan));
    assert_eq!(frame[start + 16], p('p', 0, 4, cyan));
    assert_eq!(frame[start + 17], p('i', 1, 4, cyan));
    // window 1 keeps its own selection, entry 0
    let window1 = start + 18;
    assert_eq!(frame[window1 + start], p('h', 33, 1, hi));
    assert_eq!(frame[window1 + start + 5], p('n', 33, 2, cyan));
}

#[test]
fn strip_truncates_names_and_wraps_columns() {
    let mut e = SwimInterface::default();
    let mut list: Vec<String> = vec!["abcdefghijklmnop".to_string()];
    for k in 1..10 {
        list.push(format!("f{}", k));
    }
    let entries: Vec<Vec<char>> = list.iter().map(|s| s.chars().collect()).collect();
    let frame = e.tick(&entries);
    let start = 90 + 2 + 396;
    let hi = st(Color::Black, Color::White);
    let cyan = st(Color::Cyan, Color::Black);
    assert_eq!(frame[start + 9], p('j', 9, 1, hi));
    assert_eq!(frame[start + 10], p('f', 0, 2, cyan));
    // the tenth entry opens the second column of the strip
    let tenth = start + 10 + 8 * 2;
    assert_eq!(frame[tenth], p('f', 11, 1, cyan));
    assert_eq!(frame[tenth + 1], p('9', 12, 1, cyan));
}

#[test]
fn selection_past_listing_highlights_last_entry() {
    let mut e = SwimInterface::default();
    for _ in 0..4 {
        e.key(KeyEvent::Right, 6);
    }
    assert_eq!(e.selected_file(0), 4);
    let entries = names(&["ab", "cd"]);
    let frame = e.tick(&entries);
    let start = 90 + 2 + 396;
    assert_eq!(frame[start], p('a', 0, 1, st(Color::Cyan, Color::Black)));
    assert_eq!(frame[start + 2], p('c', 0, 2, st(Color::Black, Color::White)));
    assert_eq!(e.selected_file(0), 4);
}

#[test]
fn cursor_is_erased_then_redrawn() {
    let mut e = SwimInterface::default();
    let first = e.tick(&Vec::new());
    let n = first.len();
    assert_eq!(first[n - 2], p(' ', 0, 0, st(Color::Black, Color::Black)));
    assert_eq!(first[n - 1], p('_', 0, 0, st(Color::Yellow, Color::Black)));
    e.key(KeyEvent::WindowSelect(4), 0);
    e.key(KeyEvent::Down, 0);
    e.key(KeyEvent::Char('k'), 0);
    let second = e.tick(&Vec::new());
    let n = second.len();
    assert_eq!(second[n - 2], p(' ', 0, 0, st(Color::Black, Color::Black)));
    assert_eq!(second[n - 1], p('_', 34, 13, st(Color::Yellow, Color::Black)));
    assert_eq!(e.prev_cursor_pos(), (34, 13));
    let third = e.tick(&Vec::new());
    assert_eq!(third[third.len() - 2], p(' ', 34, 13, st(Color::Black, Color::Black)));
}
