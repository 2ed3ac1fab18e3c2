use swim::editor::{KeyEvent, SwimInterface};
use swim::kernel::{cpu_loop, key, tick};
use swim::mailbox::Mailbox;
use swim::render::{Color, Plot, Style};

#[test]
fn new_mailbox_is_empty() {
    let mut m = Mailbox::new();
    assert_eq!(m.take_key(), None);
    assert!(!m.take_tick());
}

#[test]
fn later_key_overwrites_earlier() {
    let mut m = Mailbox::new();
    m.post_key(KeyEvent::Char('a'));
    m.post_key(KeyEvent::Char('b'));
    assert_eq!(m.take_key(), Some(KeyEvent::Char('b')));
    assert_eq!(m.take_key(), None);
}

#[test]
fn key_taken_exactly_once() {
    let mut m = Mailbox::new();
    m.post_key(KeyEvent::Up);
    assert_eq!(m.take_key(), Some(KeyEvent::Up));
    assert_eq!(m.take_key(), None);
    m.post_key(KeyEvent::Down);
    assert_eq!(m.take_key(), Some(KeyEvent::Down));
}

#[test]
fn ticks_collapse_into_one() {
    let mut m = Mailbox::new();
    m.post_tick();
    m.post_tick();
    assert!(m.take_tick());
    assert!(!m.take_tick());
}

#[test]
fn key_and_tick_slots_are_independent() {
    let mut m = Mailbox::new();
    m.post_tick();
    m.post_key(KeyEvent::Left);
    assert!(m.take_tick());
    assert_eq!(m.take_key(), Some(KeyEvent::Left));
    m.post_key(KeyEvent::Right);
    assert!(!m.take_tick());
    assert_eq!(m.take_key(), Some(KeyEvent::Right));
}

#[test]
fn handlers_post_to_the_mailbox() {
    let mut m = Mailbox::new();
    key(&mut m, KeyEvent::Backspace);
    tick(&mut m);
    assert_eq!(m.take_key(), Some(KeyEvent::Backspace));
    assert!(m.take_tick());
}

#[test]
fn loop_pass_without_tick_applies_key_only() {
    let mut m = Mailbox::new();
    let mut e = SwimInterface::default();
    key(&mut m, KeyEvent::Char('z'));
    assert!(cpu_loop(&mut m, &mut e, &Vec::new()).is_none());
    assert_eq!(e.document(0).glyph(0, 0), 'z');
    assert_eq!(m.take_key(), None);
    assert!(cpu_loop(&mut m, &mut e, &Vec::new()).is_none());
    assert_eq!(e.document(0).col(), 1);
}

#[test]
fn loop_pass_renders_key_in_same_frame() {
    let mut m = Mailbox::new();
    let mut e = SwimInterface::default();
    key(&mut m, KeyEvent::Char('z'));
    tick(&mut m);
    let frame = cpu_loop(&mut m, &mut e, &Vec::new()).unwrap();
    let cyan = Style { fg: Color::Cyan, bg: Color::Black };
    assert!(frame.contains(&Plot { ch: 'z', x: 0, y: 0, style: cyan }));
    assert_eq!(
        frame[frame.len() - 1],
        Plot { ch: '_', x: 1, y: 0, style: Style { fg: Color::Yellow, bg: Color::Black } }
    );
    assert_eq!(e.prev_cursor_pos(), (1, 0));
    assert!(!m.take_tick());
}

#[test]
fn loop_pass_uses_listing_size_for_selection() {
    let mut m = Mailbox::new();
    let mut e = SwimInterface::default();
    let entries = vec![vec!['a'], vec!['b'], vec!['c']];
    key(&mut m, KeyEvent::Left);
    cpu_loop(&mut m, &mut e, &entries);
    assert_eq!(e.selected_file(0), 2);
}
