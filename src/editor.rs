//! The editor: four documents, the window that has the keyboard, and each
//! window's highlighted directory entry; key events are dispatched here.
use vstd::prelude::*;
use crate::document::{drawable, is_drawable, lemma_edit_keeps_inv, DocState, Document, Edit};
use crate::layout::{BUFFER_HEIGHT, BUFFER_WIDTH, NUM_WINDOWS};

verus! {

/// A decoded key press.
#[derive(Clone, Copy, PartialEq, Eq, Debug)]
pub enum KeyEvent {
    /// Function key `n` (F1 is 1); F1 to F4 select a window.
    WindowSelect(u8),
    Backspace,
    Up,
    Down,
    Left,
    Right,
    /// A character produced by the keyboard, `'\n'` for Enter.
    Char(char),
    /// Any other key; it is ignored.
    Other,
}

/// Abstract state of the editor.
pub struct EditorState {
    pub docs: Seq<DocState>,
    /// Index of the window that receives keys.
    pub active: int,
    /// Highlighted directory entry of each window.
    pub selected: Seq<int>,
    /// Screen position where the cursor glyph was last painted.
    pub prev_cursor: (int, int),
}

/// The entry before `s` in a listing of `n` entries, cycling; unchanged when
/// the listing is empty.
pub open spec fn select_left(s: int, n: int) -> int {
    if n > 0 {
        if s % n == 0 {
            n - 1
        } else {
            s % n - 1
        }
    } else {
        s
    }
}

/// The entry after `s` in a listing of `n` entries, cycling; unchanged when
/// the listing is empty.
pub open spec fn select_right(s: int, n: int) -> int {
    if n > 0 {
        (s % n + 1) % n
    } else {
        s
    }
}

impl EditorState {
    pub open spec fn inv(self) -> bool {
        &&& self.docs.len() == NUM_WINDOWS
        &&& forall|i: int| 0 <= i < NUM_WINDOWS ==> (#[trigger] self.docs[i]).inv()
        &&& 0 <= self.active < NUM_WINDOWS
        &&& self.selected.len() == NUM_WINDOWS
        &&& forall|i: int| 0 <= i < NUM_WINDOWS ==> 0 <= #[trigger] self.selected[i] <= usize::MAX
        &&& 0 <= self.prev_cursor.0 < BUFFER_WIDTH
        &&& 0 <= self.prev_cursor.1 < BUFFER_HEIGHT
    }

    pub open spec fn initial() -> EditorState {
        EditorState {
            docs: Seq::new(NUM_WINDOWS as nat, |i: int| DocState::blank()),
            active: 0,
            selected: Seq::new(NUM_WINDOWS as nat, |i: int| 0),
            prev_cursor: (0, 0),
        }
    }

    pub open spec fn active_doc(self) -> DocState {
        self.docs[self.active]
    }

    /// The state with the active document replaced by `d`.
    pub open spec fn with_doc(self, d: DocState) -> EditorState {
        EditorState { docs: self.docs.update(self.active, d), ..self }
    }

    /// The state with the active window's highlighted entry set to `s`.
    pub open spec fn with_selected(self, s: int) -> EditorState {
        EditorState { selected: self.selected.update(self.active, s), ..self }
    }

    /// The state after key `k`, with `n` entries in the directory listing.
    pub open spec fn on_key(self, k: KeyEvent, n: int) -> EditorState {
        let d = self.active_doc();
        match k {
            KeyEvent::WindowSelect(f) => if 1 <= f <= 4 {
                EditorState { active: f - 1, ..self }
            } else {
                self
            },
            KeyEvent::Backspace => self.with_doc(d.backspaced()),
            KeyEvent::Up => self.with_doc(d.moved(0, -1)),
            KeyEvent::Down => self.with_doc(d.moved(0, 1)),
            KeyEvent::Left => if d.row == 0 {
                self.with_selected(select_left(self.selected[self.active], n))
            } else {
                self.with_doc(d.moved(-1, 0))
            },
            KeyEvent::Right => if d.row == 0 {
                self.with_selected(select_right(self.selected[self.active], n))
            } else {
                self.with_doc(d.moved(1, 0))
            },
            KeyEvent::Char(c) => if c == '\n' {
                self.with_doc(d.entered())
            } else if drawable(c) {
                self.with_doc(d.typed(c))
            } else {
                self
            },
            KeyEvent::Other => self,
        }
    }
}

/// F1 to F4 make window 0 to 3 the active one and change no document.
pub proof fn lemma_window_select(st: EditorState, f: u8, n: int)
    requires
        st.inv(),
        1 <= f <= 4,
    ensures
        st.on_key(KeyEvent::WindowSelect(f), n).active == f - 1,
        st.on_key(KeyEvent::WindowSelect(f), n).docs == st.docs,
{
}

/// A key changes no document but the active one, and leaves the editor
/// well-formed.
pub proof fn lemma_key_touches_active_doc_only(st: EditorState, k: KeyEvent, n: int)
    requires
        st.inv(),
        0 <= n <= usize::MAX,
    ensures
        st.on_key(k, n).inv(),
        forall|i: int| 0 <= i < NUM_WINDOWS && i != st.active ==> #[trigger] st.on_key(k, n).docs[i] == st.docs[i],
{
    let d = st.active_doc();
    lemma_edit_keeps_inv(d, Edit::Enter);
    lemma_edit_keeps_inv(d, Edit::Backspace);
    lemma_edit_keeps_inv(d, Edit::Move(0, -1));
    lemma_edit_keeps_inv(d, Edit::Move(0, 1));
    lemma_edit_keeps_inv(d, Edit::Move(-1, 0));
    lemma_edit_keeps_inv(d, Edit::Move(1, 0));
    if let KeyEvent::Char(c) = k {
        lemma_edit_keeps_inv(d, Edit::Type(c));
    }
    if n > 0 {
        let s = st.selected[st.active];
        assert(0 <= s % n < n);
        assert(0 <= (s % n + 1) % n < n);
    }
}

/// In a document below its top row, Left from the first column keeps the
/// cursor's row; on the top row, Up keeps the scroll offset.
pub proof fn lemma_keys_at_edges(st: EditorState, n: int)
    requires
        st.inv(),
    ensures
        st.active_doc().col == 0 && st.active_doc().row > 0
            ==> st.on_key(KeyEvent::Left, n).active_doc().row == st.active_doc().row,
        st.active_doc().row == 0
            ==> st.on_key(KeyEvent::Up, n).active_doc().scroll == st.active_doc().scroll,
{
}

/// The editor: one document per window, the active window, the highlighted
/// directory entry of each window and the last painted cursor position.
pub struct SwimInterface {
    windows: [Document; NUM_WINDOWS],
    active_window: usize,
    prev_cursor_pos: (usize, usize),
    selected_file_index: [usize; NUM_WINDOWS],
}

impl View for SwimInterface {
    type V = EditorState;

    closed spec fn view(&self) -> EditorState {
        EditorState {
            docs: Seq::new(NUM_WINDOWS as nat, |i: int| self.windows[i]@),
            active: self.active_window as int,
            selected: Seq::new(NUM_WINDOWS as nat, |i: int| self.selected_file_index[i] as int),
            prev_cursor: (self.prev_cursor_pos.0 as int, self.prev_cursor_pos.1 as int),
        }
    }
}

impl Default for SwimInterface {
    fn default() -> (r: Self)
        ensures
            r@ == EditorState::initial(),
            r.wf(),
    {
        let r = SwimInterface {
            windows: [Document::default(); NUM_WINDOWS],
            active_window: 0,
            prev_cursor_pos: (0, 0),
            selected_file_index: [0; NUM_WINDOWS],
        };
        assert(r@.docs =~= EditorState::initial().docs);
        assert(r@.selected =~= EditorState::initial().selected);
        r
    }
}

impl SwimInterface {
    pub open spec fn wf(&self) -> bool {
        self@.inv()
    }

    /// A copy of the active document.
    fn active_document(&self) -> (r: Document)
        requires
            self.wf(),
        ensures
            r@ == self@.active_doc(),
            r.wf(),
    {
        let r = self.windows[self.active_window];
        assert(r@ == self@.docs[self.active_window as int]);
        r
    }

    /// Replaces the active document by `doc`.
    fn store_active(&mut self, doc: Document)
        requires
            old(self).wf(),
            doc.wf(),
        ensures
            final(self)@ == old(self)@.with_doc(doc@),
            final(self).wf(),
    {
        let a = self.active_window;
        self.windows[a] = doc;
        assert(self@.docs =~= old(self)@.docs.update(a as int, doc@));
    }

    /// Applies a key event; `file_count` is the number of entries in the
    /// directory listing, which Left and Right cycle through on the top row.
    pub fn key(&mut self, key: KeyEvent, file_count: usize)
        requires
            old(self).wf(),
        ensures
            final(self)@ == old(self)@.on_key(key, file_count as int),
            final(self).wf(),
    {
        match key {
            KeyEvent::Char(c) => self.handle_unicode(c),
            _ => self.handle_raw(key, file_count),
        }
    }

    fn handle_raw(&mut self, key: KeyEvent, file_count: usize)
        requires
            old(self).wf(),
            !(key is Char),
        ensures
            final(self)@ == old(self)@.on_key(key, file_count as int),
            final(self).wf(),
    {
        match key {
            KeyEvent::WindowSelect(n) => {
                if 1 <= n && n <= 4 {
                    self.active_window = (n - 1) as usize;
                }
                assert(self@.docs =~= old(self)@.docs);
                assert(self@.selected =~= old(self)@.selected);
            },
            KeyEvent::Backspace => self.backspace_key(),
            KeyEvent::Up => self.move_cursor(0, -1),
            KeyEvent::Down => self.move_cursor(0, 1),
            KeyEvent::Left => {
                if self.active_document().row() == 0 {
                    self.select_prev_file(file_count);
                } else {
                    self.move_cursor(-1, 0);
                }
            },
            KeyEvent::Right => {
                if self.active_document().row() == 0 {
                    self.select_next_file(file_count);
                } else {
                    self.move_cursor(1, 0);
                }
            },
            _ => {},
        }
    }

    fn handle_unicode(&mut self, key: char)
        requires
            old(self).wf(),
        ensures
            final(self)@ == old(self)@.on_key(KeyEvent::Char(key), 0),
            final(self).wf(),
    {
        if key == '\n' {
            self.enter_key();
        } else if is_drawable(key) {
            let mut doc = self.active_document();
            doc.type_char(key);
            self.store_active(doc);
        }
    }

    fn enter_key(&mut self)
        requires
            old(self).wf(),
        ensures
            final(self)@ == old(self)@.with_doc(old(self)@.active_doc().entered()),
            final(self).wf(),
    {
        let mut doc = self.active_document();
        doc.enter_key();
        self.store_active(doc);
    }

    fn backspace_key(&mut self)
        requires
            old(self).wf(),
        ensures
            final(self)@ == old(self)@.with_doc(old(self)@.active_doc().backspaced()),
            final(self).wf(),
    {
        let mut doc = self.active_document();
        doc.backspace_key();
        self.store_active(doc);
    }

    fn move_cursor(&mut self, dx: isize, dy: isize)
        requires
            old(self).wf(),
        ensures
            final(self)@ == old(self)@.with_doc(old(self)@.active_doc().moved(dx as int, dy as int)),
            final(self).wf(),
    {
        let mut doc = self.active_document();
        doc.move_cursor(dx, dy);
        self.store_active(doc);
    }

    fn select_prev_file(&mut self, file_count: usize)
        requires
            old(self).wf(),
        ensures
            final(self)@ == old(self)@.with_selected(
                select_left(old(self)@.selected[old(self)@.active], file_count as int),
            ),
            final(self).wf(),
    {
        let a = self.active_window;
        if file_count > 0 {
            let s = self.selected_file_index[a] % file_count;
            self.selected_file_index[a] = if s == 0 { file_count - 1 } else { s - 1 };
        }
        assert(self@.docs =~= old(self)@.docs);
        assert(self@.selected =~= old(self)@.with_selected(
            select_left(old(self)@.selected[a as int], file_count as int),
        ).selected);
    }

    fn select_next_file(&mut self, file_count: usize)
        requires
            old(self).wf(),
        ensures
            final(self)@ == old(self)@.with_selected(
                select_right(old(self)@.selected[old(self)@.active], file_count as int),
            ),
            final(self).wf(),
    {
        let a = self.active_window;
        if file_count > 0 {
            let s = self.selected_file_index[a] % file_count;
            self.selected_file_index[a] = (s + 1) % file_count;
        }
        assert(self@.docs =~= old(self)@.docs);
        assert(self@.selected =~= old(self)@.with_selected(
            select_right(old(self)@.selected[a as int], file_count as int),
        ).selected);
    }

    /// Index of the window that receives keys.
    pub fn active_window(&self) -> (r: usize)
        ensures
            r as int == self@.active,
    {
        self.active_window
    }

    /// The document of window `index`.
    pub fn document(&self, index: usize) -> (r: &Document)
        requires
            index < NUM_WINDOWS,
        ensures
            r@ == self@.docs[index as int],
    {
        &self.windows[index]
    }

    /// The highlighted directory entry of window `index`.
    pub fn selected_file(&self, index: usize) -> (r: usize)
        requires
            index < NUM_WINDOWS,
        ensures
            r as int == self@.selected[index as int],
    {
        self.selected_file_index[index]
    }

    /// Screen position where the cursor glyph was last painted.
    pub fn prev_cursor_pos(&self) -> (r: (usize, usize))
        ensures
            r.0 as int == self@.prev_cursor.0,
            r.1 as int == self@.prev_cursor.1,
    {
        self.prev_cursor_pos
    }

    /// Records where the cursor glyph was painted.
    pub(crate) fn set_prev_cursor_pos(&mut self, pos: (usize, usize))
        requires
            old(self).wf(),
            pos.0 < BUFFER_WIDTH,
            pos.1 < BUFFER_HEIGHT,
        ensures
            final(self)@ == (EditorState { prev_cursor: (pos.0 as int, pos.1 as int), ..old(self)@ }),
            final(self).wf(),
    {
        self.prev_cursor_pos = pos;
    }
}

} // verus!
