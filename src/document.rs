//! One window's document: a fixed grid of characters, a cursor and the index
//! of the first visible row, kept consistent by every edit and move.
use vstd::prelude::*;
use crate::layout::{DOC_HEIGHT, WINDOW_HEIGHT, WINDOW_WIDTH};

verus! {

/// Abstract state of a document.
pub struct DocState {
    /// The characters, row by row.
    pub grid: Seq<Seq<char>>,
    pub col: int,
    pub row: int,
    /// Index of the first row shown in the window.
    pub scroll: int,
}

pub open spec fn width() -> int {
    WINDOW_WIDTH as int
}

pub open spec fn grid_height() -> int {
    DOC_HEIGHT as int
}

pub open spec fn visible_height() -> int {
    WINDOW_HEIGHT as int
}

/// Whether the keyboard character `c` has a glyph: its low byte lies in the
/// printable ASCII range.
pub open spec fn drawable(c: char) -> bool {
    0x20 <= (c as u32) % 256 <= 0x7e
}

/// Whether `c` has a glyph (see [`drawable`]).
pub fn is_drawable(c: char) -> (r: bool)
    ensures
        r == drawable(c),
{
    let b: u32 = (c as u32) % 256;
    0x20 <= b && b <= 0x7e
}

impl DocState {
    /// The cursor is inside the visible band of rows.
    pub open spec fn on_screen(self) -> bool {
        0 <= self.scroll <= self.row < self.scroll + visible_height()
    }

    /// Well-formed: the grid has its fixed shape, the cursor lies on it and is
    /// on screen, and the visible band lies inside the grid.
    pub open spec fn inv(self) -> bool {
        &&& self.grid.len() == grid_height()
        &&& forall|r: int| 0 <= r < grid_height() ==> (#[trigger] self.grid[r]).len() == width()
        &&& 0 <= self.col < width()
        &&& 0 <= self.row < grid_height()
        &&& self.on_screen()
        &&& self.scroll <= grid_height() - visible_height()
    }

    /// An empty document with the cursor in the top-left corner.
    pub open spec fn blank() -> DocState {
        DocState {
            grid: Seq::new(DOC_HEIGHT as nat, |r: int| Seq::new(WINDOW_WIDTH as nat, |c: int| ' ')),
            col: 0,
            row: 0,
            scroll: 0,
        }
    }

    /// The grid with the cell at (`r`, `c`) set to `ch`.
    pub open spec fn put(self, r: int, c: int, ch: char) -> Seq<Seq<char>> {
        self.grid.update(r, self.grid[r].update(c, ch))
    }

    /// Typing `ch`: it overwrites the cell under the cursor, and the cursor
    /// advances one column unless it is on the last one.
    pub open spec fn typed(self, ch: char) -> DocState {
        DocState {
            grid: self.put(self.row, self.col, ch),
            col: if self.col + 1 < width() { self.col + 1 } else { self.col },
            ..self
        }
    }

    /// Enter: the cursor goes to the start of the next row (it stays on the
    /// last row), and the view scrolls one row if the cursor left it.
    pub open spec fn entered(self) -> DocState {
        let row = if self.row + 1 < grid_height() { self.row + 1 } else { self.row };
        DocState {
            col: 0,
            row,
            scroll: if row >= self.scroll + visible_height() { self.scroll + 1 } else { self.scroll },
            ..self
        }
    }

    /// Backspace: the cursor steps back one column, or to the last column of
    /// the row above from the first one, and the cell it lands on is blanked.
    /// From the top-left corner only that cell is blanked. The view follows
    /// the cursor up one row if it left it.
    pub open spec fn backspaced(self) -> DocState {
        let col = if self.col > 0 {
            self.col - 1
        } else if self.row > 0 {
            width() - 1
        } else {
            self.col
        };
        let row = if self.col == 0 && self.row > 0 { self.row - 1 } else { self.row };
        DocState {
            grid: self.put(row, col, ' '),
            col,
            row,
            scroll: if row < self.scroll { self.scroll - 1 } else { self.scroll },
        }
    }

    /// A move by the signs of `dx` and `dy`, one step on each axis at most,
    /// clamped to the grid; the view scrolls one row when the cursor leaves it.
    pub open spec fn moved(self, dx: int, dy: int) -> DocState {
        let col = if dx > 0 && self.col + 1 < width() {
            self.col + 1
        } else if dx < 0 && self.col > 0 {
            self.col - 1
        } else {
            self.col
        };
        let row = if dy > 0 && self.row + 1 < grid_height() {
            self.row + 1
        } else if dy < 0 && self.row > 0 {
            self.row - 1
        } else {
            self.row
        };
        let scroll = if dy > 0 && row >= self.scroll + visible_height() {
            self.scroll + 1
        } else if dy < 0 && row < self.scroll {
            self.scroll - 1
        } else {
            self.scroll
        };
        DocState { grid: self.grid, col, row, scroll }
    }
}

/// One editing operation on a document.
pub enum Edit {
    Type(char),
    Enter,
    Backspace,
    Move(int, int),
}

impl DocState {
    pub open spec fn apply(self, e: Edit) -> DocState {
        match e {
            Edit::Type(c) => self.typed(c),
            Edit::Enter => self.entered(),
            Edit::Backspace => self.backspaced(),
            Edit::Move(dx, dy) => self.moved(dx, dy),
        }
    }

    /// The state after the edits in `edits`, in order.
    pub open spec fn apply_all(self, edits: Seq<Edit>) -> DocState
        decreases edits.len(),
    {
        if edits.len() == 0 {
            self
        } else {
            self.apply_all(edits.drop_last()).apply(edits.last())
        }
    }

    /// The state after the moves in `moves`, in order.
    pub open spec fn move_all(self, moves: Seq<(int, int)>) -> DocState
        decreases moves.len(),
    {
        if moves.len() == 0 {
            self
        } else {
            self.move_all(moves.drop_last()).moved(moves.last().0, moves.last().1)
        }
    }

    /// The state after typing the characters of `cs`, in order.
    pub open spec fn type_all(self, cs: Seq<char>) -> DocState
        decreases cs.len(),
    {
        if cs.len() == 0 {
            self
        } else {
            self.type_all(cs.drop_last()).typed(cs.last())
        }
    }
}

/// Every edit keeps a document well-formed.
pub proof fn lemma_edit_keeps_inv(d: DocState, e: Edit)
    requires
        d.inv(),
    ensures
        d.apply(e).inv(),
{
}

/// Any sequence of directional moves leaves the cursor on screen after
/// every move.
pub proof fn lemma_moves_keep_cursor_on_screen(d: DocState, moves: Seq<(int, int)>)
    requires
        d.inv(),
    ensures
        forall|k: int| 0 <= k <= moves.len() ==> (#[trigger] d.move_all(moves.take(k))).on_screen(),
{
    assert forall|k: int| 0 <= k <= moves.len() implies (#[trigger] d.move_all(moves.take(k))).inv() by {
        lemma_moves_keep_inv(d, moves.take(k));
    }
}

proof fn lemma_moves_keep_inv(d: DocState, moves: Seq<(int, int)>)
    requires
        d.inv(),
    ensures
        d.move_all(moves).inv(),
    decreases moves.len(),
{
    if moves.len() > 0 {
        lemma_moves_keep_inv(d, moves.drop_last());
    }
}

/// Any sequence of typing, Enter, Backspace and moves keeps the cursor on the
/// grid, with the column below the width and the row below the grid height,
/// after every edit.
pub proof fn lemma_edits_keep_cursor_on_grid(d: DocState, edits: Seq<Edit>)
    requires
        d.inv(),
    ensures
        forall|k: int| 0 <= k <= edits.len() ==> {
            let s = #[trigger] d.apply_all(edits.take(k));
            &&& 0 <= s.col < width()
            &&& 0 <= s.row < grid_height()
        },
{
    assert forall|k: int| 0 <= k <= edits.len() implies (#[trigger] d.apply_all(edits.take(k))).inv() by {
        lemma_edits_keep_inv(d, edits.take(k));
    }
}

proof fn lemma_edits_keep_inv(d: DocState, edits: Seq<Edit>)
    requires
        d.inv(),
    ensures
        d.apply_all(edits).inv(),
    decreases edits.len(),
{
    if edits.len() > 0 {
        lemma_edits_keep_inv(d, edits.drop_last());
        lemma_edit_keeps_inv(d.apply_all(edits.drop_last()), edits.last());
    }
}

/// Moving left from the first column leaves the row as it is, and moving up
/// from the top row leaves the scroll offset as it is.
pub proof fn lemma_moves_at_edges(d: DocState)
    requires
        d.inv(),
    ensures
        d.col == 0 ==> d.moved(-1, 0).row == d.row,
        d.row == 0 ==> d.moved(0, -1).scroll == d.scroll,
{
}

/// Backspace right after Enter, when Enter left the cursor below the top row,
/// takes the cursor to the last column of the row above and blanks that cell.
pub proof fn lemma_backspace_after_enter(d: DocState)
    requires
        d.inv(),
        d.entered().row > 0,
    ensures
        ({
            let e = d.entered();
            let b = e.backspaced();
            &&& b.col == width() - 1
            &&& b.row == e.row - 1
            &&& b.grid[b.row][b.col] == ' '
        }),
{
}

/// Typing `cs` from the first column fills the cursor's row from the left:
/// each character lands in its own column until the last column, which then
/// takes every further character, so that it holds the last one typed. The
/// other cells stay as they were, and the cursor stops on the last column.
pub proof fn lemma_typing_fills_row(d: DocState, cs: Seq<char>)
    requires
        d.inv(),
        d.col == 0,
    ensures
        ({
            let t = d.type_all(cs);
            &&& t.inv()
            &&& t.row == d.row
            &&& t.scroll == d.scroll
            &&& t.col == (if cs.len() < width() { cs.len() as int } else { width() - 1 })
            &&& forall|r: int| 0 <= r < grid_height() && r != d.row ==> #[trigger] t.grid[r] == d.grid[r]
            &&& forall|j: int| 0 <= j < width() - 1 ==> #[trigger] t.grid[d.row][j] == if j < cs.len() {
                cs[j]
            } else {
                d.grid[d.row][j]
            }
            &&& t.grid[d.row][width() - 1] == if cs.len() >= width() {
                cs.last()
            } else {
                d.grid[d.row][width() - 1]
            }
        }),
    decreases cs.len(),
{
    if cs.len() > 0 {
        let p = cs.drop_last();
        lemma_typing_fills_row(d, p);
        let t = d.type_all(p);
        assert(d.type_all(cs) == t.typed(cs.last()));
        assert forall|j: int| 0 <= j < width() - 1 implies #[trigger] d.type_all(cs).grid[d.row][j] == if j < cs.len() {
            cs[j]
        } else {
            d.grid[d.row][j]
        } by {
            if j < p.len() {
                assert(p[j] == cs[j]);
            }
        }
    }
}

/// One window's text, cursor and scroll offset.
#[derive(Clone, Copy, PartialEq, Eq)]
pub struct Document {
    letters: [[char; WINDOW_WIDTH]; DOC_HEIGHT],
    col: usize,
    row: usize,
    scroll: usize,
}

impl View for Document {
    type V = DocState;

    closed spec fn view(&self) -> DocState {
        DocState {
            grid: Seq::new(DOC_HEIGHT as nat, |r: int| self.letters[r]@),
            col: self.col as int,
            row: self.row as int,
            scroll: self.scroll as int,
        }
    }
}

impl Default for Document {
    fn default() -> (d: Self)
        ensures
            d@ == DocState::blank(),
            d.wf(),
    {
        let d = Document { letters: [[' '; WINDOW_WIDTH]; DOC_HEIGHT], col: 0, row: 0, scroll: 0 };
        assert(d@.grid =~~= DocState::blank().grid);
        d
    }
}

impl Document {
    pub open spec fn wf(&self) -> bool {
        self@.inv()
    }

    /// Writes `ch` at (`row`, `col`).
    fn put(&mut self, row: usize, col: usize, ch: char)
        requires
            row < DOC_HEIGHT,
            col < WINDOW_WIDTH,
            old(self).wf(),
        ensures
            final(self)@ == (DocState { grid: old(self)@.put(row as int, col as int, ch), ..old(self)@ }),
    {
        let mut line = self.letters[row];
        line[col] = ch;
        self.letters[row] = line;
        assert(self@.grid =~~= old(self)@.put(row as int, col as int, ch));
    }

    /// Types `ch` at the cursor.
    pub fn type_char(&mut self, ch: char)
        requires
            old(self).wf(),
        ensures
            final(self)@ == old(self)@.typed(ch),
            final(self).wf(),
    {
        self.put(self.row, self.col, ch);
        if self.col + 1 < WINDOW_WIDTH {
            self.col = self.col + 1;
        }
    }

    /// Moves the cursor to the start of the next row.
    pub fn enter_key(&mut self)
        requires
            old(self).wf(),
        ensures
            final(self)@ == old(self)@.entered(),
            final(self).wf(),
    {
        self.col = 0;
        if self.row + 1 < DOC_HEIGHT {
            self.row = self.row + 1;
        }
        if self.row >= self.scroll + WINDOW_HEIGHT {
            self.scroll = self.scroll + 1;
        }
        assert(self@.grid =~= old(self)@.entered().grid);
    }

    /// Steps the cursor back and blanks the cell it lands on.
    pub fn backspace_key(&mut self)
        requires
            old(self).wf(),
        ensures
            final(self)@ == old(self)@.backspaced(),
            final(self).wf(),
    {
        if self.col > 0 {
            self.col = self.col - 1;
        } else if self.row > 0 {
            self.row = self.row - 1;
            self.col = WINDOW_WIDTH - 1;
        }
        if self.row < self.scroll {
            self.scroll = self.scroll - 1;
        }
        self.put(self.row, self.col, ' ');
        assert(self@.grid =~~= old(self)@.backspaced().grid);
    }

    /// Moves the cursor by the signs of `dx` and `dy`.
    pub fn move_cursor(&mut self, dx: isize, dy: isize)
        requires
            old(self).wf(),
        ensures
            final(self)@ == old(self)@.moved(dx as int, dy as int),
            final(self).wf(),
    {
        if dx != 0 {
            if dx > 0 && self.col + 1 < WINDOW_WIDTH {
                self.col = self.col + 1;
            } else if dx < 0 && self.col > 0 {
                self.col = self.col - 1;
            }
        }
        if dy != 0 {
            if dy > 0 {
                if self.row + 1 < DOC_HEIGHT {
                    self.row = self.row + 1;
                }
                if self.row >= self.scroll + WINDOW_HEIGHT {
                    self.scroll = self.scroll + 1;
                }
            } else if self.row > 0 {
                self.row = self.row - 1;
                if self.row < self.scroll {
                    self.scroll = self.scroll - 1;
                }
            }
        }
        assert(self@.grid =~= old(self)@.grid);
    }

    /// Column of the cursor.
    pub fn col(&self) -> (r: usize)
        ensures
            r as int == self@.col,
    {
        self.col
    }

    /// Row of the cursor.
    pub fn row(&self) -> (r: usize)
        ensures
            r as int == self@.row,
    {
        self.row
    }

    /// Index of the first visible row.
    pub fn scroll(&self) -> (r: usize)
        ensures
            r as int == self@.scroll,
    {
        self.scroll
    }

    /// The character at (`row`, `col`).
    pub fn glyph(&self, row: usize, col: usize) -> (r: char)
        requires
            self.wf(),
            row < DOC_HEIGHT,
            col < WINDOW_WIDTH,
        ensures
            r == self@.grid[row as int][col as int],
    {
        self.letters[row][col]
    }
}

} // verus!
