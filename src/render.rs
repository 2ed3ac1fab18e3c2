//! The render pass: the editor's state, with the directory listing, as the
//! sequence of glyphs to plot on the screen.
use vstd::prelude::*;
use crate::document::{visible_height, width, DocState, Document};
use crate::editor::{EditorState, SwimInterface};
use crate::layout::{
    window_origin, window_position, BUFFER_HEIGHT, BUFFER_WIDTH, NUM_WINDOWS, WINDOW_HEIGHT,
    WINDOW_WIDTH,
};

verus! {

/// The colours the editor paints with.
#[derive(Clone, Copy, PartialEq, Eq, Debug)]
pub enum Color {
    Black,
    White,
    Pink,
    Cyan,
    Yellow,
}

/// Foreground and background colour of a cell.
#[derive(Clone, Copy, PartialEq, Eq, Debug)]
pub struct Style {
    pub fg: Color,
    pub bg: Color,
}

/// One glyph to paint at screen column `x`, row `y`.
#[derive(Clone, Copy, PartialEq, Eq, Debug)]
pub struct Plot {
    pub ch: char,
    pub x: usize,
    pub y: usize,
    pub style: Style,
}

/// Directory entries listed down one column of the file strip.
pub const STRIP_ROWS: usize = 9;

/// Columns of the file strip.
pub const STRIP_COLUMNS: usize = 3;

/// Width of one column of the file strip.
pub const STRIP_COLUMN_WIDTH: usize = WINDOW_WIDTH / 3;

/// Characters of a file name that are shown.
pub const NAME_WIDTH: usize = 10;

pub open spec fn style(fg: Color, bg: Color) -> Style {
    Style { fg, bg }
}

pub open spec fn plot_at(ch: char, x: int, y: int, s: Style) -> Plot {
    Plot { ch, x: x as usize, y: y as usize, style: s }
}

pub open spec fn in_screen(p: Plot) -> bool {
    p.x < BUFFER_WIDTH && p.y < BUFFER_HEIGHT
}

/// Glyph `k` of the border of window `i`: the top edge, the bottom edge, the
/// left edge, then the right edge.
pub open spec fn border_plot(i: int, active: bool, k: int) -> Plot {
    let (sx, sy) = window_origin(i);
    let s = style(if active { Color::Pink } else { Color::White }, Color::Black);
    if k < width() {
        plot_at('.', sx + k, sy, s)
    } else if k < 2 * width() {
        plot_at('.', sx + k - width(), sy + visible_height() - 1, s)
    } else if k < 2 * width() + visible_height() {
        plot_at('.', sx, sy + k - 2 * width(), s)
    } else {
        plot_at('.', sx + width() - 1, sy + k - 2 * width() - visible_height(), s)
    }
}

pub open spec fn border_len() -> int {
    2 * width() + 2 * visible_height()
}

pub open spec fn border(i: int, active: bool) -> Seq<Plot> {
    Seq::new(border_len() as nat, |k: int| border_plot(i, active, k))
}

/// The digit naming window `i`.
pub open spec fn window_digit(i: int) -> char {
    if i == 0 {
        '1'
    } else if i == 1 {
        '2'
    } else if i == 2 {
        '3'
    } else {
        '4'
    }
}

/// The header of window `i`, "F1" to "F4", centred on its top edge.
pub open spec fn header(i: int) -> Seq<Plot> {
    let (sx, sy) = window_origin(i);
    let hx = sx + width() / 2 - 1;
    seq![
        plot_at('F', hx, sy, style(Color::White, Color::Black)),
        plot_at(window_digit(i), hx + 1, sy, style(Color::White, Color::Black)),
    ]
}

/// Glyph `k` of the visible part of `d` in window `i`, row by row from the
/// first visible row.
pub open spec fn body_plot(d: DocState, i: int, k: int) -> Plot {
    let (sx, sy) = window_origin(i);
    let r = k / width();
    let c = k % width();
    plot_at(d.grid[d.scroll + r][c], sx + c, sy + r, style(Color::Cyan, Color::Black))
}

pub open spec fn body_len() -> int {
    visible_height() * width()
}

pub open spec fn body(d: DocState, i: int) -> Seq<Plot> {
    Seq::new(body_len() as nat, |k: int| body_plot(d, i, k))
}

/// The entry drawn highlighted, out of `n`, when entry `sel` is selected: a
/// selection past the end of the listing highlights its last entry.
pub open spec fn highlighted(sel: int, n: int) -> int {
    if sel < n {
        sel
    } else {
        n - 1
    }
}

/// How many entries of a listing of `n` the strip has room for.
pub open spec fn shown_entries(n: int) -> int {
    if n < STRIP_ROWS * STRIP_COLUMNS {
        n
    } else {
        (STRIP_ROWS * STRIP_COLUMNS) as int
    }
}

pub open spec fn name_len(name: Seq<char>) -> int {
    if name.len() < NAME_WIDTH {
        name.len() as int
    } else {
        NAME_WIDTH as int
    }
}

/// The glyphs of entry `e` of `names` in the strip of window `i`: entries go
/// down a column of the strip below the top edge, then on to the next column.
pub open spec fn entry_plots(names: Seq<Seq<char>>, sel: int, i: int, e: int) -> Seq<Plot> {
    let (sx, sy) = window_origin(i);
    let s = if e == highlighted(sel, names.len() as int) {
        style(Color::Black, Color::White)
    } else {
        style(Color::Cyan, Color::Black)
    };
    Seq::new(
        name_len(names[e]) as nat,
        |j: int|
            plot_at(
                names[e][j],
                sx + (e as int / STRIP_ROWS as int) * STRIP_COLUMN_WIDTH + j,
                sy + 1 + e as int % STRIP_ROWS as int,
                s,
            ),
    )
}

/// The glyphs of the first `e` entries of the strip.
pub open spec fn strip_upto(names: Seq<Seq<char>>, sel: int, i: int, e: int) -> Seq<Plot>
    decreases e,
{
    if e <= 0 {
        Seq::empty()
    } else {
        strip_upto(names, sel, i, e - 1) + entry_plots(names, sel, i, e - 1)
    }
}

pub open spec fn strip(names: Seq<Seq<char>>, sel: int, i: int) -> Seq<Plot> {
    strip_upto(names, sel, i, shown_entries(names.len() as int))
}

/// Everything painted for window `i`.
pub open spec fn window_frame(st: EditorState, names: Seq<Seq<char>>, i: int) -> Seq<Plot> {
    border(i, i == st.active) + header(i) + body(st.docs[i], i) + strip(names, st.selected[i], i)
}

/// The glyphs of the first `w` windows.
pub open spec fn windows_upto(st: EditorState, names: Seq<Seq<char>>, w: int) -> Seq<Plot>
    decreases w,
{
    if w <= 0 {
        Seq::empty()
    } else {
        windows_upto(st, names, w - 1) + window_frame(st, names, w - 1)
    }
}

/// Screen position of the active window's cursor.
pub open spec fn cursor_screen_pos(st: EditorState) -> (int, int) {
    let (sx, sy) = window_origin(st.active);
    let d = st.active_doc();
    (sx + d.col, sy + d.row - d.scroll)
}

/// The whole frame: every window, then the erasure of the old cursor glyph,
/// then the cursor glyph at its new place.
pub open spec fn frame(st: EditorState, names: Seq<Seq<char>>) -> Seq<Plot> {
    let (cx, cy) = cursor_screen_pos(st);
    windows_upto(st, names, NUM_WINDOWS as int) + seq![
        plot_at(' ', st.prev_cursor.0, st.prev_cursor.1, style(Color::Black, Color::Black)),
        plot_at('_', cx, cy, style(Color::Yellow, Color::Black)),
    ]
}

/// The characters of each directory entry name.
pub open spec fn names_of(entries: Seq<Vec<char>>) -> Seq<Seq<char>> {
    entries.map_values(|v: Vec<char>| v@)
}

pub open spec fn all_in_screen(s: Seq<Plot>) -> bool {
    forall|k: int| 0 <= k < s.len() ==> in_screen(#[trigger] s[k])
}

fn push_plot(out: &mut Vec<Plot>, ch: char, x: usize, y: usize, s: Style)
    requires
        x < BUFFER_WIDTH,
        y < BUFFER_HEIGHT,
        all_in_screen(old(out)@),
    ensures
        final(out)@ == old(out)@.push(plot_at(ch, x as int, y as int, s)),
        all_in_screen(final(out)@),
{
    out.push(Plot { ch, x, y, style: s });
}

impl SwimInterface {
    /// Paints one frame: every window, then the cursor. `entries` holds the
    /// names in the directory listing. Returns the glyphs to plot, in order,
    /// and records where the cursor glyph went.
    pub fn tick(&mut self, entries: &Vec<Vec<char>>) -> (plots: Vec<Plot>)
        requires
            old(self).wf(),
        ensures
            plots@ == frame(old(self)@, names_of(entries@)),
            all_in_screen(plots@),
            final(self)@ == (EditorState {
                prev_cursor: cursor_screen_pos(old(self)@),
                ..old(self)@
            }),
            final(self).wf(),
    {
        let mut out: Vec<Plot> = Vec::new();
        self.draw_windows(entries, &mut out);
        self.clear_cursor(&mut out);
        self.draw_cursor(&mut out);
        out
    }

    fn draw_windows(&self, entries: &Vec<Vec<char>>, out: &mut Vec<Plot>)
        requires
            self.wf(),
            old(out)@.len() == 0,
        ensures
            final(out)@ == windows_upto(self@, names_of(entries@), NUM_WINDOWS as int),
            all_in_screen(final(out)@),
    {
        let mut i: usize = 0;
        while i < NUM_WINDOWS
            invariant
                i <= NUM_WINDOWS,
                self.wf(),
                out@ == windows_upto(self@, names_of(entries@), i as int),
                all_in_screen(out@),
            decreases NUM_WINDOWS - i,
        {
            self.draw_window(i, entries, out);
            assert(out@ =~= windows_upto(self@, names_of(entries@), i + 1));
            i = i + 1;
        }
    }

    fn draw_window(&self, i: usize, entries: &Vec<Vec<char>>, out: &mut Vec<Plot>)
        requires
            self.wf(),
            i < NUM_WINDOWS,
            all_in_screen(old(out)@),
        ensures
            final(out)@ == old(out)@ + window_frame(self@, names_of(entries@), i as int),
            all_in_screen(final(out)@),
    {
        let ghost base = old(out)@;
        let is_active = i == self.active_window();
        draw_border(i, is_active, out);
        draw_header(i, out);
        let doc = self.document(i);
        draw_body(doc, i, out);
        draw_strip(entries, self.selected_file(i), i, out);
        assert(out@ =~= base + window_frame(self@, names_of(entries@), i as int));
    }

    fn clear_cursor(&self, out: &mut Vec<Plot>)
        requires
            self.wf(),
            all_in_screen(old(out)@),
        ensures
            final(out)@ == old(out)@.push(
                plot_at(' ', self@.prev_cursor.0, self@.prev_cursor.1, style(Color::Black, Color::Black)),
            ),
            all_in_screen(final(out)@),
    {
        let (prev_x, prev_y) = self.prev_cursor_pos();
        push_plot(out, ' ', prev_x, prev_y, Style { fg: Color::Black, bg: Color::Black });
    }

    fn draw_cursor(&mut self, out: &mut Vec<Plot>)
        requires
            old(self).wf(),
            all_in_screen(old(out)@),
        ensures
            final(out)@ == old(out)@.push(
                plot_at(
                    '_',
                    cursor_screen_pos(old(self)@).0,
                    cursor_screen_pos(old(self)@).1,
                    style(Color::Yellow, Color::Black),
                ),
            ),
            all_in_screen(final(out)@),
            final(self)@ == (EditorState {
                prev_cursor: cursor_screen_pos(old(self)@),
                ..old(self)@
            }),
            final(self).wf(),
    {
        let a = self.active_window();
        let (start_x, start_y) = window_position(a);
        let doc = self.document(a);
        assert(doc@.inv());
        let cursor_x = start_x + doc.col();
        let cursor_y = start_y + (doc.row() - doc.scroll());
        push_plot(out, '_', cursor_x, cursor_y, Style { fg: Color::Yellow, bg: Color::Black });
        self.set_prev_cursor_pos((cursor_x, cursor_y));
    }
}

fn draw_border(i: usize, active: bool, out: &mut Vec<Plot>)
    requires
        i < NUM_WINDOWS,
        all_in_screen(old(out)@),
    ensures
        final(out)@ == old(out)@ + border(i as int, active),
        all_in_screen(final(out)@),
{
    let ghost base = old(out)@;
    let (start_x, start_y) = window_position(i);
    let s = Style { fg: if active { Color::Pink } else { Color::White }, bg: Color::Black };
    let n: usize = 2 * WINDOW_WIDTH + 2 * WINDOW_HEIGHT;
    let mut k: usize = 0;
    while k < n
        invariant
            i < NUM_WINDOWS,
            n as int == border_len(),
            k <= n,
            start_x as int == window_origin(i as int).0,
            start_y as int == window_origin(i as int).1,
            start_x + WINDOW_WIDTH <= BUFFER_WIDTH,
            start_y + WINDOW_HEIGHT <= BUFFER_HEIGHT,
            s == style(if active { Color::Pink } else { Color::White }, Color::Black),
            out@ == base + border(i as int, active).take(k as int),
            all_in_screen(out@),
        decreases n - k,
    {
        let (x, y) = if k < WINDOW_WIDTH {
            (start_x + k, start_y)
        } else if k < 2 * WINDOW_WIDTH {
            (start_x + k - WINDOW_WIDTH, start_y + WINDOW_HEIGHT - 1)
        } else if k < 2 * WINDOW_WIDTH + WINDOW_HEIGHT {
            (start_x, start_y + k - 2 * WINDOW_WIDTH)
        } else {
            (start_x + WINDOW_WIDTH - 1, start_y + k - 2 * WINDOW_WIDTH - WINDOW_HEIGHT)
        };
        push_plot(out, '.', x, y, s);
        assert(border(i as int, active).take(k + 1) =~= border(i as int, active).take(k as int).push(
            border_plot(i as int, active, k as int),
        ));
        k = k + 1;
    }
    assert(border(i as int, active).take(n as int) =~= border(i as int, active));
}

fn draw_header(i: usize, out: &mut Vec<Plot>)
    requires
        i < NUM_WINDOWS,
        all_in_screen(old(out)@),
    ensures
        final(out)@ == old(out)@ + header(i as int),
        all_in_screen(final(out)@),
{
    let ghost base = old(out)@;
    let (start_x, start_y) = window_position(i);
    let header_x = start_x + (WINDOW_WIDTH / 2) - 1;
    let header_text = if i == 0 {
        '1'
    } else if i == 1 {
        '2'
    } else if i == 2 {
        '3'
    } else {
        '4'
    };
    let s = Style { fg: Color::White, bg: Color::Black };
    push_plot(out, 'F', header_x, start_y, s);
    push_plot(out, header_text, header_x + 1, start_y, s);
    assert(out@ =~= base + header(i as int));
}

fn draw_body(doc: &Document, i: usize, out: &mut Vec<Plot>)
    requires
        i < NUM_WINDOWS,
        doc.wf(),
        all_in_screen(old(out)@),
    ensures
        final(out)@ == old(out)@ + body(doc@, i as int),
        all_in_screen(final(out)@),
{
    let ghost base = old(out)@;
    let (start_x, start_y) = window_position(i);
    assert(WINDOW_WIDTH == 33 && WINDOW_HEIGHT == 12);
    let n: usize = WINDOW_HEIGHT * WINDOW_WIDTH;
    let scroll = doc.scroll();
    let mut k: usize = 0;
    while k < n
        invariant
            i < NUM_WINDOWS,
            doc.wf(),
            scroll as int == doc@.scroll,
            n as int == body_len(),
            n == 396,
            k <= n,
            start_x as int == window_origin(i as int).0,
            start_y as int == window_origin(i as int).1,
            start_x + WINDOW_WIDTH <= BUFFER_WIDTH,
            start_y + WINDOW_HEIGHT <= BUFFER_HEIGHT,
            out@ == base + body(doc@, i as int).take(k as int),
            all_in_screen(out@),
        decreases n - k,
    {
        let row = k / WINDOW_WIDTH;
        let col = k % WINDOW_WIDTH;
        assert(row < WINDOW_HEIGHT) by (nonlinear_arith)
            requires
                row == k / 33,
                k < 396,
        {}
        let ch = doc.glyph(scroll + row, col);
        push_plot(out, ch, start_x + col, start_y + row, Style { fg: Color::Cyan, bg: Color::Black });
        assert(body(doc@, i as int).take(k + 1) =~= body(doc@, i as int).take(k as int).push(
            body_plot(doc@, i as int, k as int),
        ));
        k = k + 1;
    }
    assert(body(doc@, i as int).take(n as int) =~= body(doc@, i as int));
}

fn draw_strip(entries: &Vec<Vec<char>>, sel: usize, i: usize, out: &mut Vec<Plot>)
    requires
        i < NUM_WINDOWS,
        all_in_screen(old(out)@),
    ensures
        final(out)@ == old(out)@ + strip(names_of(entries@), sel as int, i as int),
        all_in_screen(final(out)@),
{
    let ghost base = old(out)@;
    let ghost names = names_of(entries@);
    let (start_x, start_y) = window_position(i);
    let count = entries.len();
    let shown = if count < STRIP_ROWS * STRIP_COLUMNS {
        count
    } else {
        STRIP_ROWS * STRIP_COLUMNS
    };
    let highlight = if sel < count {
        sel
    } else if count > 0 {
        count - 1
    } else {
        0
    };
    let mut e: usize = 0;
    while e < shown
        invariant
            i < NUM_WINDOWS,
            names == names_of(entries@),
            count == entries@.len(),
            names.len() == count,
            shown <= count,
            shown <= STRIP_ROWS * STRIP_COLUMNS,
            shown as int == shown_entries(count as int),
            count > 0 ==> highlight as int == highlighted(sel as int, count as int),
            e <= shown,
            start_x as int == window_origin(i as int).0,
            start_y as int == window_origin(i as int).1,
            start_x + WINDOW_WIDTH <= BUFFER_WIDTH,
            start_y + WINDOW_HEIGHT <= BUFFER_HEIGHT,
            out@ == base + strip_upto(names, sel as int, i as int, e as int),
            all_in_screen(out@),
        decreases shown - e,
    {
        let name = &entries[e];
        assert(names[e as int] == name@);
        let len = if name.len() < NAME_WIDTH {
            name.len()
        } else {
            NAME_WIDTH
        };
        let s = if e == highlight {
            Style { fg: Color::Black, bg: Color::White }
        } else {
            Style { fg: Color::Cyan, bg: Color::Black }
        };
        assert(STRIP_COLUMN_WIDTH == 11 && WINDOW_WIDTH == 33 && WINDOW_HEIGHT == 12);
        assert(e / STRIP_ROWS < 3) by (nonlinear_arith)
            requires
                e < 27,
                STRIP_ROWS == 9,
        {}
        let x = start_x + (e / STRIP_ROWS) * STRIP_COLUMN_WIDTH;
        let y = start_y + 1 + e % STRIP_ROWS;
        let ghost plots = entry_plots(names, sel as int, i as int, e as int);
        let ghost prefix = out@;
        let mut j: usize = 0;
        while j < len
            invariant
                e < shown,
                e < names.len(),
                start_x as int == window_origin(i as int).0,
                start_y as int == window_origin(i as int).1,
                shown <= STRIP_ROWS * STRIP_COLUMNS,
                len as int == name_len(name@),
                len <= NAME_WIDTH,
                x as int == start_x + (e as int / STRIP_ROWS as int) * STRIP_COLUMN_WIDTH,
                x + STRIP_COLUMN_WIDTH <= start_x + WINDOW_WIDTH,
                y as int == start_y + 1 + e as int % STRIP_ROWS as int,
                y < start_y + WINDOW_HEIGHT,
                start_x + WINDOW_WIDTH <= BUFFER_WIDTH,
                start_y + WINDOW_HEIGHT <= BUFFER_HEIGHT,
                s == (if e as int == highlighted(sel as int, names.len() as int) {
                    style(Color::Black, Color::White)
                } else {
                    style(Color::Cyan, Color::Black)
                }),
                names[e as int] == name@,
                plots == entry_plots(names, sel as int, i as int, e as int),
                plots.len() == len,
                j <= len,
                out@ == prefix + plots.take(j as int),
                all_in_screen(out@),
            decreases len - j,
        {
            push_plot(out, name[j], x + j, y, s);
            assert(plots.take(j + 1) =~= plots.take(j as int).push(plots[j as int]));
            j = j + 1;
        }
        assert(plots.take(len as int) =~= plots);
        assert(out@ =~= base + strip_upto(names, sel as int, i as int, e + 1));
        e = e + 1;
    }
}

} // verus!
