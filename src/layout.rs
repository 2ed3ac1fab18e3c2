//! Fixed screen geometry and the placement of the four windows.
use vstd::prelude::*;

verus! {

/// Columns of the text-mode screen.
pub const BUFFER_WIDTH: usize = 80;

/// Rows of the text-mode screen.
pub const BUFFER_HEIGHT: usize = 25;

/// Columns on the right of the screen kept free of windows.
pub const TASK_MANAGER_WIDTH: usize = 10;

/// Columns shared by the two window columns.
pub const WIN_REGION_WIDTH: usize = BUFFER_WIDTH - TASK_MANAGER_WIDTH;

/// Number of windows, laid out as a two by two grid.
pub const NUM_WINDOWS: usize = 4;

/// Width of one window, and of each row of its document.
pub const WINDOW_WIDTH: usize = (WIN_REGION_WIDTH - 3) / 2;

/// Height of one window: the number of document rows visible at once.
pub const WINDOW_HEIGHT: usize = BUFFER_HEIGHT / 2;

/// Rows held by a document: four screens of scroll-back.
pub const DOC_HEIGHT: usize = WINDOW_HEIGHT * 4;

/// Top-left screen corner of window `index`.
pub open spec fn window_origin(index: int) -> (int, int) {
    ((index % 2) * WINDOW_WIDTH, (index / 2) * WINDOW_HEIGHT)
}

/// Top-left screen corner of window `index`; the windows fill the screen
/// row by row, two to a row.
pub fn window_position(index: usize) -> (r: (usize, usize))
    requires
        index < NUM_WINDOWS,
    ensures
        r.0 as int == window_origin(index as int).0,
        r.1 as int == window_origin(index as int).1,
        r.0 + WINDOW_WIDTH <= BUFFER_WIDTH,
        r.1 + WINDOW_HEIGHT <= BUFFER_HEIGHT,
{
    assert(WINDOW_WIDTH == 33 && WINDOW_HEIGHT == 12);
    let start_x = (index % 2) * WINDOW_WIDTH;
    let start_y = (index / 2) * WINDOW_HEIGHT;
    (start_x, start_y)
}

} // verus!
