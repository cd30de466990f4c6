//! A character-grid display in terminal mode: a cursor over a fixed number of
//! columns and rows. Text is placed from the cursor, wraps at the last column,
//! and is refused whole when it would reach past the last row.
use vstd::prelude::*;

verus! {

/// Errors of the display.
#[derive(Clone, Copy, Debug, PartialEq, Eq, Structural)]
pub enum DisplayError {
    /// The display has not acknowledged its initialisation.
    Uninitialized,
    /// The text would be drawn below the last row.
    DrawOutOfBounds,
    /// The display driver or its bus failed.
    DriverFault,
}

/// The state of a display: its size in characters, where the next character is
/// drawn, and whether the device has been brought up.
pub ghost struct DisplayView {
    pub columns: nat,
    pub rows: nat,
    pub row: nat,
    pub col: nat,
    pub initialized: bool,
}

impl DisplayView {
    /// A valid state: a non-empty grid, the cursor on a column of it, and on a
    /// row of it or at the start of the row just below the grid; before the
    /// device is up, the cursor is at the origin.
    pub open spec fn wf(self) -> bool {
        &&& self.columns > 0
        &&& self.rows > 0
        &&& self.col < self.columns
        &&& self.row <= self.rows
        &&& self.row == self.rows ==> self.col == 0
        &&& !self.initialized ==> self.row == 0 && self.col == 0
    }

    /// The state with the cursor moved to the top-left cell.
    pub open spec fn at_origin(self) -> DisplayView {
        DisplayView { row: 0, col: 0, ..self }
    }
}

/// Where the cursor stands after one character, or `None` where the character
/// would go below the last row. A line feed starts the next row, a carriage
/// return goes back to the first column, and any other character fills the cell
/// under the cursor and moves right, wrapping at the last column.
pub open spec fn place_char(v: DisplayView, c: char) -> Option<DisplayView> {
    if c == '\n' {
        if v.row < v.rows {
            Some(DisplayView { row: v.row + 1, col: 0, ..v })
        } else {
            None
        }
    } else if c == '\r' {
        Some(DisplayView { col: 0, ..v })
    } else if v.row >= v.rows {
        None
    } else if v.col + 1 >= v.columns {
        Some(DisplayView { row: v.row + 1, col: 0, ..v })
    } else {
        Some(DisplayView { col: v.col + 1, ..v })
    }
}

/// Where the cursor stands after `text`, or `None` where some character of it
/// would go below the last row.
pub open spec fn place_text(v: DisplayView, text: Seq<char>) -> Option<DisplayView>
    decreases text.len(),
{
    if text.len() == 0 {
        Some(v)
    } else {
        match place_text(v, text.drop_last()) {
            Some(w) => place_char(w, text.last()),
            None => None,
        }
    }
}

/// What writing `text` does: the state after it, or the error.
pub open spec fn write_outcome(v: DisplayView, text: Seq<char>) -> Result<DisplayView, DisplayError> {
    if !v.initialized {
        Err(DisplayError::Uninitialized)
    } else {
        match place_text(v, text) {
            Some(w) => Ok(w),
            None => Err(DisplayError::DrawOutOfBounds),
        }
    }
}

/// Once a prefix of the text cannot be placed, neither can the text.
proof fn lemma_place_text_prefix_fails(v: DisplayView, text: Seq<char>, i: int)
    requires
        0 <= i <= text.len(),
        place_text(v, text.subrange(0, i)) is None,
    ensures
        place_text(v, text) is None,
    decreases text.len() - i,
{
    if i < text.len() {
        let next = text.subrange(0, i + 1);
        assert(next.drop_last() =~= text.subrange(0, i));
        lemma_place_text_prefix_fails(v, text, i + 1);
    } else {
        assert(text.subrange(0, i) =~= text);
    }
}

/// The number of characters of `text` that fill a cell.
pub open spec fn drawn_count(text: Seq<char>) -> nat
    decreases text.len(),
{
    if text.len() == 0 {
        0
    } else {
        let c = text.last();
        drawn_count(text.drop_last()) + if c == '\n' || c == '\r' { 0nat } else { 1nat }
    }
}

/// The cell under the cursor, counted row by row from the origin.
pub open spec fn cell_index(v: DisplayView) -> int {
    (v.row * v.columns + v.col) as int
}

proof fn lemma_place_text_advances(v: DisplayView, text: Seq<char>)
    requires
        v.wf(),
        v.initialized,
        !text.contains('\r'),
    ensures
        place_text(v, text) matches Some(w) ==> w.wf() && w.columns == v.columns && w.rows == v.rows
            && w.initialized && cell_index(w) >= cell_index(v) + drawn_count(text),
    decreases text.len(),
{
    if text.len() > 0 {
        let prefix = text.drop_last();
        assert forall|c: char| prefix.contains(c) implies text.contains(c) by {
            let k = choose|k: int| 0 <= k < prefix.len() && prefix[k] == c;
            assert(text[k] == c);
        }
        assert(text[text.len() - 1] == text.last());
        lemma_place_text_advances(v, prefix);
        if let Some(w) = place_text(v, prefix) {
            let c = text.last();
            let cols = w.columns as int;
            let row = w.row as int;
            assert((row + 1) * cols == row * cols + cols) by (nonlinear_arith);
        }
    }
}

/// A display that has been cleared takes no text that fills more cells than it
/// has: where no carriage return sends the cursor back over a row, such a write
/// is refused with `DrawOutOfBounds` and leaves the cursor at the origin.
pub proof fn write_after_clear_never_overflows_silently(v: DisplayView, text: Seq<char>)
    requires
        v.wf(),
        v.initialized,
        !text.contains('\r'),
        drawn_count(text) > v.columns * v.rows,
    ensures
        v.at_origin().wf(),
        write_outcome(v.at_origin(), text) == Err::<DisplayView, DisplayError>(DisplayError::DrawOutOfBounds),
{
    let o = v.at_origin();
    lemma_place_text_advances(o, text);
    if let Some(w) = place_text(o, text) {
        let cols = w.columns as int;
        let rows = w.rows as int;
        let row = w.row as int;
        let col = w.col as int;
        assert(row * cols + col <= rows * cols) by (nonlinear_arith)
            requires
                0 <= col < cols,
                0 <= row <= rows,
                row == rows ==> col == 0,
        ;
        assert(cols * rows == rows * cols) by (nonlinear_arith);
    }
}

/// A character-grid display.
pub struct Display {
    columns: usize,
    rows: usize,
    row: usize,
    col: usize,
    initialized: bool,
}

impl View for Display {
    type V = DisplayView;

    closed spec fn view(&self) -> DisplayView {
        DisplayView {
            columns: self.columns as nat,
            rows: self.rows as nat,
            row: self.row as nat,
            col: self.col as nat,
            initialized: self.initialized,
        }
    }
}

impl Display {
    /// A display of `columns` by `rows` characters that has not been brought up yet.
    pub fn new(columns: usize, rows: usize) -> (r: Display)
        requires
            columns > 0,
            rows > 0,
        ensures
            r@.wf(),
            r@.columns == columns,
            r@.rows == rows,
            r@.row == 0,
            r@.col == 0,
            !r@.initialized,
    {
        Display { columns, rows, row: 0, col: 0, initialized: false }
    }

    /// Records the outcome of the device's bring-up: `acknowledged` tells whether
    /// the device answered its initialisation. The cursor goes to the origin.
    pub fn initialize(&mut self, acknowledged: bool) -> (r: Result<(), DisplayError>)
        requires
            old(self)@.wf(),
        ensures
            final(self)@.wf(),
            final(self)@ == (DisplayView { initialized: acknowledged, ..old(self)@.at_origin() }),
            r == (if acknowledged { Ok(()) } else { Err::<(), DisplayError>(DisplayError::Uninitialized) }),
    {
        self.row = 0;
        self.col = 0;
        self.initialized = acknowledged;
        if acknowledged {
            Ok(())
        } else {
            Err(DisplayError::Uninitialized)
        }
    }

    /// Blanks the display and moves the cursor to the origin. A display that is
    /// not up answers `Uninitialized`; its cursor is at the origin already.
    pub fn clear(&mut self) -> (r: Result<(), DisplayError>)
        requires
            old(self)@.wf(),
        ensures
            final(self)@.wf(),
            final(self)@ == old(self)@.at_origin(),
            r == (if old(self)@.initialized { Ok(()) } else { Err::<(), DisplayError>(DisplayError::Uninitialized) }),
    {
        if !self.initialized {
            return Err(DisplayError::Uninitialized);
        }
        self.row = 0;
        self.col = 0;
        Ok(())
    }

    /// The cursor, as (column, row).
    pub fn cursor(&self) -> (r: (usize, usize))
        ensures
            r.0 == self@.col,
            r.1 == self@.row,
    {
        (self.col, self.row)
    }

    /// Places `text` from the cursor. On success the cursor moves past it; where
    /// any character of it would fall below the last row nothing is placed, the
    /// cursor stays, and the result is `DrawOutOfBounds`.
    pub fn write(&mut self, text: &[char]) -> (r: Result<(), DisplayError>)
        requires
            old(self)@.wf(),
        ensures
            final(self)@.wf(),
            match write_outcome(old(self)@, text@) {
                Ok(w) => r is Ok && final(self)@ == w,
                Err(e) => r == Err::<(), DisplayError>(e) && final(self)@ == old(self)@,
            },
    {
        if !self.initialized {
            return Err(DisplayError::Uninitialized);
        }
        let ghost start = self@;
        let mut row = self.row;
        let mut col = self.col;
        let mut i: usize = 0;
        while i < text.len()
            invariant
                start == self@,
                start.wf(),
                start.initialized,
                0 <= i <= text@.len(),
                place_text(start, text@.subrange(0, i as int))
                    == Some(DisplayView { row: row as nat, col: col as nat, ..start }),
                col < self.columns,
                row <= self.rows,
                row == self.rows ==> col == 0,
            decreases text.len() - i,
        {
            let c = text[i];
            let ghost cur = DisplayView { row: row as nat, col: col as nat, ..start };
            assert(text@.subrange(0, i + 1).drop_last() =~= text@.subrange(0, i as int));
            assert(text@.subrange(0, i + 1).last() == c);
            if c == '\n' {
                if row < self.rows {
                    row = row + 1;
                    col = 0;
                } else {
                    proof {
                        lemma_place_text_prefix_fails(start, text@, i + 1);
                    }
                    return Err(DisplayError::DrawOutOfBounds);
                }
            } else if c == '\r' {
                col = 0;
            } else if row >= self.rows {
                proof {
                    lemma_place_text_prefix_fails(start, text@, i + 1);
                }
                return Err(DisplayError::DrawOutOfBounds);
            } else if col + 1 >= self.columns {
                row = row + 1;
                col = 0;
            } else {
                col = col + 1;
            }
            i = i + 1;
        }
        assert(text@.subrange(0, text@.len() as int) =~= text@);
        self.row = row;
        self.col = col;
        Ok(())
    }
}

} // verus!
