//! A terminal drawn on a character-cell frame buffer: output lines scroll
//! up from the bottom, and an editable prompt wraps over as many rows as
//! its text needs, with an inverted cell for the cursor.
//!
//! The frame buffer holds `rows * cols` cells, row after row. Every
//! function here takes it as an argument; handing it to the display and
//! flushing it is the caller's part.
use vstd::prelude::*;
use crate::display_types::{
    cell_of, cells_of, nul_cell, space_cell, with_invert, CharCell,
    DisplayCharStat,
};
use crate::prompt_buffer::{
    prompt_as_slice, prompt_bytes, prompt_clear, prompt_clone, prompt_new, prompt_pop,
    prompt_push,
};

verus! {

/// Position and visibility of the prompt's cursor.
#[derive(Debug, Clone, Copy)]
pub struct TerminalCursor {
    pos: usize,
    enable: bool,
}

impl TerminalCursor {
    /// A shown cursor at the start.
    pub fn new() -> (c: Self)
        ensures
            c.spec_pos() == 0,
            c.spec_enabled(),
    {
        TerminalCursor { pos: 0, enable: true }
    }

    /// Index of the cursor in the prompt text.
    pub closed spec fn spec_pos(&self) -> usize {
        self.pos
    }

    /// Whether the cursor is shown.
    pub closed spec fn spec_enabled(&self) -> bool {
        self.enable
    }

    /// Moves the cursor to the start and shows it.
    pub fn enable(&mut self)
        ensures
            final(self).spec_pos() == 0,
            final(self).spec_enabled(),
    {
        self.pos = 0;
        self.enable = true;
    }

    /// Hides the cursor; its position stays.
    pub fn disable(&mut self)
        ensures
            final(self).spec_pos() == old(self).spec_pos(),
            !final(self).spec_enabled(),
    {
        self.enable = false;
    }

    /// Moves the cursor `v` places right, stopping at the largest position.
    pub fn move_right(&mut self, v: usize)
        ensures
            final(self).spec_pos() == (if old(self).spec_pos() + v > usize::MAX {
                usize::MAX as int
            } else {
                old(self).spec_pos() + v
            }),
            final(self).spec_enabled() == old(self).spec_enabled(),
    {
        self.pos = self.pos.saturating_add(v);
    }

    /// Moves the cursor `v` places left, stopping at the start.
    pub fn move_left(&mut self, v: usize)
        ensures
            final(self).spec_pos() == (if old(self).spec_pos() < v {
                0
            } else {
                old(self).spec_pos() - v
            }),
            final(self).spec_enabled() == old(self).spec_enabled(),
    {
        self.pos = self.pos.saturating_sub(v);
    }

    /// Index of the cursor in the prompt text.
    #[verifier::when_used_as_spec(spec_pos)]
    pub fn pos(&self) -> (p: usize)
        ensures
            p == self.spec_pos(),
    {
        self.pos
    }

    /// Whether the cursor is shown.
    #[verifier::when_used_as_spec(spec_enabled)]
    pub fn enabled(&self) -> (b: bool)
        ensures
            b == self.spec_enabled(),
    {
        self.enable
    }
}

impl Default for TerminalCursor {
    /// A shown cursor at the start.
    fn default() -> (c: Self)
        ensures
            c.spec_pos() == 0,
            c.spec_enabled(),
    {
        TerminalCursor { pos: 0, enable: true }
    }
}

/// Size of the terminal, in cells.
#[derive(Debug, Clone, Copy)]
pub struct TerminalStat {
    pub rows: usize,
    pub cols: usize,
}

/// Whether a frame buffer of `len` cells holds every row of `stat`, and the
/// terminal has at least one row.
pub open spec fn fits(stat: TerminalStat, len: int) -> bool {
    &&& stat.rows >= 1
    &&& stat.rows * stat.cols <= len
}

/// Index of the first cell of `row`.
pub fn calc_row_start(stat: TerminalStat, row: usize) -> (start: usize)
    requires
        row * stat.cols <= usize::MAX,
    ensures
        start == row * stat.cols,
{
    row * stat.cols
}

/// Row `r` ends inside a buffer that holds `rows` rows.
proof fn lemma_row_in_bounds(r: int, rows: int, cols: int)
    by (nonlinear_arith)
    requires
        0 <= r < rows,
        0 <= cols,
    ensures
        r * cols + cols <= rows * cols,
        (r + 1) * cols == r * cols + cols,
        0 <= r * cols,
{
}

/// The buffer after every row moved up by one: row `i` takes the content of
/// row `i + 1`, the last row becomes blank, cells past the last row stay.
pub open spec fn shift_rows(fb: Seq<CharCell>, stat: TerminalStat) -> Seq<CharCell> {
    Seq::new(
        fb.len(),
        |i: int|
            if i < (stat.rows - 1) * stat.cols {
                fb[i + stat.cols]
            } else if i < stat.rows * stat.cols {
                space_cell()
            } else {
                fb[i]
            },
    )
}

/// The buffer after `k` moves up by one row.
pub open spec fn shift_rows_n(fb: Seq<CharCell>, stat: TerminalStat, k: nat) -> Seq<CharCell>
    decreases k,
{
    if k == 0 {
        fb
    } else {
        shift_rows(shift_rows_n(fb, stat, (k - 1) as nat), stat)
    }
}

/// The prompt's start row after `k` moves up.
pub open spec fn row_after_shifts(row: Option<usize>, k: nat) -> Option<usize> {
    match row {
        Some(v) => Some((v - k) as usize),
        None => None,
    }
}

/// Scrolls the buffer up by one row and moves the row indexes with it.
pub fn shift_up(
    fb: &mut Vec<CharCell>,
    stat: TerminalStat,
    current_row: &mut usize,
    prompt_start_row: &mut Option<usize>,
)
    requires
        fits(stat, old(fb)@.len() as int),
        *old(current_row) >= 1,
        *old(prompt_start_row) matches Some(v) ==> v >= 1,
    ensures
        final(fb)@.len() == old(fb)@.len(),
        final(fb)@ == shift_rows(old(fb)@, stat),
        *final(current_row) == *old(current_row) - 1,
        *final(prompt_start_row) == row_after_shifts(*old(prompt_start_row), 1),
{
    let ghost before = fb@;
    let fb_len = fb.len();
    let rows = stat.rows;
    let cols = stat.cols;
    proof {
        lemma_row_in_bounds(rows - 1, rows as int, cols as int);
        assert((rows - 1) * cols + cols <= rows * cols);
        assert(rows * cols <= fb@.len());
    }
    let last_start = calc_row_start(stat, rows - 1);
    let mut i: usize = 0;
    while i < last_start
        invariant
            fb@.len() == before.len(),
            fb_len == before.len(),
            last_start == (stat.rows - 1) * stat.cols,
            last_start + stat.cols <= before.len(),
            stat.rows == rows,
            stat.cols == cols,
            0 <= i <= last_start,
            forall|j: int| 0 <= j < i ==> fb@[j] == before[j + cols],
            forall|j: int| i <= j < fb@.len() ==> fb@[j] == before[j],
        decreases last_start - i,
    {
        let c = fb[i + cols];
        fb.set(i, c);
        i = i + 1;
    }
    let end = last_start + cols;
    while i < end
        invariant
            fb@.len() == before.len(),
            last_start == (stat.rows - 1) * stat.cols,
            end == stat.rows * stat.cols,
            end <= before.len(),
            stat.rows == rows,
            stat.cols == cols,
            last_start <= i <= end,
            forall|j: int| 0 <= j < last_start ==> fb@[j] == before[j + cols],
            forall|j: int| last_start <= j < i ==> fb@[j] == space_cell(),
            forall|j: int| i <= j < fb@.len() ==> fb@[j] == before[j],
        decreases end - i,
    {
        fb.set(i, CharCell::from_u8_lossy(32));
        i = i + 1;
    }
    assert(fb@ =~= shift_rows(before, stat));
    *current_row = *current_row - 1;
    match prompt_start_row {
        Some(v) => {
            *v = *v - 1;
        },
        None => {},
    }
}

/// The cells of one drawn row: the prefix, then the text, then spaces up to
/// `cols` cells.
pub open spec fn row_cells(pfx: Seq<CharCell>, text: Seq<CharCell>, cols: int) -> Seq<CharCell> {
    Seq::new(
        cols as nat,
        |c: int|
            if c < pfx.len() {
                pfx[c]
            } else if c - pfx.len() < text.len() {
                text[c - pfx.len()]
            } else {
                space_cell()
            },
    )
}

/// `fb` with the cells from `start` on replaced by `row`.
pub open spec fn splice(fb: Seq<CharCell>, start: int, row: Seq<CharCell>) -> Seq<CharCell> {
    Seq::new(
        fb.len(),
        |i: int|
            if start <= i < start + row.len() {
                row[i - start]
            } else {
                fb[i]
            },
    )
}

/// Writes one row: the prefix, then the text, then spaces up to `cols` cells.
fn write_row(
    fb: &mut Vec<CharCell>,
    start: usize,
    cols: usize,
    pfx: &[CharCell],
    text: &[CharCell],
)
    requires
        start + cols <= old(fb)@.len(),
        pfx@.len() + text@.len() <= cols,
    ensures
        final(fb)@ == splice(old(fb)@, start as int, row_cells(pfx@, text@, cols as int)),
{
    let ghost before = fb@;
    let fb_len = fb.len();
    let ghost row = row_cells(pfx@, text@, cols as int);
    let mut col: usize = 0;
    while col < pfx.len()
        invariant
            fb@.len() == before.len(),
            fb_len == before.len(),
            start + cols <= before.len(),
            pfx@.len() + text@.len() <= cols,
            row == row_cells(pfx@, text@, cols as int),
            0 <= col <= pfx@.len(),
            forall|j: int| start <= j < start + col ==> fb@[j] == row[j - start],
            forall|j: int| 0 <= j < fb@.len() && !(start <= j < start + col) ==> fb@[j] == before[j],
        decreases pfx@.len() - col,
    {
        fb.set(start + col, pfx[col]);
        col = col + 1;
    }
    let mut t: usize = 0;
    while t < text.len()
        invariant
            fb@.len() == before.len(),
            fb_len == before.len(),
            start + cols <= before.len(),
            pfx@.len() + text@.len() <= cols,
            row == row_cells(pfx@, text@, cols as int),
            col == pfx@.len() + t,
            0 <= t <= text@.len(),
            forall|j: int| start <= j < start + col ==> fb@[j] == row[j - start],
            forall|j: int| 0 <= j < fb@.len() && !(start <= j < start + col) ==> fb@[j] == before[j],
        decreases text@.len() - t,
    {
        fb.set(start + col, text[t]);
        col = col + 1;
        t = t + 1;
    }
    while col < cols
        invariant
            fb@.len() == before.len(),
            fb_len == before.len(),
            start + cols <= before.len(),
            pfx@.len() + text@.len() <= cols,
            row == row_cells(pfx@, text@, cols as int),
            pfx@.len() + text@.len() <= col <= cols,
            forall|j: int| start <= j < start + col ==> fb@[j] == row[j - start],
            forall|j: int| 0 <= j < fb@.len() && !(start <= j < start + col) ==> fb@[j] == before[j],
        decreases cols - col,
    {
        fb.set(start + col, CharCell::from_u8_lossy(32));
        col = col + 1;
    }
    assert(fb@ =~= splice(before, start as int, row));
}

/// How many rows a text of `len` cells takes when each row holds `usable`
/// cells of it: at least one.
pub open spec fn chunk_count(len: int, usable: int) -> int {
    if len <= usable {
        1
    } else {
        (len - 1) / usable + 1
    }
}

/// The part of `text` shown on its `i`-th row.
pub open spec fn chunk_of<T>(text: Seq<T>, usable: int, i: int) -> Seq<T> {
    let start = i * usable;
    let end = if text.len() - start < usable {
        text.len() as int
    } else {
        start + usable
    };
    text.subrange(start, end)
}

/// How many rows must scroll away so that `n` rows fit from `row` on.
pub open spec fn shifts_needed(row: int, n: int, rows: int) -> nat {
    if row + n > rows {
        (row + n - rows) as nat
    } else {
        0
    }
}

/// The prefix as cells; none gives no cell.
pub open spec fn opt_cells(o: Option<&[CharCell]>) -> Seq<CharCell> {
    match o {
        Some(s) => s@,
        None => Seq::empty(),
    }
}

/// The buffer after the first `n` rows of `line` were drawn from row
/// `first_row` on, the first with `pfx` in front, the others with `wrap`.
pub open spec fn drawn_lines(
    base: Seq<CharCell>,
    cols: int,
    first_row: int,
    line: Seq<CharCell>,
    pfx: Seq<CharCell>,
    wrap: Seq<CharCell>,
    usable: int,
    n: nat,
) -> Seq<CharCell>
    decreases n,
{
    if n == 0 {
        base
    } else {
        let i = n - 1;
        splice(
            drawn_lines(base, cols, first_row, line, pfx, wrap, usable, (n - 1) as nat),
            (first_row + i) * cols,
            row_cells(
                if i == 0 {
                    pfx
                } else {
                    wrap
                },
                chunk_of(line, usable, i),
                cols,
            ),
        )
    }
}

/// Chunk `i` of a text starts inside it, and its end stays within the text.
proof fn lemma_chunk_start(len: int, usable: int, i: int)
    by (nonlinear_arith)
    requires
        usable > 0,
        0 <= i < chunk_count(len, usable),
        len >= 0,
    ensures
        0 <= i * usable,
        len > 0 ==> i * usable < len,
        len == 0 ==> i == 0,
{
}

/// Whether the prefixes fit the row: equal lengths, shorter than a row.
pub open spec fn prefixes_fit(pfx: Seq<CharCell>, wrap: Seq<CharCell>, cols: int) -> bool {
    pfx.len() == wrap.len() && pfx.len() < cols
}

/// The buffer after a line was drawn below row `row`: scrolled up as far
/// as needed, then each row of the line written.
pub open spec fn line_drawn(
    fb: Seq<CharCell>,
    stat: TerminalStat,
    row: int,
    line: Seq<CharCell>,
    pfx: Seq<CharCell>,
    wrap: Seq<CharCell>,
) -> Seq<CharCell> {
    let usable = stat.cols - pfx.len();
    let n = chunk_count(line.len() as int, usable);
    let k = shifts_needed(row, n, stat.rows as int);
    drawn_lines(shift_rows_n(fb, stat, k), stat.cols as int, row - k, line, pfx, wrap, usable, n as nat)
}

/// The row below a line of `len` cells drawn below row `row`.
pub open spec fn row_after_line(row: int, len: int, usable: int, rows: int) -> int {
    let n = chunk_count(len, usable);
    row - shifts_needed(row, n, rows) + n
}

/// Draws a line with wrapping below the current row, first scrolling up as
/// many rows as it needs. Rows after the first carry `wrap_prefix`.
pub fn draw_line(
    fb: &mut Vec<CharCell>,
    stat: TerminalStat,
    line: &[CharCell],
    prefix: Option<&[CharCell]>,
    wrap_prefix: Option<&[CharCell]>,
    current_row: &mut usize,
    prompt_start_row: &mut Option<usize>,
)
    requires
        fits(stat, old(fb)@.len() as int),
        prefixes_fit(opt_cells(prefix), opt_cells(wrap_prefix), stat.cols as int),
        chunk_count(line@.len() as int, stat.cols - opt_cells(prefix).len()) <= stat.rows,
        *old(current_row) <= stat.rows,
        *old(prompt_start_row) matches Some(v) ==> v >= shifts_needed(
            *old(current_row) as int,
            chunk_count(line@.len() as int, stat.cols - opt_cells(prefix).len()),
            stat.rows as int,
        ),
    ensures
        final(fb)@.len() == old(fb)@.len(),
        final(fb)@ == line_drawn(
            old(fb)@,
            stat,
            *old(current_row) as int,
            line@,
            opt_cells(prefix),
            opt_cells(wrap_prefix),
        ),
        *final(current_row) == row_after_line(
            *old(current_row) as int,
            line@.len() as int,
            stat.cols - opt_cells(prefix).len(),
            stat.rows as int,
        ),
        *final(prompt_start_row) == row_after_shifts(
            *old(prompt_start_row),
            shifts_needed(
                *old(current_row) as int,
                chunk_count(line@.len() as int, stat.cols - opt_cells(prefix).len()),
                stat.rows as int,
            ),
        ),
{
    let ghost fb0 = fb@;
    let ghost row0 = *current_row;
    let ghost psr0 = *prompt_start_row;
    let plen: usize = match prefix {
        Some(p) => p.len(),
        None => 0,
    };
    let usable = stat.cols - plen;
    let len = line.len();
    let num_chunks: usize = if len <= usable {
        1
    } else {
        (len - 1) / usable + 1
    };
    let ghost k = shifts_needed(row0 as int, num_chunks as int, stat.rows as int);
    let ghost mut j: nat = 0;
    let fb_len = fb.len();
    while *current_row > stat.rows - num_chunks
        invariant
            fb_len == fb0.len(),
            fits(stat, fb0.len() as int),
            fb@.len() == fb0.len(),
            num_chunks <= stat.rows,
            row0 <= stat.rows,
            k == shifts_needed(row0 as int, num_chunks as int, stat.rows as int),
            psr0 matches Some(v) ==> v >= k,
            j <= k,
            *current_row == row0 - j,
            fb@ == shift_rows_n(fb0, stat, j),
            *prompt_start_row == row_after_shifts(psr0, j),
        decreases *current_row,
    {
        shift_up(fb, stat, current_row, prompt_start_row);
        proof {
            j = j + 1;
        }
    }
    assert(j == k);
    let ghost first_row = *current_row;
    let ghost base = fb@;
    let mut i: usize = 0;
    while i < num_chunks
        invariant
            fits(stat, fb0.len() as int),
            fb_len == fb0.len(),
            fb@.len() == fb0.len(),
            plen == opt_cells(prefix).len(),
            prefixes_fit(opt_cells(prefix), opt_cells(wrap_prefix), stat.cols as int),
            usable == stat.cols - plen,
            len == line@.len(),
            num_chunks == chunk_count(len as int, usable as int),
            first_row + num_chunks <= stat.rows,
            0 <= i <= num_chunks,
            *current_row == first_row + i,
            fb@ == drawn_lines(
                base,
                stat.cols as int,
                first_row as int,
                line@,
                opt_cells(prefix),
                opt_cells(wrap_prefix),
                usable as int,
                i as nat,
            ),
        decreases num_chunks - i,
    {
        let pfx: &[CharCell] = if i == 0 {
            match prefix {
                Some(p) => p,
                None => &[],
            }
        } else {
            match wrap_prefix {
                Some(p) => p,
                None => &[],
            }
        };
        proof {
            lemma_chunk_start(len as int, usable as int, i as int);
        }
        let chunk_start = i * usable;
        let chunk_end = if len - chunk_start < usable {
            len
        } else {
            chunk_start + usable
        };
        let text = &line[chunk_start..chunk_end];
        proof {
            lemma_row_in_bounds(*current_row as int, stat.rows as int, stat.cols as int);
        }
        let row_start = calc_row_start(stat, *current_row);
        write_row(fb, row_start, stat.cols, pfx, text);
        *current_row = *current_row + 1;
        i = i + 1;
    }
}

/// A cell with its invert bit set to `on`.
pub open spec fn inverted(c: CharCell, on: bool) -> CharCell {
    CharCell { glyph: c.glyph, attrs: with_invert(c.attrs, on) }
}

/// The buffer after the first `n` rows of the prompt text `text` were drawn
/// from row `first_row` on, each followed by marking the cursor when it
/// falls in that row's part of the text (from its first cell up to the cell
/// just past its last one).
pub open spec fn drawn_prompt(
    base: Seq<CharCell>,
    cols: int,
    first_row: int,
    text: Seq<u8>,
    pfx: Seq<CharCell>,
    wrap: Seq<CharCell>,
    usable: int,
    cursor_pos: int,
    cursor_on: bool,
    n: nat,
) -> Seq<CharCell>
    decreases n,
{
    if n == 0 {
        base
    } else {
        let i = n - 1;
        let written = splice(
            drawn_prompt(
                base,
                cols,
                first_row,
                text,
                pfx,
                wrap,
                usable,
                cursor_pos,
                cursor_on,
                (n - 1) as nat,
            ),
            (first_row + i) * cols,
            row_cells(
                if i == 0 {
                    pfx
                } else {
                    wrap
                },
                cells_of(chunk_of(text, usable, i)),
                cols,
            ),
        );
        if i * usable <= cursor_pos <= i * usable + usable {
            let idx = (first_row + i) * cols + pfx.len() + (cursor_pos - i * usable);
            written.update(idx, inverted(written[idx], cursor_on))
        } else {
            written
        }
    }
}

/// Whether row `row` of the buffer shows nothing.
pub open spec fn row_is_blank(fb: Seq<CharCell>, cols: int, row: int) -> bool {
    forall|c: int| 0 <= c < cols ==> is_blank(#[trigger] fb[row * cols + c])
}

/// The buffer after the rows from `row` on were blanked one by one, up to
/// the first row that already shows nothing or the end of the terminal.
pub open spec fn cleared_stale_rows(fb: Seq<CharCell>, stat: TerminalStat, row: int) -> Seq<CharCell>
    decreases stat.rows - row,
{
    if row >= stat.rows || row < 0 || row_is_blank(fb, stat.cols as int, row) {
        fb
    } else {
        cleared_stale_rows(
            splice(fb, row * stat.cols, row_cells(Seq::empty(), Seq::empty(), stat.cols as int)),
            stat,
            row + 1,
        )
    }
}

/// The rows of a prompt hold one cell more than its text.
proof fn lemma_chunks_cover(len: int, usable: int, n: int)
    by (nonlinear_arith)
    requires
        usable > 0,
        len >= 0,
        n == chunk_count(len + 1, usable),
    ensures
        n * usable > len,
{
    if len + 1 > usable {
        assert(len / usable * usable + len % usable == len);
        assert(n * usable == len / usable * usable + usable);
    }
}

/// The buffer cell of `(row, col)` lies inside the rows of the terminal.
proof fn lemma_cell_in_bounds(row: int, col: int, rows: int, cols: int)
    by (nonlinear_arith)
    requires
        0 <= row < rows,
        0 <= col < cols,
    ensures
        0 <= row * cols + col < rows * cols,
{
}

/// The row where a prompt that starts at `start` begins once it fits.
pub open spec fn prompt_first_row(start: int, len: int, usable: int, rows: int) -> int {
    start - shifts_needed(start, chunk_count(len + 1, usable), rows)
}

/// The row below a prompt of `len` bytes that starts at `start`.
pub open spec fn prompt_end_row(start: int, len: int, usable: int, rows: int) -> int {
    prompt_first_row(start, len, usable, rows) + chunk_count(len + 1, usable)
}

/// The buffer after the prompt `text` was drawn from row `start`: scrolled
/// up as far as needed, each row of the prompt written with the cursor
/// marked, then the rows of an older, longer prompt blanked.
pub open spec fn prompt_drawn(
    fb: Seq<CharCell>,
    stat: TerminalStat,
    start: int,
    text: Seq<u8>,
    pfx: Seq<CharCell>,
    wrap: Seq<CharCell>,
    cursor_pos: int,
    cursor_on: bool,
) -> Seq<CharCell> {
    let usable = stat.cols - pfx.len();
    let n = chunk_count(text.len() + 1int, usable);
    let k = shifts_needed(start, n, stat.rows as int);
    cleared_stale_rows(
        drawn_prompt(
            shift_rows_n(fb, stat, k),
            stat.cols as int,
            start - k,
            text,
            pfx,
            wrap,
            usable,
            cursor_pos,
            cursor_on,
            n as nat,
        ),
        stat,
        start - k + n,
    )
}

/// Draws the prompt from its start row: the prefix and as many rows of
/// text as it needs (one cell more than the text, for the cursor), the
/// cursor cell inverted when the cursor is shown; then blanks the rows
/// below that still show an older, longer prompt. Scrolls up first when
/// the prompt does not fit.
pub fn redraw_prompt(
    fb: &mut Vec<CharCell>,
    stat: TerminalStat,
    prefix: &[CharCell],
    wrap_prefix: &[CharCell],
    current_row: &mut usize,
    prompt_start_row: &mut Option<usize>,
    prompt_cursor: TerminalCursor,
    prompt_buffer: &[u8],
)
    requires
        fits(stat, old(fb)@.len() as int),
        prefixes_fit(prefix@, wrap_prefix@, stat.cols as int),
        *old(prompt_start_row) is Some,
        (*old(prompt_start_row)).unwrap() <= stat.rows,
        chunk_count(prompt_buffer@.len() + 1int, stat.cols - prefix@.len()) <= stat.rows,
        *old(current_row) >= shifts_needed(
            (*old(prompt_start_row)).unwrap() as int,
            chunk_count(prompt_buffer@.len() + 1int, stat.cols - prefix@.len()),
            stat.rows as int,
        ),
        prompt_cursor.spec_pos() == chunk_count(
            prompt_buffer@.len() + 1int,
            stat.cols - prefix@.len(),
        ) * (stat.cols - prefix@.len()) ==> (prompt_first_row(
            (*old(prompt_start_row)).unwrap() as int,
            prompt_buffer@.len() as int,
            stat.cols - prefix@.len(),
            stat.rows as int,
        ) + chunk_count(prompt_buffer@.len() + 1int, stat.cols - prefix@.len())) * stat.cols
            < old(fb)@.len(),
    ensures
        final(fb)@.len() == old(fb)@.len(),
        final(fb)@ == prompt_drawn(
            old(fb)@,
            stat,
            (*old(prompt_start_row)).unwrap() as int,
            prompt_buffer@,
            prefix@,
            wrap_prefix@,
            prompt_cursor.spec_pos() as int,
            prompt_cursor.spec_enabled(),
        ),
        *final(current_row) == prompt_end_row(
            (*old(prompt_start_row)).unwrap() as int,
            prompt_buffer@.len() as int,
            stat.cols - prefix@.len(),
            stat.rows as int,
        ),
        *final(prompt_start_row) == Some(
            prompt_first_row(
                (*old(prompt_start_row)).unwrap() as int,
                prompt_buffer@.len() as int,
                stat.cols - prefix@.len(),
                stat.rows as int,
            ) as usize,
        ),
{
    let ghost fb0 = fb@;
    let ghost row0 = *current_row;
    let ghost psr0 = *prompt_start_row;
    let fb_len = fb.len();
    let plen = prefix.len();
    let usable = stat.cols - plen;
    let len = prompt_buffer.len();
    let num_chunks: usize = if len < usable {
        1
    } else {
        len / usable + 1
    };
    assert(num_chunks == chunk_count(len + 1, usable as int));
    let ghost k = shifts_needed(psr0.unwrap() as int, num_chunks as int, stat.rows as int);
    let ghost mut j: nat = 0;
    while prompt_start_row.unwrap() > stat.rows - num_chunks
        invariant
            fits(stat, fb0.len() as int),
            fb_len == fb0.len(),
            fb@.len() == fb0.len(),
            num_chunks <= stat.rows,
            psr0 is Some,
            psr0.unwrap() <= stat.rows,
            row0 >= k,
            k == shifts_needed(psr0.unwrap() as int, num_chunks as int, stat.rows as int),
            j <= k,
            *current_row == row0 - j,
            fb@ == shift_rows_n(fb0, stat, j),
            *prompt_start_row == row_after_shifts(psr0, j),
        decreases prompt_start_row.unwrap(),
    {
        shift_up(fb, stat, current_row, prompt_start_row);
        proof {
            j = j + 1;
        }
    }
    assert(j == k);
    let first = prompt_start_row.unwrap();
    *current_row = first;
    let ghost base = fb@;
    let pos = prompt_cursor.pos();
    let on = prompt_cursor.enabled();
    let mut i: usize = 0;
    while i < num_chunks
        invariant
            fits(stat, fb0.len() as int),
            fb_len == fb0.len(),
            fb@.len() == fb0.len(),
            plen == prefix@.len(),
            prefixes_fit(prefix@, wrap_prefix@, stat.cols as int),
            usable == stat.cols - plen,
            len == prompt_buffer@.len(),
            pos == prompt_cursor.spec_pos(),
            on == prompt_cursor.spec_enabled(),
            pos == num_chunks * usable ==> (first + num_chunks) * stat.cols < fb0.len(),
            num_chunks == chunk_count(len + 1, usable as int),
            first + num_chunks <= stat.rows,
            0 <= i <= num_chunks,
            *current_row == first + i,
            fb@ == drawn_prompt(
                base,
                stat.cols as int,
                first as int,
                prompt_buffer@,
                prefix@,
                wrap_prefix@,
                usable as int,
                pos as int,
                on,
                i as nat,
            ),
        decreases num_chunks - i,
    {
        let pfx: &[CharCell] = if i == 0 {
            prefix
        } else {
            wrap_prefix
        };
        proof {
            lemma_chunk_start(len + 1, usable as int, i as int);
        }
        let text_start = i * usable;
        let text_end = if len - text_start < usable {
            len
        } else {
            text_start + usable
        };
        let text = char_cells_lossy(&prompt_buffer[text_start..text_end]);
        proof {
            lemma_row_in_bounds(*current_row as int, stat.rows as int, stat.cols as int);
        }
        let row_start = calc_row_start(stat, *current_row);
        write_row(fb, row_start, stat.cols, pfx, text.as_slice());
        if text_start <= pos && pos - text_start <= usable {
            proof {
                if pos - text_start < usable {
                    lemma_cell_in_bounds(
                        *current_row as int,
                        plen + pos - text_start,
                        stat.rows as int,
                        stat.cols as int,
                    );
                } else {
                    assert((i + 1) * usable == i * usable + usable) by (nonlinear_arith);
                    assert((*current_row + 1) * stat.cols == *current_row * stat.cols + stat.cols)
                        by (nonlinear_arith);
                    if i + 1 < num_chunks {
                        lemma_cell_in_bounds(
                            *current_row + 1,
                            0,
                            stat.rows as int,
                            stat.cols as int,
                        );
                    }
                }
            }
            let idx = row_start + plen + (pos - text_start);
            let mut cell = fb[idx];
            cell.attrs.set_invert(on);
            fb.set(idx, cell);
        }
        *current_row = *current_row + 1;
        i = i + 1;
    }
    let ghost drawn = fb@;
    loop
        invariant
            fits(stat, fb0.len() as int),
            fb_len == fb0.len(),
            fb@.len() == fb0.len(),
            first + num_chunks <= *current_row,
            cleared_stale_rows(fb@, stat, *current_row as int) == cleared_stale_rows(
                drawn,
                stat,
                first + num_chunks,
            ),
        ensures
            fb@ == cleared_stale_rows(drawn, stat, first + num_chunks),
        decreases stat.rows - *current_row,
    {
        if *current_row >= stat.rows {
            break;
        }
        proof {
            lemma_row_in_bounds(*current_row as int, stat.rows as int, stat.cols as int);
        }
        let row_start = calc_row_start(stat, *current_row);
        let blank = are_cells_blank(&fb.as_slice()[row_start..row_start + stat.cols]);
        if blank {
            proof {
                assert forall|c: int| 0 <= c < stat.cols implies is_blank(
                    #[trigger] fb@[*current_row * stat.cols + c],
                ) by {
                    assert(fb@.subrange(row_start as int, row_start + stat.cols)[c] == fb@[row_start + c]);
                }
            }
            break;
        }
        let ghost fb_before = fb@;
        proof {
            let row = fb@.subrange(row_start as int, row_start + stat.cols);
            let c = choose|c: int| 0 <= c < row.len() && !is_blank(#[trigger] row[c]);
            assert(row[c] == fb@[*current_row * stat.cols + c]);
            assert(!row_is_blank(fb@, stat.cols as int, *current_row as int));
        }
        let empty: &[CharCell] = &[];
        assert(empty@ =~= Seq::<CharCell>::empty());
        write_row(fb, row_start, stat.cols, empty, empty);
        *current_row = *current_row + 1;
    }
    *current_row = first + num_chunks;
}

/// The cells that show the bytes of `bytes`, one cell per byte.
fn char_cells_lossy(bytes: &[u8]) -> (cells: Vec<CharCell>)
    ensures
        cells@ == cells_of(bytes@),
{
    let mut cells: Vec<CharCell> = Vec::new();
    let mut i: usize = 0;
    while i < bytes.len()
        invariant
            0 <= i <= bytes@.len(),
            cells@ == cells_of(bytes@.subrange(0, i as int)),
        decreases bytes@.len() - i,
    {
        cells.push(CharCell::from_u8_lossy(bytes[i]));
        i = i + 1;
        assert(cells@ =~= cells_of(bytes@.subrange(0, i as int)));
    }
    assert(bytes@.subrange(0, bytes@.len() as int) =~= bytes@);
    cells
}

/// The cells in front of the prompt's first row: `?>`.
pub open spec fn prompt_prefix_cells() -> Seq<CharCell> {
    seq![cell_of(63), cell_of(62)]
}

/// The cells in front of each further row of the prompt: `->`.
pub open spec fn prompt_wrap_prefix_cells() -> Seq<CharCell> {
    seq![cell_of(45), cell_of(62)]
}

/// The cells in front of the prompt's first row: `?>`.
pub fn prompt_prefix() -> (p: [CharCell; 2])
    ensures
        p@ == prompt_prefix_cells(),
{
    let p = [CharCell::from_u8_lossy(63), CharCell::from_u8_lossy(62)];
    assert(p@ =~= prompt_prefix_cells());
    p
}

/// The cells in front of each further row of the prompt: `->`.
pub fn prompt_wrap_prefix() -> (p: [CharCell; 2])
    ensures
        p@ == prompt_wrap_prefix_cells(),
{
    let p = [CharCell::from_u8_lossy(45), CharCell::from_u8_lossy(62)];
    assert(p@ =~= prompt_wrap_prefix_cells());
    p
}

/// A buffer of `len` zero cells.
pub open spec fn zeroed_cells(len: nat) -> Seq<CharCell> {
    Seq::new(len, |i: int| nul_cell())
}

/// A terminal: where the next output row goes, its size, and the prompt
/// being edited (its text, its start row and its cursor).
pub struct Terminal {
    current_row: usize,
    term_stat: TerminalStat,
    prompt_buffer: heapless::Vec<u8, 256>,
    prompt_start_row: Option<usize>,
    prompt_cursor: TerminalCursor,
}

impl Terminal {
    /// The row the next output goes to.
    pub closed spec fn spec_current_row(&self) -> usize {
        self.current_row
    }

    /// The size of the terminal.
    pub closed spec fn spec_stat(&self) -> TerminalStat {
        self.term_stat
    }

    /// The prompt's text.
    pub closed spec fn spec_prompt(&self) -> Seq<u8> {
        prompt_bytes(self.prompt_buffer)
    }

    /// The row the prompt starts on, while a prompt is open.
    pub closed spec fn spec_prompt_start_row(&self) -> Option<usize> {
        self.prompt_start_row
    }

    /// The prompt's cursor.
    pub closed spec fn spec_cursor(&self) -> TerminalCursor {
        self.prompt_cursor
    }

    /// Usable cells of a prompt row, after its two-cell prefix.
    pub open spec fn spec_usable(&self) -> int {
        self.spec_stat().cols - 2
    }

    /// The terminal's invariant: its cells fit a machine word, the output
    /// row is inside the terminal, and an open prompt starts at or above
    /// it, has rows wider than its prefix, fits the terminal and has its
    /// cursor at the end of its text.
    pub open spec fn wf(&self) -> bool {
        &&& self.spec_stat().rows * self.spec_stat().cols <= usize::MAX
        &&& self.spec_current_row() <= self.spec_stat().rows
        &&& self.spec_prompt().len() <= 256
        &&& self.spec_prompt_start_row() matches Some(p) ==> {
            &&& p <= self.spec_current_row()
            &&& self.spec_stat().cols > 2
            &&& self.spec_cursor().spec_pos() == self.spec_prompt().len()
            &&& chunk_count(self.spec_prompt().len() + 1int, self.spec_usable())
                <= self.spec_stat().rows
        }
    }

    /// A terminal of the given size, with the frame buffer cleared.
    pub fn setup(fb: &mut Vec<CharCell>, stat: &DisplayCharStat) -> (term: Self)
        requires
            stat.rows * stat.cols <= old(fb)@.len(),
        ensures
            term.wf(),
            term.spec_stat().rows == stat.rows,
            term.spec_stat().cols == stat.cols,
            term.spec_current_row() == 0,
            term.spec_prompt() == Seq::<u8>::empty(),
            term.spec_prompt_start_row() is None,
            term.spec_cursor().spec_pos() == 0,
            term.spec_cursor().spec_enabled(),
            final(fb)@ == zeroed_cells(old(fb)@.len()),
    {
        let mut term = Terminal {
            current_row: 0,
            term_stat: TerminalStat { rows: stat.rows as usize, cols: stat.cols as usize },
            prompt_buffer: prompt_new(),
            prompt_start_row: None,
            prompt_cursor: TerminalCursor::default(),
        };
        let fb_len = fb.len();
        assert(term.spec_stat().rows * term.spec_stat().cols <= fb_len);
        term.clear(fb);
        term
    }

    /// Zeroes the frame buffer and resets the output row and the prompt;
    /// the cursor stays.
    pub fn clear(&mut self, fb: &mut Vec<CharCell>)
        requires
            old(self).wf(),
        ensures
            final(self).wf(),
            final(self).spec_stat() == old(self).spec_stat(),
            final(self).spec_current_row() == 0,
            final(self).spec_prompt() == Seq::<u8>::empty(),
            final(self).spec_prompt_start_row() is None,
            final(self).spec_cursor() == old(self).spec_cursor(),
            final(fb)@ == zeroed_cells(old(fb)@.len()),
    {
        self.current_row = 0;
        prompt_clear(&mut self.prompt_buffer);
        self.prompt_start_row = None;
        let ghost len = fb@.len();
        let mut i: usize = 0;
        while i < fb.len()
            invariant
                fb@.len() == len,
                0 <= i <= len,
                forall|j: int| 0 <= j < i ==> fb@[j] == nul_cell(),
            decreases len - i,
        {
            fb.set(i, CharCell::from_u8_lossy(0));
            i = i + 1;
        }
        assert(fb@ =~= zeroed_cells(len));
    }

    /// Draws a line of output below the current row, wrapping it over as
    /// many rows as it needs and scrolling up when they do not fit.
    pub fn feed_output_line(&mut self, fb: &mut Vec<CharCell>, cells: &[CharCell])
        requires
            old(self).wf(),
            fits(old(self).spec_stat(), old(fb)@.len() as int),
            old(self).spec_stat().cols >= 1,
            chunk_count(cells@.len() as int, old(self).spec_stat().cols as int)
                <= old(self).spec_stat().rows,
            old(self).spec_prompt_start_row() matches Some(v) ==> v >= shifts_needed(
                old(self).spec_current_row() as int,
                chunk_count(cells@.len() as int, old(self).spec_stat().cols as int),
                old(self).spec_stat().rows as int,
            ),
        ensures
            final(fb)@.len() == old(fb)@.len(),
            final(self).wf(),
            final(self).spec_stat() == old(self).spec_stat(),
            final(self).spec_prompt() == old(self).spec_prompt(),
            final(self).spec_cursor() == old(self).spec_cursor(),
            final(fb)@ == line_drawn(
                old(fb)@,
                old(self).spec_stat(),
                old(self).spec_current_row() as int,
                cells@,
                Seq::empty(),
                Seq::empty(),
            ),
            final(self).spec_current_row() == row_after_line(
                old(self).spec_current_row() as int,
                cells@.len() as int,
                old(self).spec_stat().cols as int,
                old(self).spec_stat().rows as int,
            ),
            final(self).spec_prompt_start_row() == row_after_shifts(
                old(self).spec_prompt_start_row(),
                shifts_needed(
                    old(self).spec_current_row() as int,
                    chunk_count(cells@.len() as int, old(self).spec_stat().cols as int),
                    old(self).spec_stat().rows as int,
                ),
            ),
    {
        assert(opt_cells(None) =~= Seq::<CharCell>::empty());
        draw_line(
            fb,
            self.term_stat,
            cells,
            None,
            None,
            &mut self.current_row,
            &mut self.prompt_start_row,
        );
    }

    /// Redraws the open prompt with the current text and cursor.
    fn redraw(&mut self, fb: &mut Vec<CharCell>)
        requires
            fits(old(self).spec_stat(), old(fb)@.len() as int),
            old(self).spec_stat().cols > 2,
            old(self).spec_stat().rows * old(self).spec_stat().cols <= usize::MAX,
            old(self).spec_prompt_start_row() matches Some(p) && p <= old(self).spec_current_row()
                && old(self).spec_current_row() <= old(self).spec_stat().rows,
            old(self).spec_cursor().spec_pos() <= old(self).spec_prompt().len(),
            old(self).spec_prompt().len() <= 256,
            chunk_count(old(self).spec_prompt().len() + 1int, old(self).spec_usable())
                <= old(self).spec_stat().rows,
        ensures
            final(fb)@.len() == old(fb)@.len(),
            final(self).spec_stat() == old(self).spec_stat(),
            final(self).spec_prompt() == old(self).spec_prompt(),
            final(self).spec_cursor() == old(self).spec_cursor(),
            final(fb)@ == prompt_drawn(
                old(fb)@,
                old(self).spec_stat(),
                old(self).spec_prompt_start_row().unwrap() as int,
                old(self).spec_prompt(),
                prompt_prefix_cells(),
                prompt_wrap_prefix_cells(),
                old(self).spec_cursor().spec_pos() as int,
                old(self).spec_cursor().spec_enabled(),
            ),
            final(self).spec_current_row() == prompt_end_row(
                old(self).spec_prompt_start_row().unwrap() as int,
                old(self).spec_prompt().len() as int,
                old(self).spec_usable(),
                old(self).spec_stat().rows as int,
            ),
            final(self).spec_prompt_start_row() == Some(
                prompt_first_row(
                    old(self).spec_prompt_start_row().unwrap() as int,
                    old(self).spec_prompt().len() as int,
                    old(self).spec_usable(),
                    old(self).spec_stat().rows as int,
                ) as usize,
            ),
    {
        proof {
            lemma_chunks_cover(
                self.spec_prompt().len() as int,
                self.spec_usable(),
                chunk_count(self.spec_prompt().len() + 1int, self.spec_usable()),
            );
        }
        let prefix = prompt_prefix();
        let wrap = prompt_wrap_prefix();
        let text = prompt_as_slice(&self.prompt_buffer);
        redraw_prompt(
            fb,
            self.term_stat,
            prefix.as_slice(),
            wrap.as_slice(),
            &mut self.current_row,
            &mut self.prompt_start_row,
            self.prompt_cursor,
            text,
        );
    }

    /// Opens an empty prompt on the current row.
    pub fn start_prompt(&mut self, fb: &mut Vec<CharCell>)
        requires
            old(self).wf(),
            fits(old(self).spec_stat(), old(fb)@.len() as int),
            old(self).spec_stat().cols > 2,
        ensures
            final(fb)@.len() == old(fb)@.len(),
            final(self).wf(),
            final(self).spec_stat() == old(self).spec_stat(),
            final(self).spec_prompt() == Seq::<u8>::empty(),
            final(self).spec_cursor().spec_pos() == 0,
            final(self).spec_cursor().spec_enabled(),
            final(fb)@ == prompt_drawn(
                old(fb)@,
                old(self).spec_stat(),
                old(self).spec_current_row() as int,
                Seq::empty(),
                prompt_prefix_cells(),
                prompt_wrap_prefix_cells(),
                0,
                true,
            ),
            final(self).spec_current_row() == prompt_end_row(
                old(self).spec_current_row() as int,
                0,
                old(self).spec_usable(),
                old(self).spec_stat().rows as int,
            ),
            final(self).spec_prompt_start_row() == Some(
                prompt_first_row(
                    old(self).spec_current_row() as int,
                    0,
                    old(self).spec_usable(),
                    old(self).spec_stat().rows as int,
                ) as usize,
            ),
    {
        prompt_clear(&mut self.prompt_buffer);
        self.prompt_cursor.enable();
        self.prompt_start_row = Some(self.current_row);
        self.redraw(fb);
    }

    /// Appends a byte to the prompt and redraws it; hands the byte back when
    /// the prompt is full.
    pub fn feed_prompt(&mut self, fb: &mut Vec<CharCell>, glyph: u8) -> (r: Result<(), u8>)
        requires
            old(self).wf(),
            fits(old(self).spec_stat(), old(fb)@.len() as int),
            old(self).spec_prompt().len() < 256 ==> old(self).spec_prompt_start_row() is Some
                && chunk_count(old(self).spec_prompt().len() + 2int, old(self).spec_usable())
                <= old(self).spec_stat().rows,
        ensures
            final(fb)@.len() == old(fb)@.len(),
            final(self).wf(),
            final(self).spec_stat() == old(self).spec_stat(),
            old(self).spec_prompt().len() >= 256 ==> {
                &&& (r matches Err(e) && e == glyph)
                &&& final(self).spec_prompt() == old(self).spec_prompt()
                &&& final(self).spec_cursor() == old(self).spec_cursor()
                &&& final(self).spec_current_row() == old(self).spec_current_row()
                &&& final(self).spec_prompt_start_row() == old(self).spec_prompt_start_row()
                &&& final(fb)@ == old(fb)@
            },
            old(self).spec_prompt().len() < 256 ==> {
                &&& r is Ok
                &&& final(self).spec_prompt() == old(self).spec_prompt().push(glyph)
                &&& final(self).spec_cursor().spec_pos() == old(self).spec_cursor().spec_pos() + 1
                &&& final(self).spec_cursor().spec_enabled() == old(
                    self,
                ).spec_cursor().spec_enabled()
                &&& final(fb)@ == prompt_drawn(
                    old(fb)@,
                    old(self).spec_stat(),
                    old(self).spec_prompt_start_row().unwrap() as int,
                    old(self).spec_prompt().push(glyph),
                    prompt_prefix_cells(),
                    prompt_wrap_prefix_cells(),
                    old(self).spec_cursor().spec_pos() + 1,
                    old(self).spec_cursor().spec_enabled(),
                )
                &&& final(self).spec_current_row() == prompt_end_row(
                    old(self).spec_prompt_start_row().unwrap() as int,
                    old(self).spec_prompt().len() + 1int,
                    old(self).spec_usable(),
                    old(self).spec_stat().rows as int,
                )
                &&& final(self).spec_prompt_start_row() == Some(
                    prompt_first_row(
                        old(self).spec_prompt_start_row().unwrap() as int,
                        old(self).spec_prompt().len() + 1int,
                        old(self).spec_usable(),
                        old(self).spec_stat().rows as int,
                    ) as usize,
                )
            },
    {
        let pushed = prompt_push(&mut self.prompt_buffer, glyph);
        match pushed {
            Err(b) => {
                return Err(b);
            },
            Ok(()) => {},
        }
        self.prompt_cursor.move_right(1);
        self.redraw(fb);
        Ok(())
    }

    /// Removes the last byte of the prompt and redraws it; does nothing when
    /// the prompt is empty.
    pub fn feed_prompt_backspace(&mut self, fb: &mut Vec<CharCell>)
        requires
            old(self).wf(),
            fits(old(self).spec_stat(), old(fb)@.len() as int),
            old(self).spec_prompt().len() > 0 ==> old(self).spec_prompt_start_row() is Some,
        ensures
            final(fb)@.len() == old(fb)@.len(),
            final(self).wf(),
            final(self).spec_stat() == old(self).spec_stat(),
            old(self).spec_prompt().len() == 0 ==> {
                &&& final(self).spec_prompt() == old(self).spec_prompt()
                &&& final(self).spec_cursor() == old(self).spec_cursor()
                &&& final(self).spec_current_row() == old(self).spec_current_row()
                &&& final(self).spec_prompt_start_row() == old(self).spec_prompt_start_row()
                &&& final(fb)@ == old(fb)@
            },
            old(self).spec_prompt().len() > 0 ==> {
                &&& final(self).spec_prompt() == old(self).spec_prompt().drop_last()
                &&& final(self).spec_cursor().spec_pos() == old(self).spec_cursor().spec_pos() - 1
                &&& final(self).spec_cursor().spec_enabled() == old(
                    self,
                ).spec_cursor().spec_enabled()
                &&& final(fb)@ == prompt_drawn(
                    old(fb)@,
                    old(self).spec_stat(),
                    old(self).spec_prompt_start_row().unwrap() as int,
                    old(self).spec_prompt().drop_last(),
                    prompt_prefix_cells(),
                    prompt_wrap_prefix_cells(),
                    old(self).spec_cursor().spec_pos() - 1,
                    old(self).spec_cursor().spec_enabled(),
                )
                &&& final(self).spec_current_row() == prompt_end_row(
                    old(self).spec_prompt_start_row().unwrap() as int,
                    old(self).spec_prompt().len() - 1,
                    old(self).spec_usable(),
                    old(self).spec_stat().rows as int,
                )
                &&& final(self).spec_prompt_start_row() == Some(
                    prompt_first_row(
                        old(self).spec_prompt_start_row().unwrap() as int,
                        old(self).spec_prompt().len() - 1,
                        old(self).spec_usable(),
                        old(self).spec_stat().rows as int,
                    ) as usize,
                )
            },
    {
        let popped = prompt_pop(&mut self.prompt_buffer);
        if popped.is_some() {
            self.prompt_cursor.move_left(1);
            proof {
                lemma_chunk_count_monotonic(
                    self.spec_prompt().len() + 1int,
                    self.spec_prompt().len() + 2int,
                    self.spec_usable(),
                );
            }
            self.redraw(fb);
        }
    }

    /// Closes the prompt: redraws it with the cursor hidden and hands back
    /// its text; the next output goes below it.
    pub fn end_prompt(&mut self, fb: &mut Vec<CharCell>) -> (out: heapless::Vec<u8, 256>)
        requires
            old(self).wf(),
            fits(old(self).spec_stat(), old(fb)@.len() as int),
            old(self).spec_prompt_start_row() is Some,
        ensures
            final(fb)@.len() == old(fb)@.len(),
            final(self).wf(),
            final(self).spec_stat() == old(self).spec_stat(),
            prompt_bytes(out) == old(self).spec_prompt(),
            final(self).spec_prompt() == Seq::<u8>::empty(),
            final(self).spec_prompt_start_row() is None,
            final(self).spec_cursor().spec_pos() == old(self).spec_cursor().spec_pos(),
            !final(self).spec_cursor().spec_enabled(),
            final(fb)@ == prompt_drawn(
                old(fb)@,
                old(self).spec_stat(),
                old(self).spec_prompt_start_row().unwrap() as int,
                old(self).spec_prompt(),
                prompt_prefix_cells(),
                prompt_wrap_prefix_cells(),
                old(self).spec_cursor().spec_pos() as int,
                false,
            ),
            final(self).spec_current_row() == prompt_end_row(
                old(self).spec_prompt_start_row().unwrap() as int,
                old(self).spec_prompt().len() as int,
                old(self).spec_usable(),
                old(self).spec_stat().rows as int,
            ),
    {
        self.prompt_cursor.disable();
        self.redraw(fb);
        let out = prompt_clone(&self.prompt_buffer);
        prompt_clear(&mut self.prompt_buffer);
        self.prompt_start_row = None;
        out
    }
}

/// More text never takes fewer rows.
proof fn lemma_chunk_count_monotonic(a: int, b: int, usable: int)
    by (nonlinear_arith)
    requires
        0 <= a <= b,
        usable > 0,
    ensures
        chunk_count(a, usable) <= chunk_count(b, usable),
{
    if a > usable {
        assert((a - 1) / usable <= (b - 1) / usable);
    }
}

/// Blanking stale rows from `row` on leaves every cell above that row, and
/// the buffer's length, as they were.
proof fn lemma_cleared_keeps_above(fb: Seq<CharCell>, stat: TerminalStat, row: int, i: int)
    requires
        0 <= row,
        0 <= i < row * stat.cols,
        i < fb.len(),
    ensures
        cleared_stale_rows(fb, stat, row).len() == fb.len(),
        cleared_stale_rows(fb, stat, row)[i] == fb[i],
    decreases stat.rows - row,
{
    if row >= stat.rows || row < 0 || row_is_blank(fb, stat.cols as int, row) {
    } else {
        let next = splice(fb, row * stat.cols, row_cells(Seq::empty(), Seq::empty(), stat.cols as int));
        assert((row + 1) * stat.cols == row * stat.cols + stat.cols) by (nonlinear_arith);
        lemma_cleared_keeps_above(next, stat, row + 1, i);
    }
}

/// A line that fits one row shows, after it was fed, on the row just above
/// the new output row: its cells, then spaces to the end of the row.
pub proof fn law_output_line_visible(
    fb: Seq<CharCell>,
    stat: TerminalStat,
    row: int,
    line: Seq<CharCell>,
    c: int,
)
    requires
        fits(stat, fb.len() as int),
        0 <= row <= stat.rows,
        line.len() <= stat.cols,
        0 <= c < stat.cols,
    ensures
        ({
            let after = line_drawn(fb, stat, row, line, Seq::empty(), Seq::empty());
            let shown = row_after_line(row, line.len() as int, stat.cols as int, stat.rows as int)
                - 1;
            &&& after[shown * stat.cols + c] == if c < line.len() {
                line[c]
            } else {
                space_cell()
            }
        }),
{
    let k = shifts_needed(row, 1, stat.rows as int);
    let base = shift_rows_n(fb, stat, k);
    lemma_shift_rows_n_len(fb, stat, k);
    let first = row - k;
    lemma_cell_in_bounds(first, c, stat.rows as int, stat.cols as int);
    assert(chunk_of(line, stat.cols as int, 0) =~= line);
    assert(drawn_lines(base, stat.cols as int, first, line, Seq::empty(), Seq::empty(), stat.cols as int, 0) == base);
}

/// Scrolling keeps the length of the buffer.
proof fn lemma_shift_rows_n_len(fb: Seq<CharCell>, stat: TerminalStat, k: nat)
    ensures
        shift_rows_n(fb, stat, k).len() == fb.len(),
    decreases k,
{
    if k > 0 {
        lemma_shift_rows_n_len(fb, stat, (k - 1) as nat);
    }
}

/// Scrolling moves each row up by one and blanks the last row.
pub proof fn law_shift_moves_rows_up(fb: Seq<CharCell>, stat: TerminalStat, r: int, c: int)
    requires
        fits(stat, fb.len() as int),
        0 <= r < stat.rows,
        0 <= c < stat.cols,
    ensures
        r + 1 < stat.rows ==> shift_rows(fb, stat)[r * stat.cols + c] == fb[(r + 1) * stat.cols + c],
        r + 1 == stat.rows ==> shift_rows(fb, stat)[r * stat.cols + c] == space_cell(),
{
    lemma_cell_in_bounds(r, c, stat.rows as int, stat.cols as int);
    assert((r + 1) * stat.cols == r * stat.cols + stat.cols) by (nonlinear_arith);
    if r + 1 < stat.rows {
        lemma_row_in_bounds(r, (stat.rows - 1) as int, stat.cols as int);
    } else {
        assert(r * stat.cols == (stat.rows - 1) * stat.cols);
    }
}

/// A prompt whose text fits its first row shows, on that row, `?>`, the
/// text, the cursor after it (a blank cell, inverted when the cursor is
/// shown), then blanks.
pub proof fn law_short_prompt_shows_text(
    fb: Seq<CharCell>,
    stat: TerminalStat,
    row: int,
    text: Seq<u8>,
    on: bool,
    c: int,
)
    requires
        fits(stat, fb.len() as int),
        stat.cols > 2,
        0 <= row <= stat.rows,
        text.len() + 1 <= stat.cols - 2,
        0 <= c < stat.cols,
    ensures
        ({
            let after = prompt_drawn(
                fb,
                stat,
                row,
                text,
                prompt_prefix_cells(),
                prompt_wrap_prefix_cells(),
                text.len() as int,
                on,
            );
            let first = prompt_first_row(row, text.len() as int, stat.cols - 2, stat.rows as int);
            let cell = after[first * stat.cols + c];
            &&& c == 0 ==> cell == cell_of(63)
            &&& c == 1 ==> cell == cell_of(62)
            &&& 2 <= c < 2 + text.len() ==> cell == cell_of(text[c - 2])
            &&& c == 2 + text.len() ==> cell == inverted(space_cell(), on)
            &&& c > 2 + text.len() ==> cell == space_cell()
        }),
{
    let usable = stat.cols - 2;
    assert(chunk_count(text.len() + 1int, usable) == 1);
    let k = shifts_needed(row, 1, stat.rows as int);
    let base = shift_rows_n(fb, stat, k);
    lemma_shift_rows_n_len(fb, stat, k);
    let first = row - k;
    lemma_cell_in_bounds(first, c, stat.rows as int, stat.cols as int);
    lemma_cell_in_bounds(first, 2int + text.len(), stat.rows as int, stat.cols as int);
    assert(chunk_of(text, usable, 0) =~= text);
    let drawn = drawn_prompt(
        base,
        stat.cols as int,
        first,
        text,
        prompt_prefix_cells(),
        prompt_wrap_prefix_cells(),
        usable,
        text.len() as int,
        on,
        1,
    );
    assert(drawn_prompt(
        base,
        stat.cols as int,
        first,
        text,
        prompt_prefix_cells(),
        prompt_wrap_prefix_cells(),
        usable,
        text.len() as int,
        on,
        0,
    ) == base);
    assert((first + 1) * stat.cols == first * stat.cols + stat.cols) by (nonlinear_arith);
    lemma_cleared_keeps_above(drawn, stat, first + 1, first * stat.cols + c);
}

/// A cell of an earlier row lies before every cell of a later row.
proof fn lemma_earlier_row(a: int, b: int, c: int, cols: int)
    by (nonlinear_arith)
    requires
        0 <= a < b,
        0 <= c < cols,
    ensures
        a * cols + c < b * cols,
        0 <= a * cols + c,
{
}

/// Splicing a row keeps the buffer's length.
proof fn lemma_drawn_lines_len(
    base: Seq<CharCell>,
    cols: int,
    first_row: int,
    line: Seq<CharCell>,
    pfx: Seq<CharCell>,
    wrap: Seq<CharCell>,
    usable: int,
    n: nat,
)
    ensures
        drawn_lines(base, cols, first_row, line, pfx, wrap, usable, n).len() == base.len(),
    decreases n,
{
    if n > 0 {
        lemma_drawn_lines_len(base, cols, first_row, line, pfx, wrap, usable, (n - 1) as nat);
    }
}

/// Every row of a drawn line holds its prefix (`pfx` on the first row,
/// `wrap` on the others), its part of the line, then spaces.
pub proof fn law_line_rows(
    base: Seq<CharCell>,
    cols: int,
    first_row: int,
    line: Seq<CharCell>,
    pfx: Seq<CharCell>,
    wrap: Seq<CharCell>,
    usable: int,
    n: nat,
    i: int,
    c: int,
)
    requires
        0 <= first_row,
        (first_row + n) * cols <= base.len(),
        0 <= i < n,
        0 <= c < cols,
    ensures
        drawn_lines(base, cols, first_row, line, pfx, wrap, usable, n)[(first_row + i) * cols + c]
            == row_cells(
            if i == 0 {
                pfx
            } else {
                wrap
            },
            chunk_of(line, usable, i),
            cols,
        )[c],
    decreases n,
{
    let last = n - 1;
    lemma_drawn_lines_len(base, cols, first_row, line, pfx, wrap, usable, (n - 1) as nat);
    lemma_earlier_row(first_row + last, first_row + n, c, cols);
    assert((first_row + last + 1) * cols == (first_row + last) * cols + cols) by (nonlinear_arith);
    if i < last {
        lemma_earlier_row(first_row + i, first_row + last, c, cols);
        assert((first_row + (n - 1)) * cols <= (first_row + n) * cols) by (nonlinear_arith)
            requires
                0 <= cols,
                (first_row + last) * cols + c < (first_row + n) * cols,
        ;
        law_line_rows(base, cols, first_row, line, pfx, wrap, usable, (n - 1) as nat, i, c);
    }
}

/// Splicing rows and marking the cursor keep the buffer's length, while
/// the rows and the cell after them lie inside the buffer.
proof fn lemma_drawn_prompt_len(
    base: Seq<CharCell>,
    cols: int,
    first_row: int,
    text: Seq<u8>,
    pfx: Seq<CharCell>,
    wrap: Seq<CharCell>,
    usable: int,
    cursor_pos: int,
    cursor_on: bool,
    n: nat,
)
    requires
        0 <= first_row,
        usable > 0,
        pfx.len() == wrap.len(),
        pfx.len() + usable == cols,
        (first_row + n) * cols <= base.len(),
        cursor_pos < n * usable || (first_row + n + 1) * cols <= base.len(),
    ensures
        drawn_prompt(base, cols, first_row, text, pfx, wrap, usable, cursor_pos, cursor_on, n).len()
            == base.len(),
    decreases n,
{
    if n > 0 {
        assert((first_row + n - 1) * cols <= (first_row + n) * cols) by (nonlinear_arith)
            requires
                cols > 0,
        ;
        assert(n * usable == (n - 1) * usable + usable) by (nonlinear_arith);
        lemma_drawn_prompt_len(
            base,
            cols,
            first_row,
            text,
            pfx,
            wrap,
            usable,
            cursor_pos,
            cursor_on,
            (n - 1) as nat,
        );
        let i = n - 1;
        assert((first_row + i + 1) * cols == (first_row + i) * cols + cols) by (nonlinear_arith);
        assert((first_row + i + 2) * cols == (first_row + i + 1) * cols + cols) by (nonlinear_arith);
        assert(0 <= (first_row + i) * cols) by (nonlinear_arith)
            requires
                cols > 0,
                first_row + i >= 0,
        ;
    }
}

/// Every row of a drawn prompt holds its prefix (`?>`-style `pfx` on the
/// first row, `wrap` on the others), its part of the text, then spaces;
/// the one cell inverted to `cursor_on` is the cursor's, in the row whose
/// part of the text holds the cursor position, after the prefix.
pub proof fn law_prompt_rows(
    base: Seq<CharCell>,
    cols: int,
    first_row: int,
    text: Seq<u8>,
    pfx: Seq<CharCell>,
    wrap: Seq<CharCell>,
    usable: int,
    cursor_pos: int,
    cursor_on: bool,
    n: nat,
    i: int,
    c: int,
)
    requires
        0 <= first_row,
        usable > 0,
        pfx.len() == wrap.len(),
        pfx.len() + usable == cols,
        (first_row + n) * cols <= base.len(),
        cursor_pos < n * usable || (first_row + n + 1) * cols <= base.len(),
        0 <= i < n,
        0 <= c < cols,
    ensures
        ({
            let row = row_cells(
                if i == 0 {
                    pfx
                } else {
                    wrap
                },
                cells_of(chunk_of(text, usable, i)),
                cols,
            );
            drawn_prompt(base, cols, first_row, text, pfx, wrap, usable, cursor_pos, cursor_on, n)[(
            first_row + i) * cols + c] == if i * usable <= cursor_pos < i * usable + usable && c
                == pfx.len() + (cursor_pos - i * usable) {
                inverted(row[c], cursor_on)
            } else {
                row[c]
            }
        }),
    decreases n,
{
    let last = n - 1;
    let prev = drawn_prompt(
        base,
        cols,
        first_row,
        text,
        pfx,
        wrap,
        usable,
        cursor_pos,
        cursor_on,
        (n - 1) as nat,
    );
    assert((first_row + last + 1) * cols == (first_row + last) * cols + cols) by (nonlinear_arith);
    assert((first_row + n + 1) * cols == (first_row + n) * cols + cols) by (nonlinear_arith);
    assert(((last + 1) * usable) == last * usable + usable) by (nonlinear_arith);
    lemma_earlier_row(first_row + last, first_row + n, c, cols);
    lemma_drawn_prompt_len(
        base,
        cols,
        first_row,
        text,
        pfx,
        wrap,
        usable,
        cursor_pos,
        cursor_on,
        n,
    );
    lemma_drawn_prompt_len(
        base,
        cols,
        first_row,
        text,
        pfx,
        wrap,
        usable,
        cursor_pos,
        cursor_on,
        (n - 1) as nat,
    );
    if i < last {
        lemma_earlier_row(first_row + i, first_row + last, c, cols);
        assert(((i + 1) * usable) == i * usable + usable) by (nonlinear_arith);
        assert(i * usable + usable <= last * usable) by (nonlinear_arith)
            requires
                i + 1 <= last,
                usable > 0,
                (i + 1) * usable == i * usable + usable,
        ;
        law_prompt_rows(
            base,
            cols,
            first_row,
            text,
            pfx,
            wrap,
            usable,
            cursor_pos,
            cursor_on,
            (n - 1) as nat,
            i,
            c,
        );
    }
}

/// Whether a cell shows nothing: a space or a zero cell.
pub open spec fn is_blank(c: CharCell) -> bool {
    c == space_cell() || c == nul_cell()
}

/// Whether every cell shows nothing.
pub fn are_cells_blank(cells: &[CharCell]) -> (b: bool)
    ensures
        b == (forall|i: int| 0 <= i < cells@.len() ==> is_blank(#[trigger] cells@[i])),
{
    let mut i: usize = 0;
    while i < cells.len()
        invariant
            0 <= i <= cells@.len(),
            forall|j: int| 0 <= j < i ==> is_blank(#[trigger] cells@[j]),
        decreases cells@.len() - i,
    {
        let c = cells[i];
        if c != CharCell::from_u8_lossy(32) && c != CharCell::from_u8_lossy(0) {
            return false;
        }
        i = i + 1;
    }
    true
}

} // verus!
