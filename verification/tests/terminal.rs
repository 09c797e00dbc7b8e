use ntrixos::display_types::{char_cells, CharAttributes, CharCell, DisplayCharStat};
use ntrixos::terminal::{
    are_cells_blank, calc_row_start, draw_line, redraw_prompt, shift_up, Terminal,
    TerminalCursor, TerminalStat,
};

fn cell(b: u8) -> CharCell {
    CharCell::from_u8_lossy(b)
}

fn cells(s: &str) -> Vec<CharCell> {
    char_cells(s.as_bytes()).unwrap()
}

fn inverted(b: u8) -> CharCell {
    CharCell { glyph: b, attrs: CharAttributes { bits: 1 } }
}

/// The row `r` of a buffer with `cols` columns, as text (attributes dropped).
fn row_text(fb: &[CharCell], cols: usize, r: usize) -> String {
    fb[r * cols..r * cols + cols].iter().map(|c| c.glyph as char).collect()
}

fn new_term(rows: u32, cols: u32) -> (Terminal, Vec<CharCell>) {
    let mut fb = vec![cell(b'x'); (rows * cols) as usize];
    let term = Terminal::setup(&mut fb, &DisplayCharStat { rows, cols });
    (term, fb)
}

#[test]
fn setup_zeroes_buffer() {
    let (_term, fb) = new_term(15, 20);
    assert_eq!(fb.len(), 300);
    assert!(fb.iter().all(|c| *c == cell(0)));
}

#[test]
fn output_line_wraps_over_two_rows() {
    let (mut term, mut fb) = new_term(15, 20);
    term.feed_output_line(&mut fb, &cells("Welcome, To Ntrix OS!"));
    assert_eq!(row_text(&fb, 20, 0), "Welcome, To Ntrix OS");
    assert_eq!(row_text(&fb, 20, 1), "!                   ");
    assert_eq!(fb[40], cell(0));
}

#[test]
fn empty_output_line_takes_one_blank_row() {
    let (mut term, mut fb) = new_term(3, 5);
    term.feed_output_line(&mut fb, &[]);
    term.feed_output_line(&mut fb, &cells("a"));
    assert_eq!(row_text(&fb, 5, 0), "     ");
    assert_eq!(row_text(&fb, 5, 1), "a    ");
}

#[test]
fn output_scrolls_when_full() {
    let (mut term, mut fb) = new_term(3, 5);
    for s in ["a", "b", "c", "d"] {
        term.feed_output_line(&mut fb, &cells(s));
    }
    assert_eq!(row_text(&fb, 5, 0), "b    ");
    assert_eq!(row_text(&fb, 5, 1), "c    ");
    assert_eq!(row_text(&fb, 5, 2), "d    ");
}

#[test]
fn prompt_shows_prefix_and_cursor() {
    let (mut term, mut fb) = new_term(15, 20);
    term.feed_output_line(&mut fb, &cells("Welcome, To Ntrix OS!"));
    term.start_prompt(&mut fb);
    assert_eq!(fb[40], cell(b'?'));
    assert_eq!(fb[41], cell(b'>'));
    assert_eq!(fb[42], inverted(b' '));
    assert_eq!(fb[43], cell(b' '));
    assert_eq!(fb[60], cell(0));
}

#[test]
fn typing_and_backspace_edit_the_prompt() {
    let (mut term, mut fb) = new_term(15, 20);
    term.start_prompt(&mut fb);
    assert_eq!(term.feed_prompt(&mut fb, b'l'), Ok(()));
    assert_eq!(term.feed_prompt(&mut fb, b's'), Ok(()));
    assert_eq!(row_text(&fb, 20, 0), "?>ls                ");
    assert_eq!(fb[4], inverted(b' '));
    assert_eq!(fb[3], cell(b's'));
    term.feed_prompt_backspace(&mut fb);
    assert_eq!(row_text(&fb, 20, 0), "?>l                 ");
    assert_eq!(fb[3], inverted(b' '));
    assert_eq!(fb[4], cell(b' '));
    let out = term.end_prompt(&mut fb);
    assert_eq!(out.as_slice(), b"l");
    assert_eq!(fb[3], cell(b' '));
}

#[test]
fn backspace_on_empty_prompt_changes_nothing() {
    let (mut term, mut fb) = new_term(15, 20);
    term.start_prompt(&mut fb);
    let before = fb.clone();
    term.feed_prompt_backspace(&mut fb);
    assert_eq!(fb, before);
    let out = term.end_prompt(&mut fb);
    assert!(out.is_empty());
}

#[test]
fn long_prompt_wraps_and_shrinks() {
    let (mut term, mut fb) = new_term(15, 20);
    term.start_prompt(&mut fb);
    for b in b"abcdefghijklmnopqr" {
        term.feed_prompt(&mut fb, *b).unwrap();
    }
    assert_eq!(row_text(&fb, 20, 0), "?>abcdefghijklmnopqr");
    assert_eq!(row_text(&fb, 20, 1), "->                  ");
    assert_eq!(fb[20], cell(b'-'));
    assert_eq!(fb[22], inverted(b' '));
    term.feed_prompt_backspace(&mut fb);
    assert_eq!(row_text(&fb, 20, 0), "?>abcdefghijklmnopq ");
    assert_eq!(fb[19], inverted(b' '));
    assert_eq!(row_text(&fb, 20, 1), "                    ");
    assert_eq!(fb[40], cell(0));
}

#[test]
fn full_prompt_refuses_more_bytes() {
    let (mut term, mut fb) = new_term(40, 20);
    term.start_prompt(&mut fb);
    for _ in 0..256 {
        term.feed_prompt(&mut fb, b'z').unwrap();
    }
    let before = fb.clone();
    assert_eq!(term.feed_prompt(&mut fb, b'y'), Err(b'y'));
    assert_eq!(fb, before);
    let out = term.end_prompt(&mut fb);
    assert_eq!(out.len(), 256);
}

#[test]
fn prompt_after_output_and_done_line() {
    let (mut term, mut fb) = new_term(15, 20);
    term.start_prompt(&mut fb);
    term.feed_prompt(&mut fb, b'x').unwrap();
    let out = term.end_prompt(&mut fb);
    assert_eq!(out.as_slice(), b"x");
    term.feed_output_line(&mut fb, &cells("Done"));
    term.start_prompt(&mut fb);
    assert_eq!(row_text(&fb, 20, 0), "?>x                 ");
    assert_eq!(row_text(&fb, 20, 1), "Done                ");
    assert_eq!(row_text(&fb, 20, 2), "?>                  ");
}

#[test]
fn prompt_at_bottom_scrolls_up() {
    let (mut term, mut fb) = new_term(2, 5);
    term.feed_output_line(&mut fb, &cells("a"));
    term.feed_output_line(&mut fb, &cells("b"));
    term.start_prompt(&mut fb);
    assert_eq!(row_text(&fb, 5, 0), "b    ");
    assert_eq!(row_text(&fb, 5, 1), "?>   ");
    assert_eq!(fb[7], inverted(b' '));
}

#[test]
fn clear_resets_everything() {
    let (mut term, mut fb) = new_term(3, 5);
    term.feed_output_line(&mut fb, &cells("abc"));
    term.clear(&mut fb);
    assert!(fb.iter().all(|c| *c == cell(0)));
    term.feed_output_line(&mut fb, &cells("z"));
    assert_eq!(row_text(&fb, 5, 0), "z    ");
}

#[test]
fn shift_up_moves_rows_and_indexes() {
    let stat = TerminalStat { rows: 2, cols: 2 };
    let mut fb = vec![cell(b'a'), cell(b'b'), cell(b'c'), cell(b'd'), cell(b'e')];
    let mut current = 2usize;
    let mut start = Some(1usize);
    shift_up(&mut fb, stat, &mut current, &mut start);
    assert_eq!(fb, vec![cell(b'c'), cell(b'd'), cell(b' '), cell(b' '), cell(b'e')]);
    assert_eq!(current, 1);
    assert_eq!(start, Some(0));
}

#[test]
fn blank_cells_are_spaces_or_zero() {
    assert!(are_cells_blank(&[cell(b' '), cell(0)]));
    assert!(are_cells_blank(&[]));
    assert!(!are_cells_blank(&[cell(b' '), cell(b'a')]));
    assert!(!are_cells_blank(&[inverted(b' ')]));
}

#[test]
fn row_start_is_row_times_cols() {
    assert_eq!(calc_row_start(TerminalStat { rows: 15, cols: 20 }, 3), 60);
}

#[test]
fn cursor_moves_saturate() {
    let mut c = TerminalCursor::new();
    assert_eq!(c.pos(), 0);
    assert!(c.enabled());
    c.move_left(3);
    assert_eq!(c.pos(), 0);
    c.move_right(5);
    c.move_left(2);
    assert_eq!(c.pos(), 3);
    c.move_right(usize::MAX);
    assert_eq!(c.pos(), usize::MAX);
    c.disable();
    assert!(!c.enabled());
    assert_eq!(c.pos(), usize::MAX);
    c.enable();
    assert_eq!(c.pos(), 0);
    assert!(c.enabled());
    let d = TerminalCursor::default();
    assert_eq!((d.pos(), d.enabled()), (0, true));
}

#[test]
fn char_cells_rejects_non_ascii() {
    assert!(char_cells("é".as_bytes()).is_none());
    assert_eq!(char_cells(b"?>").unwrap(), vec![cell(b'?'), cell(b'>')]);
}

#[test]
fn draw_line_with_prefixes_wraps() {
    let stat = TerminalStat { rows: 3, cols: 5 };
    let mut fb = vec![cell(0); 15];
    let mut current = 0usize;
    let mut start = None;
    let pfx = cells("?>");
    let wrap = cells("->");
    draw_line(&mut fb, stat, &cells("abcdef"), Some(&pfx), Some(&wrap), &mut current, &mut start);
    assert_eq!(row_text(&fb, 5, 0), "?>abc");
    assert_eq!(row_text(&fb, 5, 1), "->def");
    assert_eq!(current, 2);
    assert_eq!(start, None);
}

#[test]
fn redraw_prompt_marks_cursor_and_clears_stale_rows() {
    let stat = TerminalStat { rows: 3, cols: 5 };
    let mut fb = vec![cell(b'x'); 15];
    let mut current = 0usize;
    let mut start = Some(0usize);
    let mut cursor = TerminalCursor::new();
    cursor.move_right(3);
    redraw_prompt(&mut fb, stat, &cells("?>"), &cells("->"), &mut current, &mut start, cursor, b"abc");
    assert_eq!(row_text(&fb, 5, 0), "?>abc");
    assert_eq!(row_text(&fb, 5, 1), "->   ");
    assert_eq!(fb[5], cell(b'-'));
    assert_eq!(fb[7], inverted(b' '));
    assert_eq!(row_text(&fb, 5, 2), "     ");
    assert_eq!(current, 2);
    assert_eq!(start, Some(0));
}

#[test]
fn prompt_ending_on_last_row_keeps_rows_above() {
    let stat = TerminalStat { rows: 3, cols: 5 };
    let mut fb = vec![cell(b'x'); 15];
    let mut current = 1usize;
    let mut start = Some(1usize);
    let mut cursor = TerminalCursor::new();
    cursor.move_right(2);
    redraw_prompt(&mut fb, stat, &cells("?>"), &cells("->"), &mut current, &mut start, cursor, b"abcd");
    assert_eq!(row_text(&fb, 5, 0), "xxxxx");
    assert_eq!(row_text(&fb, 5, 1), "?>abc");
    assert_eq!(fb[9], inverted(b'c'));
    assert_eq!(row_text(&fb, 5, 2), "->d  ");
    assert_eq!(fb[12], cell(b'd'));
    assert_eq!(current, 3);
    assert_eq!(start, Some(1));
}
