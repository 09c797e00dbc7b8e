//! The shell's reaction to key events: typing into the prompt, deleting,
//! submitting and leaving.
use vstd::prelude::*;
use crate::display_types::CharCell;
use crate::keyboard_types::{Action, KeyEvent, KeyKind};
use crate::prompt_buffer::{prompt_as_slice, prompt_bytes};
use crate::terminal::{
    chunk_count, fits, line_drawn, prompt_drawn, prompt_end_row, prompt_first_row,
    prompt_prefix_cells, prompt_wrap_prefix_cells, row_after_line, Terminal, TerminalStat,
};

verus! {

/// Usage code of the enter key.
pub const KEY_ENTER: u8 = 0x28;

/// Usage code of the escape key.
pub const KEY_ESCAPE: u8 = 0x29;

/// Usage code of the backspace key.
pub const KEY_BACKSPACE: u8 = 0x2a;

/// What the shell does with a key event.
#[derive(PartialEq, Eq, Structural, Clone, Copy, Debug)]
pub enum ShellAction {
    /// Append the character to the prompt.
    Type(u8),
    /// Delete the prompt's last character.
    Backspace,
    /// Close the prompt and answer it.
    Submit,
    /// End the shell with success.
    Exit,
    /// Nothing.
    Ignore,
}

/// What the shell does with a key event: only presses count; a character
/// is typed, and the backspace, enter and escape codes delete, submit and
/// leave, in that order of precedence after typing.
pub open spec fn action_of(e: KeyEvent) -> ShellAction {
    if e.action != Action::Press {
        ShellAction::Ignore
    } else if e.kind == KeyKind::Char {
        ShellAction::Type(e.code)
    } else if e.code == KEY_BACKSPACE {
        ShellAction::Backspace
    } else if e.code == KEY_ENTER {
        ShellAction::Submit
    } else if e.code == KEY_ESCAPE {
        ShellAction::Exit
    } else {
        ShellAction::Ignore
    }
}

/// What the shell does with a key event.
pub fn key_action(e: &KeyEvent) -> (a: ShellAction)
    ensures
        a == action_of(*e),
{
    if e.action == Action::Press && e.kind == KeyKind::Char {
        ShellAction::Type(e.code)
    } else if e.action == Action::Press && e.code == KEY_BACKSPACE {
        ShellAction::Backspace
    } else if e.action == Action::Press && e.code == KEY_ENTER {
        ShellAction::Submit
    } else if e.action == Action::Press && e.code == KEY_ESCAPE {
        ShellAction::Exit
    } else {
        ShellAction::Ignore
    }
}

/// Only presses act: a release is ignored, so each keystroke acts once.
pub proof fn law_release_is_ignored(e: KeyEvent)
    requires
        e.action == Action::Release,
    ensures
        action_of(e) == ShellAction::Ignore,
{
}

/// Which key events do what: a press of a character types it; a press of
/// the raw backspace, enter or escape key deletes, submits or leaves; no
/// other event does anything.
pub proof fn law_what_each_key_does(e: KeyEvent)
    ensures
        action_of(e) == ShellAction::Backspace <==> (e.action == Action::Press && e.kind
            == KeyKind::Raw && e.code == KEY_BACKSPACE),
        action_of(e) == ShellAction::Submit <==> (e.action == Action::Press && e.kind
            == KeyKind::Raw && e.code == KEY_ENTER),
        action_of(e) == ShellAction::Exit <==> (e.action == Action::Press && e.kind == KeyKind::Raw
            && e.code == KEY_ESCAPE),
        (action_of(e) is Type) <==> (e.action == Action::Press && e.kind == KeyKind::Char),
        action_of(e) is Type ==> action_of(e) == ShellAction::Type(e.code),
{
}

/// Whether a submitted prompt is answered with a `Done` line: only when it
/// holds text.
pub fn answers_submission(prompt_len: usize) -> (b: bool)
    ensures
        b == (prompt_len != 0),
{
    prompt_len != 0
}

/// The row below the answer to a submitted prompt of `len` bytes that
/// started at `start`: below the closed prompt, and below the `Done` line
/// when the prompt held text.
pub open spec fn answer_end_row(stat: TerminalStat, start: int, len: int, done_len: int) -> int {
    let closed = prompt_end_row(start, len, stat.cols - 2, stat.rows as int);
    if len != 0 {
        row_after_line(closed, done_len, stat.cols as int, stat.rows as int)
    } else {
        closed
    }
}

/// The frame buffer after a prompt was submitted: the prompt redrawn with
/// its cursor hidden, the `done` line below it when the prompt held text,
/// then a new empty prompt below that.
pub open spec fn submitted(
    fb: Seq<CharCell>,
    stat: TerminalStat,
    start: int,
    text: Seq<u8>,
    cursor_pos: int,
    done: Seq<CharCell>,
) -> Seq<CharCell> {
    let closed_fb = prompt_drawn(
        fb,
        stat,
        start,
        text,
        prompt_prefix_cells(),
        prompt_wrap_prefix_cells(),
        cursor_pos,
        false,
    );
    let closed_row = prompt_end_row(start, text.len() as int, stat.cols - 2, stat.rows as int);
    let answered_fb = if text.len() != 0 {
        line_drawn(closed_fb, stat, closed_row, done, Seq::empty(), Seq::empty())
    } else {
        closed_fb
    };
    prompt_drawn(
        answered_fb,
        stat,
        answer_end_row(stat, start, text.len() as int, done.len() as int),
        Seq::empty(),
        prompt_prefix_cells(),
        prompt_wrap_prefix_cells(),
        0,
        true,
    )
}

/// Submits the open prompt: closes it and hands back its text, answers it
/// with the `done` line when it held text, and opens a new prompt.
pub fn submit_prompt(term: &mut Terminal, fb: &mut Vec<CharCell>, done: &[CharCell]) -> (out:
    heapless::Vec<u8, 256>)
    requires
        old(term).wf(),
        fits(old(term).spec_stat(), old(fb)@.len() as int),
        old(term).spec_prompt_start_row() is Some,
        chunk_count(done@.len() as int, old(term).spec_stat().cols as int)
            <= old(term).spec_stat().rows,
    ensures
        final(term).wf(),
        prompt_bytes(out) == old(term).spec_prompt(),
        final(term).spec_stat() == old(term).spec_stat(),
        final(term).spec_prompt() == Seq::<u8>::empty(),
        final(term).spec_cursor().spec_pos() == 0,
        final(term).spec_cursor().spec_enabled(),
        final(fb)@.len() == old(fb)@.len(),
        final(fb)@ == submitted(
            old(fb)@,
            old(term).spec_stat(),
            old(term).spec_prompt_start_row().unwrap() as int,
            old(term).spec_prompt(),
            old(term).spec_cursor().spec_pos() as int,
            done@,
        ),
        final(term).spec_prompt_start_row() == Some(
            prompt_first_row(
                answer_end_row(
                    old(term).spec_stat(),
                    old(term).spec_prompt_start_row().unwrap() as int,
                    old(term).spec_prompt().len() as int,
                    done@.len() as int,
                ),
                0,
                old(term).spec_stat().cols - 2,
                old(term).spec_stat().rows as int,
            ) as usize,
        ),
        final(term).spec_current_row() == prompt_end_row(
            answer_end_row(
                old(term).spec_stat(),
                old(term).spec_prompt_start_row().unwrap() as int,
                old(term).spec_prompt().len() as int,
                done@.len() as int,
            ),
            0,
            old(term).spec_stat().cols - 2,
            old(term).spec_stat().rows as int,
        ),
{
    let out = term.end_prompt(fb);
    if answers_submission(prompt_as_slice(&out).len()) {
        term.feed_output_line(fb, done);
    }
    term.start_prompt(fb);
    out
}

} // verus!
