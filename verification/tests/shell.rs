use ntrixos::keyboard_types::{Action, KeyEvent, KeyKind, Modifiers};
use ntrixos::display_types::{char_cells, CharCell, DisplayCharStat};
use ntrixos::kernel_syscall::answers_call;
use ntrixos::shell::{answers_submission, key_action, submit_prompt, ShellAction};
use ntrixos::syscall::SyscallNum;
use ntrixos::terminal::Terminal;

fn ev(kind: KeyKind, code: u8, action: Action) -> KeyEvent {
    KeyEvent { kind, code, action, modifiers: Modifiers { bits: 0 } }
}

#[test]
fn shell_key_actions() {
    assert_eq!(key_action(&ev(KeyKind::Char, b'a', Action::Press)), ShellAction::Type(b'a'));
    assert_eq!(key_action(&ev(KeyKind::Char, 0x28, Action::Press)), ShellAction::Type(0x28));
    assert_eq!(key_action(&ev(KeyKind::Raw, 0x2a, Action::Press)), ShellAction::Backspace);
    assert_eq!(key_action(&ev(KeyKind::Raw, 0x28, Action::Press)), ShellAction::Submit);
    assert_eq!(key_action(&ev(KeyKind::Raw, 0x29, Action::Press)), ShellAction::Exit);
    assert_eq!(key_action(&ev(KeyKind::Raw, 0x28, Action::Release)), ShellAction::Ignore);
    assert_eq!(key_action(&ev(KeyKind::Char, b'a', Action::Release)), ShellAction::Ignore);
    assert_eq!(key_action(&ev(KeyKind::Raw, 0x04, Action::Press)), ShellAction::Ignore);
}

#[test]
fn only_non_empty_prompts_get_done() {
    assert!(!answers_submission(0));
    assert!(answers_submission(3));
}

#[test]
fn submit_answers_non_empty_prompt_with_done() {
    let mut fb = vec![CharCell::from_u8_lossy(0); 60];
    let mut term = Terminal::setup(&mut fb, &DisplayCharStat { rows: 6, cols: 10 });
    let done = char_cells(b"Done").unwrap();
    term.start_prompt(&mut fb);
    term.feed_prompt(&mut fb, b'l').unwrap();
    let out = submit_prompt(&mut term, &mut fb, &done);
    assert_eq!(out.as_slice(), b"l");
    let text: String = fb.iter().map(|c| c.glyph as char).collect();
    assert_eq!(&text[0..10], "?>l       ");
    assert_eq!(&text[10..20], "Done      ");
    assert_eq!(&text[20..30], "?>        ");
    let out = submit_prompt(&mut term, &mut fb, &done);
    assert!(out.is_empty());
    let text: String = fb.iter().map(|c| c.glyph as char).collect();
    assert_eq!(&text[20..30], "?>        ");
    assert_eq!(&text[30..40], "?>        ");
    assert_eq!(fb.len(), 60);
}

#[test]
fn null_and_exit_get_no_answer() {
    assert!(!answers_call(SyscallNum::Null));
    assert!(!answers_call(SyscallNum::Exit));
    assert!(answers_call(SyscallNum::Read));
    assert!(answers_call(SyscallNum::IoCtl));
}
