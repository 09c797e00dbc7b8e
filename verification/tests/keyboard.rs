use ntrixos::key_tracker::{key_events, report_to_keys, Key, KeyEvent, KeyTracker};
use ntrixos::keyboard_types::{Action, KeyEvent as WireKeyEvent, KeyKind, Modifiers};

fn layout(code: u8, m: Modifiers) -> Key {
    if (4..=29).contains(&code) {
        let base = if m.shift() { b'A' } else { b'a' };
        Key::Char(base + code - 4)
    } else {
        Key::Raw(code)
    }
}

#[test]
fn report_maps_codes_and_skips_empty_slots() {
    let keys = report_to_keys(&[4, 0, 1, 0x28, 5, 0], 0x02 | 0x40, layout);
    assert_eq!(keys, [Some(Key::Char(b'A')), None, None, Some(Key::Raw(0x28)), Some(Key::Char(b'B')), None]);
}

#[test]
fn press_then_hold_then_release() {
    let m = Modifiers::empty();
    let mut t = KeyTracker::new();
    let a = Some(Key::Char(b'a'));
    let b = Some(Key::Char(b'b'));
    let ev = t.process_keys([a, None, None, None, None, None], m);
    assert_eq!(ev, vec![KeyEvent { key: Key::Char(b'a'), action: Action::Press, modifiers: m }]);
    let ev = t.process_keys([a, b, None, None, None, None], m);
    assert_eq!(ev, vec![KeyEvent { key: Key::Char(b'b'), action: Action::Press, modifiers: m }]);
    let ev = t.process_keys([b, None, None, None, None, None], m);
    assert_eq!(ev, vec![KeyEvent { key: Key::Char(b'a'), action: Action::Release, modifiers: m }]);
    let ev = t.process_keys([None; 6], m);
    assert_eq!(ev, vec![KeyEvent { key: Key::Char(b'b'), action: Action::Release, modifiers: m }]);
}

#[test]
fn releases_come_before_presses() {
    let m = Modifiers::from_bits_truncate(0x01);
    let prev = [Some(Key::Raw(0x28)), None, None, None, None, None];
    let cur = [None, Some(Key::Char(b'x')), None, None, None, None];
    let ev = key_events(&prev, &cur, m);
    assert_eq!(
        ev,
        vec![
            KeyEvent { key: Key::Raw(0x28), action: Action::Release, modifiers: m },
            KeyEvent { key: Key::Char(b'x'), action: Action::Press, modifiers: m },
        ]
    );
}

#[test]
fn same_report_gives_no_events() {
    let keys = [Some(Key::Char(b'q')), Some(Key::Raw(7)), None, None, None, None];
    assert!(key_events(&keys, &keys, Modifiers::empty()).is_empty());
}

#[test]
fn modifiers_bits() {
    let m = Modifiers::from_bits_truncate(0xff);
    assert_eq!(m.bits, 15);
    assert!(m.shift() && m.ctrl() && m.alt() && m.meta());
    let m = Modifiers::from_bits_truncate(0x02);
    assert!(m.shift());
    assert!(!m.ctrl());
    assert!(!m.alt());
    assert!(!m.meta());
    assert!(m.contains(Modifiers::empty()));
}

#[test]
fn wire_event_roundtrip() {
    let e = KeyEvent { key: Key::Raw(0x2a), action: Action::Release, modifiers: Modifiers { bits: 3 } };
    let w = e.to_wire();
    assert_eq!(w, WireKeyEvent { kind: KeyKind::Raw, code: 0x2a, action: Action::Release, modifiers: Modifiers { bits: 3 } });
    let bytes = w.to_bytes();
    assert_eq!(bytes, [1, 0x2a, 1, 3]);
    assert_eq!(WireKeyEvent::from_bytes(&bytes), Some(w));
}

#[test]
fn malformed_event_bytes_are_rejected() {
    assert_eq!(WireKeyEvent::from_bytes(&[2, 0, 0, 0]), None);
    assert_eq!(WireKeyEvent::from_bytes(&[0, 0, 5, 0]), None);
}
