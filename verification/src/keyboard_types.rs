//! Keyboard events as user programs receive them, and their four-byte wire
//! form.
use vstd::prelude::*;

verus! {

/// Modifier bit of the control key.
pub const CTRL: u8 = 1;

/// Modifier bit of the shift key.
pub const SHIFT: u8 = 2;

/// Modifier bit of the alt key.
pub const ALT: u8 = 4;

/// Modifier bit of the meta key.
pub const META: u8 = 8;

/// The modifier keys held with a key.
#[derive(PartialEq, Eq, Structural, Clone, Copy, Debug)]
pub struct Modifiers {
    pub bits: u8,
}

impl Modifiers {
    /// No modifier held.
    pub fn empty() -> (m: Modifiers)
        ensures
            m.bits == 0,
    {
        Modifiers { bits: 0 }
    }

    /// The modifiers of `bits`, with the bits that name no modifier dropped.
    pub fn from_bits_truncate(bits: u8) -> (m: Modifiers)
        ensures
            m.bits == bits & 15,
    {
        Modifiers { bits: bits & 15 }
    }

    /// Whether every modifier of `other` is held.
    pub fn contains(self, other: Modifiers) -> (b: bool)
        ensures
            b == (self.bits & other.bits == other.bits),
    {
        self.bits & other.bits == other.bits
    }

    /// Whether shift is held.
    pub fn shift(self) -> (b: bool)
        ensures
            b == (self.bits & SHIFT == SHIFT),
    {
        self.contains(Modifiers { bits: SHIFT })
    }

    /// Whether control is held.
    pub fn ctrl(self) -> (b: bool)
        ensures
            b == (self.bits & CTRL == CTRL),
    {
        self.contains(Modifiers { bits: CTRL })
    }

    /// Whether alt is held.
    pub fn alt(self) -> (b: bool)
        ensures
            b == (self.bits & ALT == ALT),
    {
        self.contains(Modifiers { bits: ALT })
    }

    /// Whether meta is held.
    pub fn meta(self) -> (b: bool)
        ensures
            b == (self.bits & META == META),
    {
        self.contains(Modifiers { bits: META })
    }
}

/// What a key code stands for.
#[derive(PartialEq, Eq, Structural, Clone, Copy, Debug)]
pub enum KeyKind {
    /// A decoded character.
    Char,
    /// A raw usage code.
    Raw,
}

/// Whether a key went down or up.
#[derive(PartialEq, Eq, Structural, Clone, Copy, Debug)]
pub enum Action {
    Press,
    Release,
}

/// A key event as a user program reads it.
#[derive(PartialEq, Eq, Structural, Clone, Copy, Debug)]
pub struct KeyEvent {
    pub kind: KeyKind,
    /// Either the raw usage code or the decoded character.
    pub code: u8,
    pub action: Action,
    pub modifiers: Modifiers,
}

/// Number of bytes of a key event on the wire.
pub const KEY_EVENT_SIZE: usize = 4;

/// The wire byte of a key kind.
pub open spec fn kind_byte(k: KeyKind) -> u8 {
    match k {
        KeyKind::Char => 0,
        KeyKind::Raw => 1,
    }
}

/// The wire byte of an action.
pub open spec fn action_byte(a: Action) -> u8 {
    match a {
        Action::Press => 0,
        Action::Release => 1,
    }
}

/// The wire form of a key event: kind, code, action, modifier bits.
pub open spec fn key_event_bytes(e: KeyEvent) -> Seq<u8> {
    seq![kind_byte(e.kind), e.code, action_byte(e.action), e.modifiers.bits]
}

/// The key event that a wire form stands for, if any: the kind and action
/// bytes must each be 0 or 1.
pub open spec fn key_event_of_bytes(b: Seq<u8>) -> Option<KeyEvent> {
    if b.len() != 4 || b[0] > 1 || b[2] > 1 {
        None
    } else {
        Some(
            KeyEvent {
                kind: if b[0] == 0 {
                    KeyKind::Char
                } else {
                    KeyKind::Raw
                },
                code: b[1],
                action: if b[2] == 0 {
                    Action::Press
                } else {
                    Action::Release
                },
                modifiers: Modifiers { bits: b[3] },
            },
        )
    }
}

impl KeyEvent {
    /// The wire form of this event.
    pub fn to_bytes(&self) -> (b: [u8; 4])
        ensures
            b@ == key_event_bytes(*self),
    {
        let kind: u8 = match self.kind {
            KeyKind::Char => 0,
            KeyKind::Raw => 1,
        };
        let action: u8 = match self.action {
            Action::Press => 0,
            Action::Release => 1,
        };
        let b = [kind, self.code, action, self.modifiers.bits];
        assert(b@ =~= key_event_bytes(*self));
        b
    }

    /// The event that a wire form stands for, if any.
    pub fn from_bytes(b: &[u8; 4]) -> (e: Option<KeyEvent>)
        ensures
            e == key_event_of_bytes(b@),
    {
        let kind = if b[0] == 0 {
            KeyKind::Char
        } else if b[0] == 1 {
            KeyKind::Raw
        } else {
            return None;
        };
        let action = if b[2] == 0 {
            Action::Press
        } else if b[2] == 1 {
            Action::Release
        } else {
            return None;
        };
        Some(KeyEvent { kind, code: b[1], action, modifiers: Modifiers { bits: b[3] } })
    }
}

/// Every key event comes back from its wire form unchanged.
pub proof fn law_key_event_bytes_roundtrip(e: KeyEvent)
    ensures
        key_event_of_bytes(key_event_bytes(e)) == Some(e),
{
}

} // verus!
