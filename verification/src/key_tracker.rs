//! Kernel keyboard driver logic: turning boot-protocol keyboard reports
//! into key presses and releases.
//!
//! A report lists up to six held key codes. A key held in the new report
//! but not in the previous one is pressed; one held before but no longer is
//! released.
use vstd::prelude::*;
use crate::keyboard_types::{Action, KeyEvent as WireKeyEvent, KeyKind, Modifiers};

verus! {

/// Number of key codes in a boot-protocol keyboard report.
pub const REPORT_KEYS: usize = 6;

/// A key as the keyboard layout maps it.
#[derive(PartialEq, Eq, Structural, Clone, Copy, Debug)]
pub enum Key {
    /// A printable character.
    Char(u8),
    /// A raw usage code.
    Raw(u8),
}

/// A key going down or up, with the modifiers held at the time.
#[derive(PartialEq, Eq, Structural, Clone, Copy, Debug)]
pub struct KeyEvent {
    pub key: Key,
    pub action: Action,
    pub modifiers: Modifiers,
}

/// The event as user programs receive it.
pub open spec fn wire_event(e: KeyEvent) -> WireKeyEvent {
    match e.key {
        Key::Char(c) => WireKeyEvent {
            kind: KeyKind::Char,
            code: c,
            action: e.action,
            modifiers: e.modifiers,
        },
        Key::Raw(c) => WireKeyEvent {
            kind: KeyKind::Raw,
            code: c,
            action: e.action,
            modifiers: e.modifiers,
        },
    }
}

impl KeyEvent {
    /// The event as user programs receive it.
    pub fn to_wire(&self) -> (w: WireKeyEvent)
        ensures
            w == wire_event(*self),
    {
        match self.key {
            Key::Char(c) => WireKeyEvent {
                kind: KeyKind::Char,
                code: c,
                action: self.action,
                modifiers: self.modifiers,
            },
            Key::Raw(c) => WireKeyEvent {
                kind: KeyKind::Raw,
                code: c,
                action: self.action,
                modifiers: self.modifiers,
            },
        }
    }
}

/// Whether `key` is among the held keys.
pub open spec fn holds(keys: Seq<Option<Key>>, key: Key) -> bool {
    exists|j: int| 0 <= j < keys.len() && keys[j] == Some(key)
}

/// Release events, in order, for the keys of `prev` that `cur` no longer
/// holds.
pub open spec fn release_events(prev: Seq<Option<Key>>, cur: Seq<Option<Key>>, m: Modifiers) -> Seq<
    KeyEvent,
>
    decreases prev.len(),
{
    if prev.len() == 0 {
        Seq::empty()
    } else {
        let rest = release_events(prev.drop_last(), cur, m);
        match prev.last() {
            Some(k) => if holds(cur, k) {
                rest
            } else {
                rest.push(KeyEvent { key: k, action: Action::Release, modifiers: m })
            },
            None => rest,
        }
    }
}

/// Press events, in order, for the keys of `cur` that `prev` did not hold.
pub open spec fn press_events(prev: Seq<Option<Key>>, cur: Seq<Option<Key>>, m: Modifiers) -> Seq<
    KeyEvent,
>
    decreases cur.len(),
{
    if cur.len() == 0 {
        Seq::empty()
    } else {
        let rest = press_events(prev, cur.drop_last(), m);
        match cur.last() {
            Some(k) => if holds(prev, k) {
                rest
            } else {
                rest.push(KeyEvent { key: k, action: Action::Press, modifiers: m })
            },
            None => rest,
        }
    }
}

/// Whether `key` is among the held keys.
fn is_held(keys: &[Option<Key>], key: Key) -> (b: bool)
    ensures
        b == holds(keys@, key),
{
    let mut j: usize = 0;
    while j < keys.len()
        invariant
            0 <= j <= keys@.len(),
            forall|i: int| 0 <= i < j ==> keys@[i] != Some(key),
        decreases keys@.len() - j,
    {
        match keys[j] {
            Some(k) => {
                if k == key {
                    return true;
                }
            },
            None => {},
        }
        j = j + 1;
    }
    false
}

/// The events between two reports: first a release for every key held
/// before and no longer, in the previous report's order, then a press for
/// every key newly held, in the new report's order.
pub fn key_events(
    previous_keys: &[Option<Key>],
    current_keys: &[Option<Key>],
    modifiers: Modifiers,
) -> (events: Vec<KeyEvent>)
    ensures
        events@ == release_events(previous_keys@, current_keys@, modifiers) + press_events(
            previous_keys@,
            current_keys@,
            modifiers,
        ),
{
    let mut events: Vec<KeyEvent> = Vec::new();
    let mut i: usize = 0;
    while i < previous_keys.len()
        invariant
            0 <= i <= previous_keys@.len(),
            events@ == release_events(
                previous_keys@.subrange(0, i as int),
                current_keys@,
                modifiers,
            ),
        decreases previous_keys@.len() - i,
    {
        assert(previous_keys@.subrange(0, i + 1).drop_last() =~= previous_keys@.subrange(
            0,
            i as int,
        ));
        match previous_keys[i] {
            Some(k) => {
                if !is_held(current_keys, k) {
                    events.push(KeyEvent { key: k, action: Action::Release, modifiers });
                }
            },
            None => {},
        }
        i = i + 1;
    }
    assert(previous_keys@.subrange(0, previous_keys@.len() as int) =~= previous_keys@);
    let ghost released = events@;
    let mut i: usize = 0;
    while i < current_keys.len()
        invariant
            0 <= i <= current_keys@.len(),
            released == release_events(previous_keys@, current_keys@, modifiers),
            events@ == released + press_events(
                previous_keys@,
                current_keys@.subrange(0, i as int),
                modifiers,
            ),
        decreases current_keys@.len() - i,
    {
        assert(current_keys@.subrange(0, i + 1).drop_last() =~= current_keys@.subrange(
            0,
            i as int,
        ));
        match current_keys[i] {
            Some(k) => {
                if !is_held(previous_keys, k) {
                    events.push(KeyEvent { key: k, action: Action::Press, modifiers });
                }
            },
            None => {},
        }
        i = i + 1;
    }
    assert(current_keys@.subrange(0, current_keys@.len() as int) =~= current_keys@);
    events
}

/// The keys of a report: no key for codes 0 and 1 (no key, roll-over
/// error), otherwise the key that `layout` maps the code to under the
/// report's modifiers.
pub fn report_to_keys(
    keycodes: &[u8; 6],
    modifiers: u8,
    layout: impl Fn(u8, Modifiers) -> Key,
) -> (keys: [Option<Key>; 6])
    requires
        forall|c: u8, m: Modifiers| call_requires(layout, (c, m)),
    ensures
        forall|i: int|
            0 <= i < 6 ==> (keycodes@[i] <= 1 ==> keys@[i] is None) && (keycodes@[i] > 1 ==> (
            keys@[i] matches Some(k) && call_ensures(
                layout,
                (keycodes@[i], Modifiers { bits: modifiers & 15 }),
                k,
            ))),
{
    let m = Modifiers::from_bits_truncate(modifiers);
    let mut keys: [Option<Key>; 6] = [None, None, None, None, None, None];
    let mut i: usize = 0;
    while i < 6
        invariant
            0 <= i <= 6,
            m == (Modifiers { bits: modifiers & 15 }),
            forall|c: u8, mm: Modifiers| call_requires(layout, (c, mm)),
            forall|j: int|
                0 <= j < i ==> (keycodes@[j] <= 1 ==> keys@[j] is None) && (keycodes@[j] > 1 ==> (
                keys@[j] matches Some(k) && call_ensures(layout, (keycodes@[j], m), k))),
        decreases 6 - i,
    {
        let code = keycodes[i];
        if code <= 1 {
            keys[i] = None;
        } else {
            let k = layout(code, m);
            keys[i] = Some(k);
        }
        i = i + 1;
    }
    keys
}

/// What the keyboard driver remembers between reports: the keys the last
/// report held.
pub struct KeyTracker {
    pub previous_keys: [Option<Key>; 6],
}

impl KeyTracker {
    /// No key held yet.
    pub fn new() -> (t: KeyTracker)
        ensures
            forall|i: int| 0 <= i < 6 ==> t.previous_keys@[i] is None,
    {
        KeyTracker { previous_keys: [None, None, None, None, None, None] }
    }

    /// Takes the keys of a new report and returns the events it causes; the
    /// new keys are remembered for the next report.
    pub fn process_keys(&mut self, current_keys: [Option<Key>; 6], modifiers: Modifiers) -> (events:
        Vec<KeyEvent>)
        ensures
            events@ == release_events(old(self).previous_keys@, current_keys@, modifiers)
                + press_events(old(self).previous_keys@, current_keys@, modifiers),
            final(self).previous_keys == current_keys,
    {
        let events = key_events(self.previous_keys.as_slice(), current_keys.as_slice(), modifiers);
        self.previous_keys = current_keys;
        events
    }
}

/// A report that holds the same keys as the previous one causes no event.
pub proof fn law_same_keys_no_events(keys: Seq<Option<Key>>, m: Modifiers)
    ensures
        release_events(keys, keys, m) == Seq::<KeyEvent>::empty(),
        press_events(keys, keys, m) == Seq::<KeyEvent>::empty(),
    decreases keys.len(),
{
    lemma_no_release_when_all_held(keys, keys, m);
    lemma_no_press_when_all_held(keys, keys, m);
}

/// Every press is of a key the new report holds and the previous one did
/// not; every release is of a key the previous report held and the new one
/// does not.
pub proof fn law_events_match_key_changes(prev: Seq<Option<Key>>, cur: Seq<Option<Key>>, m: Modifiers)
    ensures
        forall|i: int|
            0 <= i < press_events(prev, cur, m).len() ==> {
                let e = #[trigger] press_events(prev, cur, m)[i];
                &&& e.action == Action::Press
                &&& e.modifiers == m
                &&& holds(cur, e.key)
                &&& !holds(prev, e.key)
            },
        forall|i: int|
            0 <= i < release_events(prev, cur, m).len() ==> {
                let e = #[trigger] release_events(prev, cur, m)[i];
                &&& e.action == Action::Release
                &&& e.modifiers == m
                &&& holds(prev, e.key)
                &&& !holds(cur, e.key)
            },
{
    lemma_presses_new(prev, cur, m);
    lemma_releases_gone(prev, cur, m);
}

/// Presses are of keys held now and not before.
proof fn lemma_presses_new(prev: Seq<Option<Key>>, cur: Seq<Option<Key>>, m: Modifiers)
    ensures
        forall|i: int|
            0 <= i < press_events(prev, cur, m).len() ==> {
                let e = #[trigger] press_events(prev, cur, m)[i];
                &&& e.action == Action::Press
                &&& e.modifiers == m
                &&& holds(cur, e.key)
                &&& !holds(prev, e.key)
            },
    decreases cur.len(),
{
    if cur.len() > 0 {
        let init = cur.drop_last();
        lemma_presses_new(prev, init, m);
        assert forall|k: Key| holds(init, k) implies holds(cur, k) by {
            let j = choose|j: int| 0 <= j < init.len() && init[j] == Some(k);
            assert(cur[j] == Some(k));
        }
        if let Some(k) = cur.last() {
            assert(cur[cur.len() - 1] == Some(k));
        }
    }
}

/// Releases are of keys held before and not now.
proof fn lemma_releases_gone(prev: Seq<Option<Key>>, cur: Seq<Option<Key>>, m: Modifiers)
    ensures
        forall|i: int|
            0 <= i < release_events(prev, cur, m).len() ==> {
                let e = #[trigger] release_events(prev, cur, m)[i];
                &&& e.action == Action::Release
                &&& e.modifiers == m
                &&& holds(prev, e.key)
                &&& !holds(cur, e.key)
            },
    decreases prev.len(),
{
    if prev.len() > 0 {
        let init = prev.drop_last();
        lemma_releases_gone(init, cur, m);
        assert forall|k: Key| holds(init, k) implies holds(prev, k) by {
            let j = choose|j: int| 0 <= j < init.len() && init[j] == Some(k);
            assert(prev[j] == Some(k));
        }
        if let Some(k) = prev.last() {
            assert(prev[prev.len() - 1] == Some(k));
        }
    }
}

/// No release when every key of `prev` is still held.
proof fn lemma_no_release_when_all_held(prev: Seq<Option<Key>>, cur: Seq<Option<Key>>, m: Modifiers)
    requires
        forall|i: int| 0 <= i < prev.len() ==> (#[trigger] prev[i] matches Some(k) ==> holds(cur, k)),
    ensures
        release_events(prev, cur, m) == Seq::<KeyEvent>::empty(),
    decreases prev.len(),
{
    if prev.len() > 0 {
        lemma_no_release_when_all_held(prev.drop_last(), cur, m);
        if let Some(k) = prev.last() {
            assert(prev[prev.len() - 1] == Some(k));
        }
    }
}

/// No press when every key of `cur` was already held.
proof fn lemma_no_press_when_all_held(prev: Seq<Option<Key>>, cur: Seq<Option<Key>>, m: Modifiers)
    requires
        forall|i: int| 0 <= i < cur.len() ==> (#[trigger] cur[i] matches Some(k) ==> holds(prev, k)),
    ensures
        press_events(prev, cur, m) == Seq::<KeyEvent>::empty(),
    decreases cur.len(),
{
    if cur.len() > 0 {
        lemma_no_press_when_all_held(prev, cur.drop_last(), m);
        if let Some(k) = cur.last() {
            assert(cur[cur.len() - 1] == Some(k));
        }
    }
}

/// Whether a report slot holds a key that `prev` did not hold.
pub open spec fn newly_held(prev: Seq<Option<Key>>) -> spec_fn(Option<Key>) -> bool {
    |o: Option<Key>| o matches Some(k) && !holds(prev, k)
}

/// Whether a report slot holds a key that `cur` no longer holds.
pub open spec fn let_go(cur: Seq<Option<Key>>) -> spec_fn(Option<Key>) -> bool {
    |o: Option<Key>| o matches Some(k) && !holds(cur, k)
}

/// The press a report slot causes, if it holds a key `prev` did not.
pub open spec fn slot_press(prev: Seq<Option<Key>>, m: Modifiers) -> spec_fn(Option<Key>) -> Option<
    KeyEvent,
> {
    |o: Option<Key>|
        match o {
            Some(k) => if holds(prev, k) {
                None
            } else {
                Some(KeyEvent { key: k, action: Action::Press, modifiers: m })
            },
            None => None,
        }
}

/// The release a previous report slot causes, if its key is no longer held.
pub open spec fn slot_release(cur: Seq<Option<Key>>, m: Modifiers) -> spec_fn(Option<Key>) -> Option<
    KeyEvent,
> {
    |o: Option<Key>|
        match o {
            Some(k) => if holds(cur, k) {
                None
            } else {
                Some(KeyEvent { key: k, action: Action::Release, modifiers: m })
            },
            None => None,
        }
}

/// Every key held in the new report and not in the previous one gets a
/// press, and every key held before and no longer gets a release, whatever
/// else the reports hold.
pub proof fn law_every_change_reported(
    prev: Seq<Option<Key>>,
    cur: Seq<Option<Key>>,
    m: Modifiers,
    k: Key,
)
    ensures
        holds(cur, k) && !holds(prev, k) ==> (release_events(prev, cur, m) + press_events(
            prev,
            cur,
            m,
        )).contains(KeyEvent { key: k, action: Action::Press, modifiers: m }),
        holds(prev, k) && !holds(cur, k) ==> (release_events(prev, cur, m) + press_events(
            prev,
            cur,
            m,
        )).contains(KeyEvent { key: k, action: Action::Release, modifiers: m }),
{
    let rel = release_events(prev, cur, m);
    let pre = press_events(prev, cur, m);
    if holds(cur, k) && !holds(prev, k) {
        let j = choose|j: int| 0 <= j < cur.len() && cur[j] == Some(k);
        lemma_new_key_pressed(prev, cur, m, j, k);
        let i = choose|i: int| 0 <= i < pre.len() && pre[i] == KeyEvent { key: k, action: Action::Press, modifiers: m };
        assert((rel + pre)[rel.len() + i] == pre[i]);
    }
    if holds(prev, k) && !holds(cur, k) {
        let j = choose|j: int| 0 <= j < prev.len() && prev[j] == Some(k);
        lemma_gone_key_released(prev, cur, m, j, k);
        let i = choose|i: int| 0 <= i < rel.len() && rel[i] == KeyEvent { key: k, action: Action::Release, modifiers: m };
        assert((rel + pre)[i] == rel[i]);
    }
}

/// A slot of the new report holding a newly held key gives its press.
proof fn lemma_new_key_pressed(prev: Seq<Option<Key>>, cur: Seq<Option<Key>>, m: Modifiers, j: int, k: Key)
    requires
        0 <= j < cur.len(),
        cur[j] == Some(k),
        !holds(prev, k),
    ensures
        press_events(prev, cur, m).contains(KeyEvent { key: k, action: Action::Press, modifiers: m }),
    decreases cur.len(),
{
    let e = KeyEvent { key: k, action: Action::Press, modifiers: m };
    let rest = press_events(prev, cur.drop_last(), m);
    if j == cur.len() - 1 {
        assert(press_events(prev, cur, m) == rest.push(e));
        assert(rest.push(e)[rest.len() as int] == e);
    } else {
        assert(cur.drop_last()[j] == Some(k));
        lemma_new_key_pressed(prev, cur.drop_last(), m, j, k);
        let i = choose|i: int| 0 <= i < rest.len() && rest[i] == e;
        match cur.last() {
            Some(l) => if !holds(prev, l) {
                assert(rest.push(KeyEvent { key: l, action: Action::Press, modifiers: m })[i] == e);
            },
            None => {},
        }
    }
}

/// A slot of the previous report holding a key let go gives its release.
proof fn lemma_gone_key_released(prev: Seq<Option<Key>>, cur: Seq<Option<Key>>, m: Modifiers, j: int, k: Key)
    requires
        0 <= j < prev.len(),
        prev[j] == Some(k),
        !holds(cur, k),
    ensures
        release_events(prev, cur, m).contains(KeyEvent { key: k, action: Action::Release, modifiers: m }),
    decreases prev.len(),
{
    let e = KeyEvent { key: k, action: Action::Release, modifiers: m };
    let rest = release_events(prev.drop_last(), cur, m);
    if j == prev.len() - 1 {
        assert(release_events(prev, cur, m) == rest.push(e));
        assert(rest.push(e)[rest.len() as int] == e);
    } else {
        assert(prev.drop_last()[j] == Some(k));
        lemma_gone_key_released(prev.drop_last(), cur, m, j, k);
        let i = choose|i: int| 0 <= i < rest.len() && rest[i] == e;
        match prev.last() {
            Some(l) => if !holds(cur, l) {
                assert(rest.push(KeyEvent { key: l, action: Action::Release, modifiers: m })[i] == e);
            },
            None => {},
        }
    }
}

/// There are as many presses as slots of the new report holding a newly
/// held key, and as many releases as slots of the previous report holding
/// a key let go: one event per slot, none lost and none repeated.
pub proof fn law_one_event_per_changed_slot(prev: Seq<Option<Key>>, cur: Seq<Option<Key>>, m: Modifiers)
    ensures
        press_events(prev, cur, m).len() == cur.filter(newly_held(prev)).len(),
        release_events(prev, cur, m).len() == prev.filter(let_go(cur)).len(),
    decreases prev.len() + cur.len(),
{
    reveal(Seq::filter);
    if cur.len() > 0 {
        law_one_event_per_changed_slot(prev, cur.drop_last(), m);
    }
    if prev.len() > 0 {
        law_one_event_per_changed_slot(prev.drop_last(), cur, m);
    }
}

/// The presses follow the new report's slots in order and the releases the
/// previous report's: each slot gives its event, if any, in its place.
pub proof fn law_events_in_report_order(prev: Seq<Option<Key>>, cur: Seq<Option<Key>>, m: Modifiers)
    ensures
        press_events(prev, cur, m) == cur.filter_map(slot_press(prev, m)),
        release_events(prev, cur, m) == prev.filter_map(slot_release(cur, m)),
    decreases prev.len() + cur.len(),
{
    if cur.len() > 0 {
        law_events_in_report_order(prev, cur.drop_last(), m);
        let rest = press_events(prev, cur.drop_last(), m);
        if let Some(k) = cur.last() {
            if !holds(prev, k) {
                let e = KeyEvent { key: k, action: Action::Press, modifiers: m };
                assert(rest.push(e) =~= rest + seq![e]);
            }
        }
    }
    if prev.len() > 0 {
        law_events_in_report_order(prev.drop_last(), cur, m);
        let rest = release_events(prev.drop_last(), cur, m);
        if let Some(k) = prev.last() {
            if !holds(cur, k) {
                let e = KeyEvent { key: k, action: Action::Release, modifiers: m };
                assert(rest.push(e) =~= rest + seq![e]);
            }
        }
    }
}

} // verus!
