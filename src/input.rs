//! The sixteen-key keypad, as the interpreter sees it, and the keyboard
//! layout that feeds it.
use vstd::prelude::*;

verus! {

/// Number of keys on the keypad.
pub const KEY_COUNT: usize = 16;

/// What happened to a key.
#[derive(Debug, Clone, Copy, PartialEq, Eq, Structural)]
pub enum KeyKind {
    Press,
    Repeat,
    Release,
}

/// The keypad key that keyboard character `c` stands for. The keypad's
/// four rows `1 2 3 C`, `4 5 6 D`, `7 8 9 E`, `A 0 B F` lie on the keys
/// `1 2 3 4`, `q w e r`, `a s d f`, `z x c v`.
pub open spec fn keymap(c: char) -> Option<u8> {
    match c {
        '1' => Some(0x1u8),
        '2' => Some(0x2u8),
        '3' => Some(0x3u8),
        '4' => Some(0xCu8),
        'q' => Some(0x4u8),
        'w' => Some(0x5u8),
        'e' => Some(0x6u8),
        'r' => Some(0xDu8),
        'a' => Some(0x7u8),
        's' => Some(0x8u8),
        'd' => Some(0x9u8),
        'f' => Some(0xEu8),
        'z' => Some(0xAu8),
        'x' => Some(0x0u8),
        'c' => Some(0xBu8),
        'v' => Some(0xFu8),
        _ => None,
    }
}

/// The key states after the events, in order, of which only those of kind
/// `expected` count: each such event on a mapped character marks its key
/// pressed when `expected` is `Press`, released otherwise.
pub open spec fn apply_events(keys: Seq<bool>, events: Seq<(char, KeyKind)>, expected: KeyKind) -> Seq<
    bool,
>
    decreases events.len(),
{
    if events.len() == 0 {
        keys
    } else {
        let before = apply_events(keys, events.drop_last(), expected);
        let (c, kind) = events.last();
        match keymap(c) {
            Some(k) if kind == expected => before.update(k as int, expected == KeyKind::Press),
            _ => before,
        }
    }
}

/// The lowest key from `k` on that is held in `keys`, if any.
pub open spec fn first_held_from(keys: Seq<bool>, k: int) -> Option<u8>
    decreases 16 - k,
{
    if k >= 16 || k < 0 {
        None
    } else if keys[k] {
        Some(k as u8)
    } else {
        first_held_from(keys, k + 1)
    }
}

/// The lowest key that is held in `keys`, if any.
pub open spec fn first_held(keys: Seq<bool>) -> Option<u8> {
    first_held_from(keys, 0)
}

/// Whether key `key` is held in `keys`; no key above 15 exists.
pub open spec fn held(keys: Seq<bool>, key: u8) -> bool {
    key < 16 && keys[key as int]
}

/// The keypad key for keyboard character `c`, if it has one.
pub fn key_value(c: char) -> (r: Option<u8>)
    ensures
        r == keymap(c),
{
    match c {
        '1' => Some(0x1),
        '2' => Some(0x2),
        '3' => Some(0x3),
        '4' => Some(0xC),
        'q' => Some(0x4),
        'w' => Some(0x5),
        'e' => Some(0x6),
        'r' => Some(0xD),
        'a' => Some(0x7),
        's' => Some(0x8),
        'd' => Some(0x9),
        'f' => Some(0xE),
        'z' => Some(0xA),
        'x' => Some(0x0),
        'c' => Some(0xB),
        'v' => Some(0xF),
        _ => None,
    }
}

/// Whether a key event asks the host to quit: `c` typed with Control as
/// the only modifier.
pub fn is_interrupt(c: char, control_only: bool) -> (r: bool)
    ensures
        r == (c == 'c' && control_only),
{
    c == 'c' && control_only
}

/// Which keypad keys are held.
#[derive(Debug)]
pub struct Keys {
    pressed: Vec<bool>,
}

impl View for Keys {
    type V = Seq<bool>;

    /// `self@[k]` is whether key `k` is held.
    closed spec fn view(&self) -> Seq<bool> {
        self.pressed@
    }
}

impl Default for Keys {
    /// No key held.
    fn default() -> (r: Self)
        ensures
            r.wf(),
            r@ == Seq::new(16, |i: int| false),
    {
        let r = Keys { pressed: vec![false; KEY_COUNT] };
        assert(r@ =~= Seq::new(16, |i: int| false));
        r
    }
}

impl Keys {
    pub open spec fn wf(&self) -> bool {
        self@.len() == KEY_COUNT
    }

    /// Whether key `key` is held; no key above 15 exists, so none such is.
    pub fn is_pressed(&self, key: u8) -> (r: bool)
        requires
            self.wf(),
        ensures
            r == held(self@, key),
    {
        (key as usize) < KEY_COUNT && self.pressed[key as usize]
    }

    /// The lowest-numbered key that is held, if any is.
    pub fn first_pressed(&self) -> (r: Option<u8>)
        requires
            self.wf(),
        ensures
            r == first_held(self@),
            r is None <==> forall|k: int| 0 <= k < 16 ==> !self@[k],
            r matches Some(k) ==> k < 16 && self@[k as int] && forall|j: int|
                0 <= j < k ==> !self@[j],
    {
        let mut k: usize = 0;
        while k < KEY_COUNT
            invariant
                self.wf(),
                k <= KEY_COUNT,
                forall|j: int| 0 <= j < k ==> !self@[j],
                first_held(self@) == first_held_from(self@, k as int),
            decreases KEY_COUNT - k,
        {
            if self.pressed[k] {
                assert(self@[k as int]);
                return Some(k as u8);
            }
            k += 1;
        }
        None
    }

    /// Marks key `key` held or not; there is no key above 15, and such a
    /// number changes nothing.
    pub fn set(&mut self, key: u8, pressed: bool)
        requires
            old(self).wf(),
        ensures
            final(self).wf(),
            key < 16 ==> final(self)@ == old(self)@.update(key as int, pressed),
            key >= 16 ==> final(self)@ == old(self)@,
    {
        if (key as usize) < KEY_COUNT {
            self.pressed.set(key as usize, pressed);
        }
    }

    /// Applies the events of kind `expected`, in order, to the key states.
    pub fn update(&mut self, events: &[(char, KeyKind)], expected: KeyKind)
        requires
            old(self).wf(),
        ensures
            final(self).wf(),
            final(self)@ == apply_events(old(self)@, events@, expected),
    {
        let mut i: usize = 0;
        while i < events.len()
            invariant
                self.wf(),
                i <= events@.len(),
                self@ == apply_events(old(self)@, events@.take(i as int), expected),
            decreases events@.len() - i,
        {
            let (c, kind) = events[i];
            proof {
                assert(events@.take(i + 1).drop_last() =~= events@.take(i as int));
            }
            if kind == expected {
                if let Some(k) = key_value(c) {
                    self.set(k, expected == KeyKind::Press);
                }
            }
            i += 1;
        }
        assert(events@.take(events@.len() as int) =~= events@);
    }

    /// Marks held the keys of the press events among `events`.
    pub fn update_pressed(&mut self, events: &[(char, KeyKind)])
        requires
            old(self).wf(),
        ensures
            final(self).wf(),
            final(self)@ == apply_events(old(self)@, events@, KeyKind::Press),
    {
        self.update(events, KeyKind::Press)
    }

    /// Marks released the keys of the release events among `events`.
    pub fn update_released(&mut self, events: &[(char, KeyKind)])
        requires
            old(self).wf(),
        ensures
            final(self).wf(),
            final(self)@ == apply_events(old(self)@, events@, KeyKind::Release),
    {
        self.update(events, KeyKind::Release)
    }

    /// Each key number with whether it is held, key 0 first.
    pub fn iter(&self) -> (r: Vec<(u8, bool)>)
        requires
            self.wf(),
        ensures
            r@ == Seq::new(16, |i: int| (i as u8, self@[i])),
    {
        let mut r: Vec<(u8, bool)> = Vec::new();
        let mut k: usize = 0;
        while k < KEY_COUNT
            invariant
                self.wf(),
                k <= KEY_COUNT,
                r@ == Seq::new(k as nat, |i: int| (i as u8, self@[i])),
            decreases KEY_COUNT - k,
        {
            r.push((k as u8, self.pressed[k]));
            k += 1;
            assert(r@ =~= Seq::new(k as nat, |i: int| (i as u8, self@[i])));
        }
        r
    }
}

} // verus!
