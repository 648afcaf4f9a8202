//! The sixteen-key logical input device. Besides the steady pressed state of
//! each key it records which keys were pressed or released since the driver
//! last reset the edge sets, once per display frame; the wait-for-keypress
//! instruction consumes the just-pressed edge set.

use vstd::prelude::*;

verus! {

/// A logical key code, `0x0` through `0xF`.
pub type Key = u8;

/// Number of keys on the keypad.
pub const KEY_COUNT: usize = 16;

/// The keypad state.
pub struct Keypad {
    pressed: [bool; KEY_COUNT],
    just_pressed: [bool; KEY_COUNT],
    just_released: [bool; KEY_COUNT],
}

impl Keypad {
    /// Steady pressed state, one entry per key.
    pub closed spec fn pressed_keys(&self) -> Seq<bool> {
        self.pressed@
    }

    /// Keys seen going from released to pressed since the last reset.
    pub closed spec fn just_pressed_keys(&self) -> Seq<bool> {
        self.just_pressed@
    }

    /// Keys seen going from pressed to released since the last reset.
    pub closed spec fn just_released_keys(&self) -> Seq<bool> {
        self.just_released@
    }

    /// A keypad with every key released and both edge sets empty.
    pub fn new() -> (k: Keypad)
        ensures
            forall|j: int| 0 <= j < KEY_COUNT ==> !k.pressed_keys()[j],
            forall|j: int| 0 <= j < KEY_COUNT ==> !k.just_pressed_keys()[j],
            forall|j: int| 0 <= j < KEY_COUNT ==> !k.just_released_keys()[j],
    {
        Keypad {
            pressed: [false; KEY_COUNT],
            just_pressed: [false; KEY_COUNT],
            just_released: [false; KEY_COUNT],
        }
    }

    /// Clear both edge sets; the steady pressed state is kept. Called by the
    /// driver once per frame, never by the instruction cycle.
    pub fn reset(&mut self)
        ensures
            final(self).pressed_keys() == old(self).pressed_keys(),
            forall|j: int| 0 <= j < KEY_COUNT ==> !final(self).just_pressed_keys()[j],
            forall|j: int| 0 <= j < KEY_COUNT ==> !final(self).just_released_keys()[j],
    {
        self.just_pressed = [false; KEY_COUNT];
        self.just_released = [false; KEY_COUNT];
    }

    /// Mark `key` pressed; on a transition from released to pressed the key
    /// also enters the just-pressed edge set.
    pub fn press(&mut self, key: Key)
        requires
            key < KEY_COUNT,
        ensures
            final(self).pressed_keys() == old(self).pressed_keys().update(key as int, true),
            final(self).just_pressed_keys() == if old(self).pressed_keys()[key as int] {
                old(self).just_pressed_keys()
            } else {
                old(self).just_pressed_keys().update(key as int, true)
            },
            final(self).just_released_keys() == old(self).just_released_keys(),
    {
        if !self.pressed[key as usize] {
            self.just_pressed[key as usize] = true;
        }
        self.pressed[key as usize] = true;
        proof {
            if old(self).pressed_keys()[key as int] {
                assert(self.pressed@ =~= old(self).pressed_keys().update(key as int, true));
            }
        }
    }

    /// Mark `key` released; its entry in the just-released edge set becomes
    /// its previous steady state.
    pub fn release(&mut self, key: Key)
        requires
            key < KEY_COUNT,
        ensures
            final(self).pressed_keys() == old(self).pressed_keys().update(key as int, false),
            final(self).just_pressed_keys() == old(self).just_pressed_keys(),
            final(self).just_released_keys() == old(self).just_released_keys().update(
                key as int,
                old(self).pressed_keys()[key as int],
            ),
    {
        let was = self.pressed[key as usize];
        self.just_released[key as usize] = was;
        self.pressed[key as usize] = false;
    }

    /// Whether `key` is currently held down; any code outside `0x0..=0xF`
    /// counts as not pressed.
    pub fn pressed(&self, key: Key) -> (r: bool)
        ensures
            r == (key < KEY_COUNT && self.pressed_keys()[key as int]),
    {
        if key < KEY_COUNT as u8 {
            self.pressed[key as usize]
        } else {
            false
        }
    }

    /// The lowest-numbered key in the just-pressed edge set, or `None` if no
    /// key was pressed since the last reset.
    pub fn just_pressed(&self) -> (r: Option<Key>)
        ensures
            match r {
                Some(k) => k < KEY_COUNT && self.just_pressed_keys()[k as int] && forall|j: int|
                    0 <= j < k ==> !self.just_pressed_keys()[j],
                None => forall|j: int| 0 <= j < KEY_COUNT ==> !self.just_pressed_keys()[j],
            },
    {
        let mut k: usize = 0;
        while k < KEY_COUNT
            invariant
                k <= KEY_COUNT,
                forall|j: int| 0 <= j < k ==> !self.just_pressed_keys()[j],
            decreases KEY_COUNT - k,
        {
            if self.just_pressed[k] {
                return Some(k as u8);
            }
            k = k + 1;
        }
        None
    }

    /// The lowest-numbered key in the just-released edge set, or `None` if no
    /// key was released since the last reset.
    pub fn just_released(&self) -> (r: Option<Key>)
        ensures
            match r {
                Some(k) => k < KEY_COUNT && self.just_released_keys()[k as int] && forall|j: int|
                    0 <= j < k ==> !self.just_released_keys()[j],
                None => forall|j: int| 0 <= j < KEY_COUNT ==> !self.just_released_keys()[j],
            },
    {
        let mut k: usize = 0;
        while k < KEY_COUNT
            invariant
                k <= KEY_COUNT,
                forall|j: int| 0 <= j < k ==> !self.just_released_keys()[j],
            decreases KEY_COUNT - k,
        {
            if self.just_released[k] {
                return Some(k as u8);
            }
            k = k + 1;
        }
        None
    }
}

} // verus!
