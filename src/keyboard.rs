//! The keypad's state as the input side reports it: which keys are down, the
//! most recent key press, and whether a key-wait is in progress.
use vstd::prelude::*;

use crate::machine::KEY_COUNT;

verus! {

/// Which of the sixteen keypad keys are down, the key pressed most recently
/// (while it is still down, and until it is taken), and whether a key-wait
/// is in progress.
pub struct Keyboard {
    wait_for_press: bool,
    key: Option<u8>,
    pressed_keys: [bool; 16],
}

/// The state of a keyboard as values.
pub struct KeyboardState {
    pub waiting: bool,
    pub recent: Option<u8>,
    pub down: Seq<bool>,
}

impl View for Keyboard {
    type V = KeyboardState;

    closed spec fn view(&self) -> KeyboardState {
        KeyboardState { waiting: self.wait_for_press, recent: self.key, down: self.pressed_keys@ }
    }
}

impl KeyboardState {
    pub open spec fn wf(self) -> bool {
        &&& self.down.len() == KEY_COUNT
        &&& self.recent matches Some(k) ==> k < KEY_COUNT
    }
}

/// A keyboard with no key down, no press to report, and no wait in progress.
pub fn create() -> (r: Keyboard)
    ensures
        r@.wf(),
        !r@.waiting,
        r@.recent is None,
        r@.down == Seq::new(KEY_COUNT as nat, |k: int| false),
{
    let r = Keyboard { wait_for_press: false, key: None, pressed_keys: [false; 16] };
    assert(r@.down =~= Seq::new(KEY_COUNT as nat, |k: int| false));
    r
}

impl Keyboard {
    /// Records that `key` went down: it becomes the most recent press and ends
    /// a wait. Returns whether it was up before.
    pub fn key_down(&mut self, key: u8) -> (r: bool)
        requires
            old(self)@.wf(),
            key < KEY_COUNT,
        ensures
            final(self)@ == (KeyboardState {
                waiting: false,
                recent: Some(key),
                down: old(self)@.down.update(key as int, true),
            }),
            r == !old(self)@.down[key as int],
            final(self)@.wf(),
    {
        self.wait_for_press = false;
        self.key = Some(key);
        let was_down = self.pressed_keys[key as usize];
        self.pressed_keys.set(key as usize, true);
        !was_down
    }

    /// Begins a wait: a press from before it no longer counts.
    pub fn wait_for_press(&mut self) -> (r: bool)
        requires
            old(self)@.wf(),
        ensures
            final(self)@ == (KeyboardState { waiting: true, recent: None, ..old(self)@ }),
            r,
            final(self)@.wf(),
    {
        self.key = None;
        self.wait_for_press = true;
        true
    }

    pub fn is_waiting_for_press(&self) -> (r: bool)
        ensures
            r == self@.waiting,
    {
        self.wait_for_press
    }

    /// Records that `key` went up; a press of it that was not taken yet is
    /// withdrawn. Returns whether it was down before.
    pub fn key_up(&mut self, key: u8) -> (r: bool)
        requires
            old(self)@.wf(),
            key < KEY_COUNT,
        ensures
            final(self)@ == (KeyboardState {
                recent: if old(self)@.recent == Some(key) {
                    None
                } else {
                    old(self)@.recent
                },
                down: old(self)@.down.update(key as int, false),
                ..old(self)@
            }),
            r == old(self)@.down[key as int],
            final(self)@.wf(),
    {
        if self.key == Some(key) {
            self.key = None;
        }
        let was_down = self.pressed_keys[key as usize];
        self.pressed_keys.set(key as usize, false);
        was_down
    }

    pub fn is_key_down(&self, key: u8) -> (r: bool)
        requires
            self@.wf(),
            key < KEY_COUNT,
        ensures
            r == self@.down[key as int],
    {
        self.pressed_keys[key as usize]
    }

    pub fn get_recently_pressed_key(&self) -> (r: Option<u8>)
        ensures
            r == self@.recent,
    {
        self.key
    }

    /// Hands out the most recent press once: it is cleared as it is taken.
    pub fn take_press(&mut self) -> (r: Option<u8>)
        requires
            old(self)@.wf(),
        ensures
            r == old(self)@.recent,
            final(self)@ == (KeyboardState { recent: None, ..old(self)@ }),
            final(self)@.wf(),
    {
        let r = self.key;
        self.key = None;
        r
    }

    /// Which keys are down, indexed by keypad key.
    pub fn keypad(&self) -> (r: [bool; 16])
        ensures
            r@ == self@.down,
    {
        self.pressed_keys
    }
}

} // verus!
