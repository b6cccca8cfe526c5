use std::collections::HashMap;
use vstd::prelude::*;

use crate::cpu::CPU;
use crate::machine::Machine;

verus! {

/// The sixteen keys of the host keyboard that stand for the hexadecimal keypad.
#[derive(Clone, Copy, Debug, PartialEq, Eq, Structural)]
pub enum Key {
    Key1,
    Key2,
    Key3,
    Key4,
    Q,
    W,
    E,
    R,
    A,
    S,
    D,
    F,
    Z,
    X,
    C,
    V,
}

/// A key going down or coming up.
#[derive(Clone, Copy, Debug, PartialEq, Eq, Structural)]
pub enum KeyEvent {
    Down(Key),
    Up(Key),
}

impl Key {
    /// The keypad code that a key stands for. The four rows of the keypad,
    /// `123C`, `456D`, `789E` and `A0BF`, lie on the rows `1234`, `QWER`,
    /// `ASDF` and `ZXCV`.
    pub open spec fn code_of(self) -> u8 {
        match self {
            Key::Key1 => 0x1u8,
            Key::Key2 => 0x2u8,
            Key::Key3 => 0x3u8,
            Key::Key4 => 0xCu8,
            Key::Q => 0x4u8,
            Key::W => 0x5u8,
            Key::E => 0x6u8,
            Key::R => 0xDu8,
            Key::A => 0x7u8,
            Key::S => 0x8u8,
            Key::D => 0x9u8,
            Key::F => 0xEu8,
            Key::Z => 0xAu8,
            Key::X => 0x0u8,
            Key::C => 0xBu8,
            Key::V => 0xFu8,
        }
    }

    /// The keypad code that this key stands for.
    pub fn code(&self) -> (code: u8)
        ensures
            code == self.code_of(),
            code < 16,
    {
        match self {
            Key::Key1 => 0x1,
            Key::Key2 => 0x2,
            Key::Key3 => 0x3,
            Key::Key4 => 0xC,
            Key::Q => 0x4,
            Key::W => 0x5,
            Key::E => 0x6,
            Key::R => 0xD,
            Key::A => 0x7,
            Key::S => 0x8,
            Key::D => 0x9,
            Key::F => 0xE,
            Key::Z => 0xA,
            Key::X => 0x0,
            Key::C => 0xB,
            Key::V => 0xF,
        }
    }
}

/// The keypad at rest: the sixteen codes are known and none is pressed.
pub open spec fn all_released() -> Map<u8, bool> {
    Map::new(|code: u8| code < 16, |code: u8| false)
}

/// A keyboard and a machine after they have heard some events.
pub struct Heard {
    /// Which codes are known, and which of them are pressed.
    pub keys: Map<u8, bool>,
    /// The machine, which a key going down may have woken.
    pub machine: Machine,
}

/// A key going down is recorded as pressed, and wakes a waiting machine.
pub open spec fn key_down(keys: Map<u8, bool>, m: Machine, code: u8) -> Heard {
    Heard {
        keys: keys.insert(code, true),
        machine: if m.paused {
            m.accept_key(code)
        } else {
            m
        },
    }
}

/// The keyboard and the machine after `events` were heard, in order.
pub open spec fn heard(keys: Map<u8, bool>, m: Machine, events: Seq<KeyEvent>) -> Heard
    decreases events.len(),
{
    if events.len() == 0 {
        Heard { keys, machine: m }
    } else {
        let before = heard(keys, m, events.drop_last());
        match events.last() {
            KeyEvent::Down(key) => key_down(before.keys, before.machine, key.code_of()),
            KeyEvent::Up(key) => Heard { keys: before.keys.insert(key.code_of(), false), ..before },
        }
    }
}

/// Which keypad keys are held down.
pub struct Keyboard {
    keypressed: HashMap<u8, bool>,
}

impl View for Keyboard {
    type V = Map<u8, bool>;

    closed spec fn view(&self) -> Map<u8, bool> {
        self.keypressed@
    }
}

impl Keyboard {
    /// A keyboard that knows the sixteen keypad codes, none of them pressed.
    pub fn new() -> (keyboard: Keyboard)
        ensures
            keyboard@ == all_released(),
    {
        let mut keypressed: HashMap<u8, bool> = HashMap::new();
        let mut code: u8 = 0;
        while code < 16
            invariant
                code <= 16,
                keypressed@ == Map::new(|c: u8| c < code, |c: u8| false),
            decreases 16 - code,
        {
            keypressed.insert(code, false);
            code += 1;
            assert(keypressed@ =~= Map::new(|c: u8| c < code, |c: u8| false));
        }
        Keyboard { keypressed }
    }

    /// Whether the key with this code is pressed. The code must be known:
    /// one of the sixteen, or one that went down or came up before.
    pub fn isKeyPressed(&self, keyCode: u8) -> (pressed: bool)
        requires
            self@.contains_key(keyCode),
        ensures
            pressed == self@[keyCode],
    {
        match self.keypressed.get(&keyCode) {
            Some(pressed) => *pressed,
            None => false,
        }
    }

    /// Whether the key with this code is pressed, or `None` if the code is
    /// not known.
    pub fn keyState(&self, keyCode: u8) -> (state: Option<bool>)
        ensures
            state == (if self@.contains_key(keyCode) {
                Some(self@[keyCode])
            } else {
                None
            }),
    {
        match self.keypressed.get(&keyCode) {
            Some(pressed) => Some(*pressed),
            None => None,
        }
    }

    /// Records the key as pressed, and hands it to the machine if the
    /// machine is waiting for one.
    pub fn onKeyDown(&mut self, keyCode: u8, cpu: &mut CPU)
        ensures
            final(self)@ == key_down(old(self)@, old(cpu)@, keyCode).keys,
            final(cpu)@ == key_down(old(self)@, old(cpu)@, keyCode).machine,
            final(cpu)@.wf(),
    {
        self.keypressed.insert(keyCode, true);
        if cpu.isPaused() {
            cpu.unpause(keyCode);
        }
    }

    /// Records the key as released.
    pub fn onKeyUp(&mut self, keyCode: u8)
        ensures
            final(self)@ == old(self)@.insert(keyCode, false),
    {
        self.keypressed.insert(keyCode, false);
    }

    /// Hears the events of one frame, in order.
    pub fn handleInput(&mut self, input: &Vec<KeyEvent>, cpu: &mut CPU)
        ensures
            final(self)@ == heard(old(self)@, old(cpu)@, input@).keys,
            final(cpu)@ == heard(old(self)@, old(cpu)@, input@).machine,
            final(cpu)@.wf(),
    {
        let mut at: usize = 0;
        while at < input.len()
            invariant
                at <= input.len(),
                self@ == heard(old(self)@, old(cpu)@, input@.take(at as int)).keys,
                cpu@ == heard(old(self)@, old(cpu)@, input@.take(at as int)).machine,
            decreases input.len() - at,
        {
            assert(input@.take(at + 1).drop_last() =~= input@.take(at as int));
            match input[at] {
                KeyEvent::Down(key) => {
                    self.onKeyDown(key.code(), cpu);
                },
                KeyEvent::Up(key) => {
                    self.onKeyUp(key.code());
                },
            }
            at += 1;
        }
        assert(input@.take(input.len() as int) =~= input@);
        proof {
            cpu.lemma_wf();
        }
    }
}

} // verus!
