use vstd::prelude::*;

verus! {

/// One of the sixteen keys of the hexadecimal keypad.
#[derive(Copy, Clone, Debug, PartialEq, Eq, Structural)]
pub enum KeyCodes {
    Key0,
    Key1,
    Key2,
    Key3,
    Key4,
    Key5,
    Key6,
    Key7,
    Key8,
    Key9,
    KeyA,
    KeyB,
    KeyC,
    KeyD,
    KeyE,
    KeyF,
}

impl KeyCodes {
    /// The number written on the key.
    pub open spec fn spec_value(self) -> u8 {
        match self {
            KeyCodes::Key0 => 0x0,
            KeyCodes::Key1 => 0x1,
            KeyCodes::Key2 => 0x2,
            KeyCodes::Key3 => 0x3,
            KeyCodes::Key4 => 0x4,
            KeyCodes::Key5 => 0x5,
            KeyCodes::Key6 => 0x6,
            KeyCodes::Key7 => 0x7,
            KeyCodes::Key8 => 0x8,
            KeyCodes::Key9 => 0x9,
            KeyCodes::KeyA => 0xA,
            KeyCodes::KeyB => 0xB,
            KeyCodes::KeyC => 0xC,
            KeyCodes::KeyD => 0xD,
            KeyCodes::KeyE => 0xE,
            KeyCodes::KeyF => 0xF,
        }
    }

    /// The number written on the key.
    pub fn value(&self) -> (r: u8)
        ensures
            r == self.spec_value(),
            r < 16,
    {
        match self {
            KeyCodes::Key0 => 0x0,
            KeyCodes::Key1 => 0x1,
            KeyCodes::Key2 => 0x2,
            KeyCodes::Key3 => 0x3,
            KeyCodes::Key4 => 0x4,
            KeyCodes::Key5 => 0x5,
            KeyCodes::Key6 => 0x6,
            KeyCodes::Key7 => 0x7,
            KeyCodes::Key8 => 0x8,
            KeyCodes::Key9 => 0x9,
            KeyCodes::KeyA => 0xA,
            KeyCodes::KeyB => 0xB,
            KeyCodes::KeyC => 0xC,
            KeyCodes::KeyD => 0xD,
            KeyCodes::KeyE => 0xE,
            KeyCodes::KeyF => 0xF,
        }
    }
}

} // verus!
