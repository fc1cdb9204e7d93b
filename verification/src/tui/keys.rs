//! Key events as the user interfaces see them: a key code and the modifier
//! keys held with it.
use vstd::prelude::*;

verus! {

/// A key of the keyboard.
#[derive(Debug, Clone, Copy, PartialEq, Eq, Hash, Structural)]
pub enum KeyCode {
    Backspace,
    Enter,
    Left,
    Right,
    Up,
    Down,
    Home,
    End,
    PageUp,
    PageDown,
    Tab,
    BackTab,
    Delete,
    Insert,
    /// A function key, by number.
    F(u8),
    /// A character key.
    Char(char),
    Null,
    Esc,
    CapsLock,
    ScrollLock,
    NumLock,
    PrintScreen,
    Pause,
    Menu,
    KeypadBegin,
    /// A media key or a lone modifier key.
    Other,
}

/// The modifier keys held with a key: none, one of shift, control and
/// alt, or another combination given by its flag bits (shift 1, control 2,
/// alt 4, super 8, hyper 16, meta 32).
#[allow(non_camel_case_types)]
#[derive(Debug, Clone, Copy, PartialEq, Eq, Hash, Structural)]
pub enum KeyModifiers {
    NONE,
    SHIFT,
    CONTROL,
    ALT,
    Combo(u8),
}

/// The flag bits of a set of modifiers.
pub open spec fn modifier_bits(m: KeyModifiers) -> u8 {
    match m {
        KeyModifiers::NONE => 0,
        KeyModifiers::SHIFT => 1,
        KeyModifiers::CONTROL => 2,
        KeyModifiers::ALT => 4,
        KeyModifiers::Combo(b) => b,
    }
}

/// The canonical value for the given flag bits.
pub open spec fn modifiers_of(bits: u8) -> KeyModifiers {
    if bits == 0 {
        KeyModifiers::NONE
    } else if bits == 1 {
        KeyModifiers::SHIFT
    } else if bits == 2 {
        KeyModifiers::CONTROL
    } else if bits == 4 {
        KeyModifiers::ALT
    } else {
        KeyModifiers::Combo(bits)
    }
}

impl KeyModifiers {
    /// The modifiers with the given flag bits.
    pub fn from_bits(bits: u8) -> (r: KeyModifiers)
        ensures
            r == modifiers_of(bits),
            modifier_bits(r) == bits,
    {
        if bits == 0 {
            KeyModifiers::NONE
        } else if bits == 1 {
            KeyModifiers::SHIFT
        } else if bits == 2 {
            KeyModifiers::CONTROL
        } else if bits == 4 {
            KeyModifiers::ALT
        } else {
            KeyModifiers::Combo(bits)
        }
    }

    /// The flag bits of these modifiers.
    pub fn bits(self) -> (r: u8)
        ensures
            r == modifier_bits(self),
    {
        match self {
            KeyModifiers::NONE => 0,
            KeyModifiers::SHIFT => 1,
            KeyModifiers::CONTROL => 2,
            KeyModifiers::ALT => 4,
            KeyModifiers::Combo(b) => b,
        }
    }

    /// Whether every modifier of `other` is held.
    pub fn contains(self, other: KeyModifiers) -> (r: bool)
        ensures
            r == (modifier_bits(self) & modifier_bits(other) == modifier_bits(other)),
    {
        self.bits() & other.bits() == other.bits()
    }

    /// Whether no modifier is held.
    pub fn is_empty(self) -> (r: bool)
        ensures
            r == (modifier_bits(self) == 0),
    {
        self.bits() == 0
    }
}

/// The shift key is among the held modifiers.
pub open spec fn has_shift(m: KeyModifiers) -> bool {
    modifier_bits(m) & 1 == 1
}

/// The control key is among the held modifiers.
pub open spec fn has_control(m: KeyModifiers) -> bool {
    modifier_bits(m) & 2 == 2
}

} // verus!
