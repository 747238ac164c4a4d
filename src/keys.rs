use vstd::prelude::*;

verus! {

/// No modifier held.
pub const NONE: u8 = 0;

/// Modifier bit of the shift key.
pub const SHIFT: u8 = 1;

/// Modifier bit of the control key.
pub const CONTROL: u8 = 2;

/// Modifier bit of the alt key.
pub const ALT: u8 = 4;

/// The keys that the engine and its screens tell apart.
#[derive(Clone, Copy, Debug, PartialEq, Eq, Structural)]
pub enum KeyCode {
    Up,
    Down,
    Enter,
    Esc,
    Char(char),
    Other,
}

/// One key press: the key and the set of modifiers held, as bits.
#[derive(Clone, Copy, Debug, PartialEq, Eq, Structural)]
pub struct KeyEvent {
    pub code: KeyCode,
    pub modifiers: u8,
}

impl KeyEvent {
    /// The reserved chord that ends the program from any focus: control and
    /// `c`, with no other modifier.
    pub open spec fn is_force_quit_spec(&self) -> bool {
        self.code == KeyCode::Char('c') && self.modifiers == CONTROL
    }

    #[verifier::when_used_as_spec(is_force_quit_spec)]
    pub fn is_force_quit(&self) -> (r: bool)
        ensures
            r == self.is_force_quit_spec(),
    {
        match self.code {
            KeyCode::Char(c) => c == 'c' && self.modifiers == CONTROL,
            _ => false,
        }
    }
}

} // verus!
