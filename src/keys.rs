use vstd::prelude::*;

verus! {

/// A key as the session reads it.
#[derive(Clone, Copy, Debug, PartialEq, Eq, Structural)]
pub enum Key {
    Char(char),
    Enter,
    Esc,
    Tab,
    Backspace,
    Up,
    Down,
    Left,
    Right,
    Other,
}

/// The modifier keys held with a key; `extra` stands for any modifier
/// besides shift, control and alt.
#[derive(Clone, Copy, Debug, PartialEq, Eq, Structural)]
pub struct Modifiers {
    pub shift: bool,
    pub control: bool,
    pub alt: bool,
    pub extra: bool,
}

impl Modifiers {
    pub open spec fn is_control(self) -> bool {
        self.control && !self.shift && !self.alt && !self.extra
    }

    pub open spec fn is_alt(self) -> bool {
        self.alt && !self.shift && !self.control && !self.extra
    }

    pub fn none() -> (r: Modifiers)
        ensures
            !r.shift && !r.control && !r.alt && !r.extra,
    {
        Modifiers { shift: false, control: false, alt: false, extra: false }
    }

    pub fn control() -> (r: Modifiers)
        ensures
            r.is_control(),
    {
        Modifiers { shift: false, control: true, alt: false, extra: false }
    }

    pub fn alt() -> (r: Modifiers)
        ensures
            r.is_alt(),
    {
        Modifiers { shift: false, control: false, alt: true, extra: false }
    }
}

} // verus!
