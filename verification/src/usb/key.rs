//! Keyboard modifier keys, as the first byte of a boot-protocol
//! report encodes them: one bit per modifier, left-hand keys in the
//! low nibble.

use vstd::prelude::*;

verus! {

#[derive(Clone, Copy, Debug, PartialEq, Eq, Structural)]
pub enum Modifier {
    LCtrl,
    LShift,
    LAlt,
    LGui,
    RCtrl,
    RShift,
    RAlt,
    RGui,
}

/// The modifier byte of a keyboard report.
#[derive(Clone, Copy, Debug, Default, PartialEq, Eq, Structural)]
pub struct ModifierSet(pub u8);

/// The modifiers a byte holds, in bit order.
pub open spec fn spec_modifiers_of(m: u8) -> Seq<Modifier> {
    (if m & 1 == 1 {
        seq![Modifier::LCtrl]
    } else {
        Seq::empty()
    }) + (if m >> 1 & 1 == 1 {
        seq![Modifier::LShift]
    } else {
        Seq::empty()
    }) + (if m >> 2 & 1 == 1 {
        seq![Modifier::LAlt]
    } else {
        Seq::empty()
    }) + (if m >> 3 & 1 == 1 {
        seq![Modifier::LGui]
    } else {
        Seq::empty()
    }) + (if m >> 4 & 1 == 1 {
        seq![Modifier::RCtrl]
    } else {
        Seq::empty()
    }) + (if m >> 5 & 1 == 1 {
        seq![Modifier::RShift]
    } else {
        Seq::empty()
    }) + (if m >> 6 & 1 == 1 {
        seq![Modifier::RAlt]
    } else {
        Seq::empty()
    }) + (if m >> 7 & 1 == 1 {
        seq![Modifier::RGui]
    } else {
        Seq::empty()
    })
}

impl ModifierSet {
    /// The modifiers held down, in bit order.
    #[verifier::rlimit(100)]
    pub fn get(&self) -> (v: Vec<Modifier>)
        ensures
            v@ == spec_modifiers_of(self.0),
    {
        let mut v: Vec<Modifier> = Vec::new();
        if self.l_ctrl() {
            v.push(Modifier::LCtrl);
        }
        if self.l_shift() {
            v.push(Modifier::LShift);
        }
        if self.l_alt() {
            v.push(Modifier::LAlt);
        }
        if self.l_gui() {
            v.push(Modifier::LGui);
        }
        if self.r_ctrl() {
            v.push(Modifier::RCtrl);
        }
        if self.r_shift() {
            v.push(Modifier::RShift);
        }
        if self.r_alt() {
            v.push(Modifier::RAlt);
        }
        if self.r_gui() {
            v.push(Modifier::RGui);
        }
        proof {
            assert(v@ =~= spec_modifiers_of(self.0));
        }
        v
    }

    pub fn l_ctrl(&self) -> (r: bool)
        ensures
            r == (self.0 & 1 == 1),
    {
        self.0 & (1) == 1
    }

    pub fn l_shift(&self) -> (r: bool)
        ensures
            r == (self.0 >> 1 & 1 == 1),
    {
        self.0 >> 1 & 1 == 1
    }

    pub fn l_alt(&self) -> (r: bool)
        ensures
            r == (self.0 >> 2 & 1 == 1),
    {
        self.0 >> 2 & 1 == 1
    }

    pub fn l_gui(&self) -> (r: bool)
        ensures
            r == (self.0 >> 3 & 1 == 1),
    {
        self.0 >> 3 & 1 == 1
    }

    pub fn r_ctrl(&self) -> (r: bool)
        ensures
            r == (self.0 >> 4 & 1 == 1),
    {
        self.0 >> 4 & 1 == 1
    }

    pub fn r_shift(&self) -> (r: bool)
        ensures
            r == (self.0 >> 5 & 1 == 1),
    {
        self.0 >> 5 & 1 == 1
    }

    pub fn r_alt(&self) -> (r: bool)
        ensures
            r == (self.0 >> 6 & 1 == 1),
    {
        self.0 >> 6 & 1 == 1
    }

    pub fn r_gui(&self) -> (r: bool)
        ensures
            r == (self.0 >> 7 & 1 == 1),
    {
        self.0 >> 7 & 1 == 1
    }
}

} // verus!
