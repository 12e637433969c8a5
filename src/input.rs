use vstd::prelude::*;

verus! {

pub const NOP: u16 = 0;
pub const FORWARD: u16 = 0x0001;
pub const BACKWARD: u16 = 0x0002;
pub const STRAFELEFT: u16 = 0x0004;
pub const STRAFERIGHT: u16 = 0x0008;
pub const SHOOT: u16 = 0x0010;
pub const USE: u16 = 0x0020;
pub const RUN: u16 = 0x0040;
pub const RELOAD: u16 = 0x0080;
pub const SELECT1: u16 = 0x0100;
pub const SELECT2: u16 = 0x0200;
pub const SELECT3: u16 = 0x0400;
pub const SELECT4: u16 = 0x0800;
pub const UP: u16 = 0x1000;
pub const DOWN: u16 = 0x2000;
pub const LEFT: u16 = 0x4000;
pub const RIGHT: u16 = 0x8000;

/// Whether any flag of `mask` is set in `flags`.
pub open spec fn has_flag(flags: u16, mask: u16) -> bool {
    flags & mask != 0
}

/// The weapon-select flags, in order of precedence.
pub open spec fn selections() -> Seq<u16> {
    seq![SELECT1, SELECT2, SELECT3, SELECT4]
}

/// The first weapon-select flag of `flags` in order of precedence.
pub open spec fn selection_of(flags: u16) -> Option<u16> {
    if has_flag(flags, SELECT1) {
        Some(SELECT1)
    } else if has_flag(flags, SELECT2) {
        Some(SELECT2)
    } else if has_flag(flags, SELECT3) {
        Some(SELECT3)
    } else if has_flag(flags, SELECT4) {
        Some(SELECT4)
    } else {
        None
    }
}

/// The slot index that a selection asks for; the fourth slot has no mapping.
pub open spec fn slot_of(flags: u16) -> Option<usize> {
    match selection_of(flags) {
        Some(s) => if s == SELECT1 {
            Some(0usize)
        } else if s == SELECT2 {
            Some(1usize)
        } else if s == SELECT3 {
            Some(2usize)
        } else {
            None
        },
        None => None,
    }
}

/// One tick's input of a combatant: the asserted action flags and the aim
/// point, in millimetres.
#[derive(Clone, Copy, Debug, PartialEq, Eq, Structural)]
pub struct Input {
    pub flags: u16,
    pub cursor_x: i64,
    pub cursor_y: i64,
}

impl Input {
    pub fn intersects(&self, mask: u16) -> (r: bool)
        ensures
            r == has_flag(self.flags, mask),
    {
        self.flags & mask != 0
    }

    /// Returns the first weapon-select flag that is asserted, if any.
    pub fn get_selection(&self) -> (r: Option<u16>)
        ensures
            r == selection_of(self.flags),
    {
        let order: [u16; 4] = [SELECT1, SELECT2, SELECT3, SELECT4];
        let mut i: usize = 0;
        while i < 4
            invariant
                0 <= i <= 4,
                order@ == selections(),
                forall|j: int| 0 <= j < i ==> !has_flag(self.flags, #[trigger] selections()[j]),
            decreases 4 - i,
        {
            if self.flags & order[i] != 0 {
                return Some(order[i]);
            }
            i = i + 1;
        }
        proof {
            assert(!has_flag(self.flags, selections()[0]));
            assert(!has_flag(self.flags, selections()[1]));
            assert(!has_flag(self.flags, selections()[2]));
            assert(!has_flag(self.flags, selections()[3]));
        }
        None
    }

    /// The slot index that this input selects.
    pub fn selected_slot(&self) -> (r: Option<usize>)
        ensures
            r == slot_of(self.flags),
    {
        match self.get_selection() {
            Some(s) => if s == SELECT1 {
                Some(0)
            } else if s == SELECT2 {
                Some(1)
            } else if s == SELECT3 {
                Some(2)
            } else {
                None
            },
            None => None,
        }
    }
}

impl Default for Input {
    fn default() -> (r: Input)
        ensures
            r.flags == NOP,
            r.cursor_x == 0,
            r.cursor_y == 0,
    {
        Input { flags: NOP, cursor_x: 0, cursor_y: 0 }
    }
}

} // verus!
