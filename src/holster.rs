use vstd::prelude::*;

use crate::weapon::Weapon;

verus! {

/// The weapon slots of one combatant and which of them is in hand.
pub struct Holster {
    guns: Vec<Weapon>,
    names: Vec<String>,
    active: usize,
}

impl Holster {
    pub closed spec fn guns(&self) -> Seq<Weapon> {
        self.guns@
    }

    pub closed spec fn names(&self) -> Seq<String> {
        self.names@
    }

    pub closed spec fn active(&self) -> int {
        self.active as int
    }

    /// Every slot has a name and a well-formed weapon, and the active slot
    /// is one of them.
    pub open spec fn wf(&self) -> bool {
        &&& self.guns().len() == self.names().len()
        &&& 0 <= self.active() < self.guns().len()
        &&& forall|i: int| 0 <= i < self.guns().len() ==> #[trigger] self.guns()[i].wf()
    }

    pub open spec fn active_gun_spec(&self) -> Weapon {
        self.guns()[self.active()]
    }

    /// A holster with the given weapons in order; the first is in hand.
    pub fn new_with_guns(guns: Vec<Weapon>, names: Vec<String>) -> (r: Holster)
        requires
            guns@.len() > 0,
            guns@.len() == names@.len(),
            forall|i: int| 0 <= i < guns@.len() ==> #[trigger] guns@[i].wf(),
        ensures
            r.wf(),
            r.guns() == guns@,
            r.names() == names@,
            r.active() == 0,
    {
        Holster { guns, names, active: 0 }
    }

    pub fn active_slot(&self) -> (r: usize)
        ensures
            r as int == self.active(),
    {
        self.active
    }

    pub fn slot_count(&self) -> (r: usize)
        ensures
            r as int == self.guns().len(),
    {
        self.guns.len()
    }

    pub fn active_gun(&self) -> (r: Weapon)
        requires
            self.wf(),
        ensures
            r == self.active_gun_spec(),
            r.wf(),
    {
        self.guns[self.active]
    }

    pub fn active_name(&self) -> (r: &String)
        requires
            self.wf(),
        ensures
            *r == self.names()[self.active()],
    {
        &self.names[self.active]
    }

    /// Puts `gun` in the place of the weapon in hand.
    pub fn set_active_gun(&mut self, gun: Weapon)
        requires
            old(self).wf(),
            gun.wf(),
        ensures
            final(self).wf(),
            final(self).guns() == old(self).guns().update(old(self).active(), gun),
            final(self).names() == old(self).names(),
            final(self).active() == old(self).active(),
    {
        let i = self.active;
        self.guns.set(i, gun);
    }

    /// Takes the weapon of `slot` in hand when that is an existing slot other
    /// than the active one, and returns its name; otherwise changes nothing.
    pub fn switch(&mut self, slot: usize) -> (r: Option<String>)
        requires
            old(self).wf(),
        ensures
            final(self).wf(),
            final(self).guns() == old(self).guns(),
            final(self).names() == old(self).names(),
            (slot < old(self).guns().len() && slot != old(self).active()) ==> (
                final(self).active() == slot && r == Some(old(self).names()[slot as int])),
            !(slot < old(self).guns().len() && slot != old(self).active()) ==> (
                final(self).active() == old(self).active() && r is None),
    {
        if slot < self.guns.len() && slot != self.active {
            self.active = slot;
            Some(self.names[slot].clone())
        } else {
            None
        }
    }
}

} // verus!
