use vstd::prelude::*;

verus! {

/// Number of time units (microseconds) in one second.
pub const MICROS_PER_SEC: u64 = 1_000_000;

/// How a weapon releases its projectiles.
#[derive(Clone, Copy, Debug, PartialEq, Eq, Structural)]
pub enum Shot {
    Single,
    Multi(u32),
}

/// Immutable characteristics of one weapon type.
///
/// Times are in microseconds, lengths in millimetres, speeds in millimetres
/// per second. The fire rate is held as the shortest allowed interval between
/// two shots.
#[derive(Clone, Copy, Debug, PartialEq, Eq, Structural)]
pub struct WeaponDetails {
    pub damage: u32,
    pub bullet_distance_limit: u64,
    pub fire_interval: u64,
    pub magazine_size: u32,
    pub reload_time: u64,
    pub spread: u32,
    pub shot: Shot,
    pub bullet_speed: u32,
    pub automatic: bool,
}

impl WeaponDetails {
    pub open spec fn wf(&self) -> bool {
        &&& self.magazine_size > 0
        &&& self.bullet_speed > 0
    }

    /// How long, in microseconds, a bullet of this weapon may fly before it
    /// has travelled its distance limit; capped at `max_lifespan`.
    pub open spec fn lifespan_spec(&self, max_lifespan: u64) -> int {
        let travel = (self.bullet_distance_limit as int * MICROS_PER_SEC as int) / self.bullet_speed as int;
        if travel < max_lifespan as int { travel } else { max_lifespan as int }
    }
}

/// One equipped weapon: its details and its live state.
#[derive(Clone, Copy, Debug, PartialEq, Eq, Structural)]
pub struct Weapon {
    pub details: WeaponDetails,
    pub bullets_left_in_magazine: u32,
    pub last_shot_time: Option<u64>,
    pub reload_started_at: Option<u64>,
    pub input_lifted: bool,
}

impl Weapon {
    /// Ammunition never exceeds the magazine, and a reload is pending only
    /// while the magazine is not full.
    pub open spec fn wf(&self) -> bool {
        &&& self.details.wf()
        &&& self.bullets_left_in_magazine <= self.details.magazine_size
        &&& self.reload_started_at is Some ==> self.bullets_left_in_magazine < self.details.magazine_size
    }

    pub open spec fn cooled_down(&self, now: u64) -> bool {
        match self.last_shot_time {
            None => true,
            Some(t) => now as int - t as int >= self.details.fire_interval as int,
        }
    }

    pub open spec fn ready_to_shoot(&self, now: u64) -> bool {
        &&& self.bullets_left_in_magazine > 0
        &&& self.cooled_down(now)
        &&& (self.details.automatic || self.input_lifted)
    }

    pub open spec fn ready_to_reload(&self) -> bool {
        &&& self.reload_started_at is None
        &&& self.bullets_left_in_magazine < self.details.magazine_size
    }

    pub open spec fn reload_due(&self, now: u64) -> bool {
        match self.reload_started_at {
            None => false,
            Some(s) => now as int >= s as int + self.details.reload_time as int,
        }
    }

    /// The state after one shot taken at `now`.
    pub open spec fn fired(self, now: u64) -> Weapon {
        let left = (self.bullets_left_in_magazine - 1) as u32;
        Weapon {
            bullets_left_in_magazine: left,
            last_shot_time: Some(now),
            input_lifted: false,
            reload_started_at: if left == 0 && self.reload_started_at is None {
                Some(now)
            } else {
                self.reload_started_at
            },
            ..self
        }
    }

    /// The state after a finished reload.
    pub open spec fn reloaded(self) -> Weapon {
        Weapon {
            bullets_left_in_magazine: self.details.magazine_size,
            reload_started_at: None,
            ..self
        }
    }

    /// A weapon with a full magazine, never fired, trigger released.
    pub fn new(details: WeaponDetails) -> (r: Weapon)
        requires
            details.wf(),
        ensures
            r.wf(),
            r.details == details,
            r.bullets_left_in_magazine == details.magazine_size,
            r.last_shot_time is None,
            r.reload_started_at is None,
            r.input_lifted,
    {
        Weapon {
            details,
            bullets_left_in_magazine: details.magazine_size,
            last_shot_time: None,
            reload_started_at: None,
            input_lifted: true,
        }
    }

    pub fn is_allowed_to_shoot(&self, now: u64) -> (r: bool)
        ensures
            r == self.ready_to_shoot(now),
    {
        let cooled = match self.last_shot_time {
            None => true,
            Some(t) => now >= t && now - t >= self.details.fire_interval,
        };
        self.bullets_left_in_magazine > 0 && cooled && (self.details.automatic || self.input_lifted)
    }

    pub fn is_allowed_to_reload(&self) -> (r: bool)
        ensures
            r == self.ready_to_reload(),
    {
        self.reload_started_at.is_none() && self.bullets_left_in_magazine < self.details.magazine_size
    }

    pub fn bullet_lifespan(&self, max_lifespan: u64) -> (r: u64)
        requires
            self.details.wf(),
        ensures
            r as int == self.details.lifespan_spec(max_lifespan),
    {
        let travel: u128 = (self.details.bullet_distance_limit as u128) * (MICROS_PER_SEC as u128)
            / (self.details.bullet_speed as u128);
        if travel < max_lifespan as u128 {
            travel as u64
        } else {
            max_lifespan
        }
    }

    /// Takes one shot at `now`: spends a bullet, records the time, arms the
    /// trigger again only after a release, and starts a reload when the
    /// magazine runs dry.
    pub fn fire(&mut self, now: u64)
        requires
            old(self).wf(),
            old(self).ready_to_shoot(now),
        ensures
            *final(self) == old(self).fired(now),
            final(self).wf(),
    {
        self.last_shot_time = Some(now);
        self.input_lifted = false;
        self.bullets_left_in_magazine = self.bullets_left_in_magazine - 1;
        if self.bullets_left_in_magazine == 0 && self.is_allowed_to_reload() {
            self.reload_started_at = Some(now);
        }
    }

    /// Refills the magazine when the pending reload has run its full time;
    /// tells whether it did.
    pub fn finish_reload_if_due(&mut self, now: u64) -> (done: bool)
        requires
            old(self).wf(),
        ensures
            done == old(self).reload_due(now),
            *final(self) == if done { old(self).reloaded() } else { *old(self) },
            final(self).wf(),
    {
        match self.reload_started_at {
            Some(start) => {
                if now as u128 >= start as u128 + self.details.reload_time as u128 {
                    self.bullets_left_in_magazine = self.details.magazine_size;
                    self.reload_started_at = None;
                    true
                } else {
                    false
                }
            },
            None => false,
        }
    }
}

} // verus!
