//! Health, damage and heal rules: the arithmetic the game applies when a
//! damage or heal request reaches an entity, kept apart from the engine
//! plumbing that delivers those requests.

use vstd::prelude::*;

verus! {

/// Marks an entity as alive.
#[derive(Debug)]
pub struct Alive;

/// Marks an entity as dead.
#[derive(Debug)]
pub struct Dead;

/// Tracks an entity's health. Current health never exceeds the maximum.
#[derive(Debug, Clone, Copy, PartialEq, Eq)]
pub struct Health {
    pub maximum: u32,
    pub current: u32,
}

impl Health {
    /// Current health never exceeds the maximum.
    pub open spec fn inv(self) -> bool {
        self.current <= self.maximum
    }

    /// A new entity starts at full health.
    pub fn new(maximum: u32) -> (r: Self)
        ensures
            r.maximum == maximum,
            r.current == maximum,
            r.inv(),
    {
        Self { maximum, current: maximum }
    }

    /// Overrides the current health on instantiation, clamped to the
    /// maximum.
    pub fn with_current_health(self, health: u32) -> (r: Self)
        ensures
            r.maximum == self.maximum,
            health >= self.maximum ==> r.current == self.maximum,
            health < self.maximum ==> r.current == health,
            r.inv(),
    {
        let mut s = self;
        if health >= s.maximum {
            s.current = s.maximum;
            s
        } else {
            s.current = health;
            s
        }
    }

    /// Applies one damage request. Damage at or above the current health
    /// kills the entity: health drops to zero and the call reports death.
    /// Lesser damage is subtracted.
    pub fn apply_damage(&mut self, damage: u32) -> (died: bool)
        ensures
            final(self).maximum == old(self).maximum,
            damage >= old(self).current ==> final(self).current == 0 && died,
            damage < old(self).current ==> final(self).current == old(self).current - damage
                && !died,
            old(self).inv() ==> final(self).inv(),
    {
        if damage >= self.current {
            self.current = 0;
            true
        } else {
            self.current = self.current - damage;
            false
        }
    }

    /// Applies one heal request: current health rises by the healed amount,
    /// clamped to the maximum.
    pub fn apply_heal(&mut self, heal: u32)
        requires
            old(self).inv(),
        ensures
            final(self).maximum == old(self).maximum,
            heal >= old(self).maximum - old(self).current ==> final(self).current
                == old(self).maximum,
            heal < old(self).maximum - old(self).current ==> final(self).current
                == old(self).current + heal,
            final(self).inv(),
    {
        if heal >= self.maximum - self.current {
            self.current = self.maximum;
        } else {
            self.current = self.current + heal;
        }
    }
}

/// Marks an entity that has a pending damage request of the given amount.
#[derive(Debug, Clone, Copy, PartialEq, Eq)]
pub struct Damage {
    pub value: u32,
}

impl Damage {
    pub fn new(value: u32) -> (r: Self)
        ensures
            r.value == value,
    {
        Self { value }
    }
}

/// How much damage an entity deals.
#[derive(Debug, Clone, Copy, PartialEq, Eq)]
pub struct DamageFactor {
    pub value: u32,
}

impl DamageFactor {
    pub fn new(value: u32) -> (r: Self)
        ensures
            r.value == value,
    {
        Self { value }
    }
}

/// Marks an entity that has a pending heal request of the given amount.
#[derive(Debug, Clone, Copy, PartialEq, Eq)]
pub struct Heal {
    pub value: u32,
}

impl Heal {
    pub fn new(value: u32) -> (r: Self)
        ensures
            r.value == value,
    {
        Self { value }
    }
}

/// How much an entity heals.
#[derive(Debug, Clone, Copy, PartialEq, Eq)]
pub struct HealFactor {
    pub value: u32,
}

impl HealFactor {
    pub fn new(value: u32) -> (r: Self)
        ensures
            r.value == value,
    {
        Self { value }
    }
}

} // verus!
