//! Player attributes and the rules by which they change.
//!
//! A player carries a name and three attributes: vitality (health points),
//! speed (pacing of that player's counter), and strength (a scoring bonus).
//! Attributes only ever decrease, and never below zero.

use vstd::prelude::*;

verus! {

/// A player with a name and three non-negative attributes.
#[derive(Debug, Clone)]
pub struct Player {
    name: String,
    vitality: u32,
    speed: u32,
    strength: u32,
}

impl Player {
    /// The player's name, as a sequence of characters.
    pub closed spec fn spec_name(self) -> Seq<char> {
        self.name@
    }

    /// The player's current vitality.
    pub closed spec fn spec_vitality(self) -> u32 {
        self.vitality
    }

    /// The player's current speed.
    pub closed spec fn spec_speed(self) -> u32 {
        self.speed
    }

    /// The player's current strength.
    pub closed spec fn spec_strength(self) -> u32 {
        self.strength
    }

    /// Creates a new player with the given name and attributes.
    pub fn new(name: String, vitality: u32, speed: u32, strength: u32) -> (r: Self)
        ensures
            r.spec_name() == name@,
            r.spec_vitality() == vitality,
            r.spec_speed() == speed,
            r.spec_strength() == strength,
    {
        Self { name, vitality, speed, strength }
    }

    /// Returns the player's name.
    pub fn name(&self) -> (r: &str)
        ensures
            r@ == self.spec_name(),
    {
        self.name.as_str()
    }

    /// Returns the player's current vitality.
    pub fn vitality(&self) -> (r: u32)
        ensures
            r == self.spec_vitality(),
    {
        self.vitality
    }

    /// Returns the player's current speed.
    pub fn speed(&self) -> (r: u32)
        ensures
            r == self.spec_speed(),
    {
        self.speed
    }

    /// Returns the player's current strength.
    pub fn strength(&self) -> (r: u32)
        ensures
            r == self.spec_strength(),
    {
        self.strength
    }

    /// Decreases the player's vitality by the given amount, stopping at zero.
    pub fn decrease_vitality(&mut self, amount: u32)
        ensures
            final(self).spec_vitality() == sub_to_zero(old(self).spec_vitality(), amount),
            final(self).spec_name() == old(self).spec_name(),
            final(self).spec_speed() == old(self).spec_speed(),
            final(self).spec_strength() == old(self).spec_strength(),
    {
        self.vitality = self.vitality.saturating_sub(amount);
    }

    /// Decreases the player's speed by the given amount, stopping at zero.
    pub fn decrease_speed(&mut self, amount: u32)
        ensures
            final(self).spec_speed() == sub_to_zero(old(self).spec_speed(), amount),
            final(self).spec_name() == old(self).spec_name(),
            final(self).spec_vitality() == old(self).spec_vitality(),
            final(self).spec_strength() == old(self).spec_strength(),
    {
        self.speed = self.speed.saturating_sub(amount);
    }

    /// Decreases the player's strength by the given amount, stopping at zero.
    pub fn decrease_strength(&mut self, amount: u32)
        ensures
            final(self).spec_strength() == sub_to_zero(old(self).spec_strength(), amount),
            final(self).spec_name() == old(self).spec_name(),
            final(self).spec_vitality() == old(self).spec_vitality(),
            final(self).spec_speed() == old(self).spec_speed(),
    {
        self.strength = self.strength.saturating_sub(amount);
    }
}

/// Subtraction on attributes: the result stops at zero instead of wrapping.
pub open spec fn sub_to_zero(a: u32, b: u32) -> u32 {
    if b <= a {
        (a - b) as u32
    } else {
        0u32
    }
}

} // verus!
