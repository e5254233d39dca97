//! The player's weapon and its upgrades.
use vstd::prelude::*;

verus! {

/// The player's gun: one, two or three bullets per volley.
#[derive(Clone, Copy, Debug, PartialEq, Eq, Structural)]
pub enum Weapon {
    Single,
    Double,
    Triple,
}

/// The weapon after one upgrade pickup: single becomes double, anything
/// else becomes triple.
pub open spec fn upgraded(w: Weapon) -> Weapon {
    match w {
        Weapon::Single => Weapon::Double,
        _ => Weapon::Triple,
    }
}

/// How many bullets a weapon fires per volley.
pub open spec fn volley_size_of(w: Weapon) -> nat {
    match w {
        Weapon::Single => 1,
        Weapon::Double => 2,
        Weapon::Triple => 3,
    }
}

impl Weapon {
    /// The weapon after collecting a weapon upgrade.
    pub fn upgrade(self) -> (r: Weapon)
        ensures
            r == upgraded(self),
    {
        match self {
            Weapon::Single => Weapon::Double,
            _ => Weapon::Triple,
        }
    }

    /// Bullets fired per volley.
    pub fn volley_size(self) -> (r: usize)
        ensures
            r == volley_size_of(self),
    {
        match self {
            Weapon::Single => 1,
            Weapon::Double => 2,
            Weapon::Triple => 3,
        }
    }
}

/// Upgrades only ever add bullets, and two upgrades reach the triple gun
/// from any weapon, where further upgrades change nothing.
pub proof fn lemma_upgrade_monotone(w: Weapon)
    ensures
        volley_size_of(upgraded(w)) >= volley_size_of(w),
        upgraded(upgraded(w)) == Weapon::Triple,
        upgraded(Weapon::Triple) == Weapon::Triple,
{
}

/// The starting gun fires one bullet per volley, and every upgrade that
/// changes the gun adds exactly one bullet; only the triple gun is left
/// unchanged by an upgrade.
pub proof fn lemma_upgrade_adds_a_bullet(w: Weapon)
    ensures
        volley_size_of(Weapon::Single) == 1,
        upgraded(w) != w ==> volley_size_of(upgraded(w)) == volley_size_of(w) + 1,
        upgraded(w) == w <==> w == Weapon::Triple,
{
}

} // verus!
