use vstd::prelude::*;

verus! {

/// An in-game status effect or item that a story fragment may point at.
#[derive(Clone, Copy, Debug, PartialEq, Eq, Structural, Hash)]
pub enum JamEffect {
    Hunger,
    SuperHumanStrength,
    Antivenom,
    CureDisease,
    Coagulant,
    Speed,
    Invisibility,
    Poison,
    Flammable,
    Flight,
    NightVision,
}

} // verus!
