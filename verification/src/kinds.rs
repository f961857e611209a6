//! Plain names for the resource kinds and planet types of the game.
use vstd::prelude::*;

verus! {

/// A basic resource kind, as the game's generator knows them.
#[derive(Clone, Copy, Debug, PartialEq, Eq, Structural, Hash)]
pub enum BasicKind {
    Oxygen,
    Hydrogen,
    Carbon,
    Silicon,
}

/// A complex resource kind, as the game's combinator knows them.
#[derive(Clone, Copy, Debug, PartialEq, Eq, Structural, Hash)]
pub enum ComplexKind {
    Diamond,
    Water,
    Life,
    Robot,
    Dolphin,
    AIPartner,
}

/// The planet types of the game, each with its own rules.
#[derive(Clone, Copy, Debug, PartialEq, Eq, Structural)]
pub enum PlanetKind {
    A,
    B,
    C,
    D,
}

} // verus!
