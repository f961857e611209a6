//! What a Cargonauts planet is made of: its type and its recipes.
use vstd::prelude::*;
use crate::kinds::{BasicKind, ComplexKind, PlanetKind};

verus! {

/// The parameters a planet is created with.
pub struct PlanetBlueprint {
    /// The planet type, which fixes the number of energy cells and whether rockets are
    /// allowed.
    pub planet_type: PlanetKind,
    /// The basic resources the planet can generate.
    pub gen_rules: Vec<BasicKind>,
    /// The complex resources the planet can make.
    pub comb_rules: Vec<ComplexKind>,
}

/// The name of the planet.
pub fn planet_name() -> (name: &'static str)
    ensures
        name@ == "Cargonauts Planet"@,
{
    "Cargonauts Planet"
}

/// The complex resources a Cargonauts planet makes: every one the game defines.
pub open spec fn cargonauts_combinations() -> Seq<ComplexKind> {
    seq![
        ComplexKind::Diamond,
        ComplexKind::Life,
        ComplexKind::AIPartner,
        ComplexKind::Dolphin,
        ComplexKind::Robot,
        ComplexKind::Water,
    ]
}

/// The parameters of a Cargonauts planet: a type C planet that generates Carbon and makes
/// every complex resource.
pub fn cargonauts_blueprint() -> (blueprint: PlanetBlueprint)
    ensures
        blueprint.planet_type == PlanetKind::C,
        blueprint.gen_rules@ == seq![BasicKind::Carbon],
        blueprint.comb_rules@ == cargonauts_combinations(),
{
    let gen_rules = vec![BasicKind::Carbon];
    let comb_rules = vec![
        ComplexKind::Diamond,
        ComplexKind::Life,
        ComplexKind::AIPartner,
        ComplexKind::Dolphin,
        ComplexKind::Robot,
        ComplexKind::Water,
    ];
    PlanetBlueprint { planet_type: PlanetKind::C, gen_rules, comb_rules }
}

/// A Cargonauts planet makes every complex resource kind, each once.
pub proof fn law_blueprint_covers_every_combination()
    ensures
        forall|k: ComplexKind| cargonauts_combinations().contains(k),
        cargonauts_combinations().no_duplicates(),
{
    let s = cargonauts_combinations();
    assert forall|k: ComplexKind| s.contains(k) by {
        match k {
            ComplexKind::Diamond => assert(s[0] == k),
            ComplexKind::Life => assert(s[1] == k),
            ComplexKind::AIPartner => assert(s[2] == k),
            ComplexKind::Dolphin => assert(s[3] == k),
            ComplexKind::Robot => assert(s[4] == k),
            ComplexKind::Water => assert(s[5] == k),
        }
    }
}

} // verus!
