//! The items of `common_game` that the planet logic works with: the planet state, the
//! generator and combinator of resources, and the resource tokens themselves.
//!
//! Every item here is trusted: its contract restates what the source of `common_game`
//! shows of the function that it calls.
use vstd::prelude::*;
use common_game::components::planet::PlanetState;
use common_game::components::resource::{
    AIPartner, BasicResourceType, Carbon, Combinator, ComplexResourceType, Diamond, Dolphin,
    Generator, Hydrogen, Life, Oxygen, Robot, Silicon, Water,
};
use common_game::components::rocket::Rocket;
use common_game::components::sunray::Sunray;
use crate::kinds::{BasicKind, ComplexKind};
use crate::model::{count_charged, first_position, PlanetView};

verus! {

#[verifier::external_type_specification]
#[verifier::external_body]
pub struct ExPlanetState(PlanetState);

#[verifier::external_type_specification]
#[verifier::external_body]
pub struct ExSunray(Sunray);

#[verifier::external_type_specification]
#[verifier::external_body]
pub struct ExRocket(Rocket);

#[verifier::external_type_specification]
#[verifier::external_body]
pub struct ExGenerator(Generator);

#[verifier::external_type_specification]
#[verifier::external_body]
pub struct ExCombinator(Combinator);

#[verifier::external_type_specification]
#[verifier::external_body]
pub struct ExOxygen(Oxygen);

#[verifier::external_type_specification]
#[verifier::external_body]
pub struct ExHydrogen(Hydrogen);

#[verifier::external_type_specification]
#[verifier::external_body]
pub struct ExCarbon(Carbon);

#[verifier::external_type_specification]
#[verifier::external_body]
pub struct ExSilicon(Silicon);

#[verifier::external_type_specification]
#[verifier::external_body]
pub struct ExDiamond(Diamond);

#[verifier::external_type_specification]
#[verifier::external_body]
pub struct ExWater(Water);

#[verifier::external_type_specification]
#[verifier::external_body]
pub struct ExLife(Life);

#[verifier::external_type_specification]
#[verifier::external_body]
pub struct ExRobot(Robot);

#[verifier::external_type_specification]
#[verifier::external_body]
pub struct ExDolphin(Dolphin);

#[verifier::external_type_specification]
#[verifier::external_body]
pub struct ExAIPartner(AIPartner);

/// The charge of each energy cell that a planet state holds, in order.
pub uninterp spec fn cell_charges(state: PlanetState) -> Seq<bool>;

/// What `PlanetState::id` returns: the identifier the state was created with.
pub uninterp spec fn state_id(state: PlanetState) -> u32;

/// What `PlanetState::has_rocket` returns: whether a rocket is stored.
pub uninterp spec fn rocket_stored(state: PlanetState) -> bool;

/// Whether the planet type that the state was created for allows rockets.
pub uninterp spec fn rocket_permitted(state: PlanetState) -> bool;

/// The basic resource kinds that a generator holds a recipe for.
pub uninterp spec fn generator_recipes(generator: Generator) -> Set<BasicKind>;

/// The complex resource kinds that a combinator holds a recipe for.
pub uninterp spec fn combinator_recipes(combinator: Combinator) -> Set<ComplexKind>;

/// The model of a planet state, made of the names above.
pub open spec fn planet_view(state: PlanetState) -> PlanetView {
    PlanetView {
        id: state_id(state),
        cells: cell_charges(state),
        rocket: rocket_stored(state),
        rocket_permitted: rocket_permitted(state),
    }
}

/// The two states agree on everything but the charge of the cells.
pub open spec fn same_but_cells(a: PlanetState, b: PlanetState) -> bool {
    &&& state_id(a) == state_id(b)
    &&& rocket_stored(a) == rocket_stored(b)
    &&& rocket_permitted(a) == rocket_permitted(b)
}

/// The text of the error that a generator or combinator gives for a spent energy cell.
pub open spec fn uncharged_cell_text() -> Seq<char> {
    "EnergyCell not charged!"@
}

/// The name that `common_game` prints for a basic resource kind.
pub open spec fn basic_name(kind: BasicKind) -> Seq<char> {
    match kind {
        BasicKind::Oxygen => "Oxygen"@,
        BasicKind::Hydrogen => "Hydrogen"@,
        BasicKind::Carbon => "Carbon"@,
        BasicKind::Silicon => "Silicon"@,
    }
}

/// The name that `common_game` prints for a complex resource kind.
pub open spec fn complex_name(kind: ComplexKind) -> Seq<char> {
    match kind {
        ComplexKind::Diamond => "Diamond"@,
        ComplexKind::Water => "Water"@,
        ComplexKind::Life => "Life"@,
        ComplexKind::Robot => "Robot"@,
        ComplexKind::Dolphin => "Dolphin"@,
        ComplexKind::AIPartner => "AIPartner"@,
    }
}

/// The text of the error that a generator or combinator gives where it has no recipe.
pub open spec fn no_recipe_text(name: Seq<char>) -> Seq<char> {
    "there isn't a recipe for "@ + name
}

/// What a combination with a recipe for `kind`, on energy cell `i`, does: it succeeds
/// exactly where the combinator holds the recipe and the cell is charged, and then spends
/// the cell; otherwise it changes nothing and its error text says why.
pub open spec fn combination_effect(
    combinator: Combinator,
    kind: ComplexKind,
    before: PlanetState,
    after: PlanetState,
    i: int,
    made: bool,
    text: Seq<char>,
) -> bool {
    let has_recipe = combinator_recipes(combinator).contains(kind);
    let charged = cell_charges(before)[i];
    &&& made == (has_recipe && charged)
    &&& same_but_cells(before, after)
    &&& made ==> cell_charges(after) == cell_charges(before).update(i, false)
    &&& !made ==> cell_charges(after) == cell_charges(before)
    &&& (!made && !has_recipe) ==> text == no_recipe_text(complex_name(kind))
    &&& (!made && has_recipe) ==> text == uncharged_cell_text()
}

/// Calls `PlanetState::id`, which returns the identifier stored in the state.
#[verifier::external_body]
pub(crate) fn planet_id(state: &PlanetState) -> (id: u32)
    ensures
        id == state_id(*state),
{
    state.id()
}

/// Calls `PlanetState::cells_count`, which returns the number of energy cells.
#[verifier::external_body]
pub(crate) fn cells_count(state: &PlanetState) -> (n: usize)
    ensures
        n == cell_charges(*state).len(),
{
    state.cells_count()
}

/// Calls `PlanetState::cell` and `EnergyCell::is_charged` on the cell it gives: whether
/// cell `i` is charged. `cell` panics on an index out of bounds.
#[verifier::external_body]
pub(crate) fn cell_is_charged(state: &PlanetState, i: usize) -> (charged: bool)
    requires
        i < cell_charges(*state).len(),
    ensures
        charged == cell_charges(*state)[i as int],
{
    state.cell(i).is_charged()
}

/// Calls `PlanetState::has_rocket`: whether a rocket is stored.
#[verifier::external_body]
pub(crate) fn has_rocket(state: &PlanetState) -> (stored: bool)
    ensures
        stored == rocket_stored(*state),
{
    state.has_rocket()
}

/// Calls `PlanetState::take_rocket`, which hands out the stored rocket, if any, and
/// leaves the state without one.
#[verifier::external_body]
pub(crate) fn take_rocket(state: &mut PlanetState) -> (rocket: Option<Rocket>)
    ensures
        rocket is Some == rocket_stored(*old(state)),
        !rocket_stored(*final(state)),
        state_id(*final(state)) == state_id(*old(state)),
        rocket_permitted(*final(state)) == rocket_permitted(*old(state)),
        cell_charges(*final(state)) == cell_charges(*old(state)),
{
    state.take_rocket()
}

/// Calls `PlanetState::build_rocket`, which builds a rocket out of cell `i` and stores
/// it. It succeeds exactly where the planet may have a rocket, holds none yet, and cell
/// `i` is charged; then the cell is spent. Otherwise nothing changes, and the error text
/// says which of the three failed. It panics on an index out of bounds.
#[verifier::external_body]
pub(crate) fn build_rocket(state: &mut PlanetState, i: usize) -> (r: Result<(), String>)
    requires
        i < cell_charges(*old(state)).len(),
    ensures
        r is Ok == (rocket_permitted(*old(state)) && !rocket_stored(*old(state)) && cell_charges(
            *old(state),
        )[i as int]),
        state_id(*final(state)) == state_id(*old(state)),
        rocket_permitted(*final(state)) == rocket_permitted(*old(state)),
        r is Ok ==> rocket_stored(*final(state)),
        r is Ok ==> cell_charges(*final(state)) == cell_charges(*old(state)).update(i as int, false),
        r is Err ==> rocket_stored(*final(state)) == rocket_stored(*old(state)),
        r is Err ==> cell_charges(*final(state)) == cell_charges(*old(state)),
        r matches Err(text) ==> text@ == (if !rocket_permitted(*old(state)) {
            "This planet type can't have rockets."@
        } else if rocket_stored(*old(state)) {
            "This planet already has a rocket."@
        } else {
            uncharged_cell_text()
        }),
{
    state.build_rocket(i)
}

/// Calls `PlanetState::charge_cell`, which charges the first discharged cell with the
/// sunray, or hands the sunray back where every cell is charged.
#[verifier::external_body]
pub(crate) fn charge_cell(state: &mut PlanetState, sunray: Sunray) -> (back: Option<Sunray>)
    ensures
        same_but_cells(*old(state), *final(state)),
        match first_position(cell_charges(*old(state)), false) {
            Some(p) => back is None && cell_charges(*final(state)) == cell_charges(
                *old(state),
            ).update(p, true),
            None => back == Some(sunray) && cell_charges(*final(state)) == cell_charges(
                *old(state),
            ),
        },
{
    state.charge_cell(sunray)
}

/// Calls `PlanetState::to_dummy` and hands out its three fields: the charge of each cell,
/// the number of charged cells, and whether a rocket is stored.
#[verifier::external_body]
pub(crate) fn dummy_fields(state: &PlanetState) -> (fields: (Vec<bool>, usize, bool))
    ensures
        fields.0@ == cell_charges(*state),
        fields.1 == count_charged(cell_charges(*state)),
        fields.2 == rocket_stored(*state),
{
    let dummy = state.to_dummy();
    (dummy.energy_cells, dummy.charged_cells_count, dummy.has_rocket)
}

/// Calls `Generator::all_available_recipes` and names each kind it holds: every kind the
/// generator has a recipe for, once, in the order the hash set gives.
#[verifier::external_body]
pub(crate) fn generator_kinds(generator: &Generator) -> (kinds: Vec<BasicKind>)
    ensures
        kinds@.to_set() == generator_recipes(*generator),
        kinds@.no_duplicates(),
{
    let mut kinds = Vec::new();
    for t in generator.all_available_recipes() {
        kinds.push(match t {
            BasicResourceType::Oxygen => BasicKind::Oxygen,
            BasicResourceType::Hydrogen => BasicKind::Hydrogen,
            BasicResourceType::Carbon => BasicKind::Carbon,
            BasicResourceType::Silicon => BasicKind::Silicon,
        });
    }
    kinds
}

/// Calls `Combinator::all_available_recipes` and names each kind it holds: every kind the
/// combinator has a recipe for, once, in the order the hash set gives.
#[verifier::external_body]
pub(crate) fn combinator_kinds(combinator: &Combinator) -> (kinds: Vec<ComplexKind>)
    ensures
        kinds@.to_set() == combinator_recipes(*combinator),
        kinds@.no_duplicates(),
{
    let mut kinds = Vec::new();
    for t in combinator.all_available_recipes() {
        kinds.push(match t {
            ComplexResourceType::Diamond => ComplexKind::Diamond,
            ComplexResourceType::Water => ComplexKind::Water,
            ComplexResourceType::Life => ComplexKind::Life,
            ComplexResourceType::Robot => ComplexKind::Robot,
            ComplexResourceType::Dolphin => ComplexKind::Dolphin,
            ComplexResourceType::AIPartner => ComplexKind::AIPartner,
        });
    }
    kinds
}

/// Calls `Generator::make_carbon` on cell `i` (reached by `PlanetState::cell_mut`, which
/// panics on an index out of bounds). It succeeds exactly where the generator holds the
/// Carbon recipe and the cell is charged, and then spends the cell; otherwise nothing
/// changes and the error text says why.
#[verifier::external_body]
pub(crate) fn make_carbon(generator: &Generator, state: &mut PlanetState, i: usize) -> (r: Result<
    Carbon,
    String,
>)
    requires
        i < cell_charges(*old(state)).len(),
    ensures
        r is Ok == (generator_recipes(*generator).contains(BasicKind::Carbon) && cell_charges(
            *old(state),
        )[i as int]),
        same_but_cells(*old(state), *final(state)),
        r is Ok ==> cell_charges(*final(state)) == cell_charges(*old(state)).update(
            i as int,
            false,
        ),
        r is Err ==> cell_charges(*final(state)) == cell_charges(*old(state)),
        r matches Err(text) ==> (if generator_recipes(*generator).contains(BasicKind::Carbon) {
            text@ == uncharged_cell_text()
        } else {
            text@ == no_recipe_text(basic_name(BasicKind::Carbon))
        }),
{
    generator.make_carbon(state.cell_mut(i))
}

/// Calls `Combinator::make_diamond` (Carbon + Carbon) on cell `i`; on failure both
/// ingredients come back unchanged.
#[verifier::external_body]
pub(crate) fn make_diamond(
    combinator: &Combinator,
    r1: Carbon,
    r2: Carbon,
    state: &mut PlanetState,
    i: usize,
) -> (r: Result<Diamond, (String, Carbon, Carbon)>)
    requires
        i < cell_charges(*old(state)).len(),
    ensures
        combination_effect(
            *combinator,
            ComplexKind::Diamond,
            *old(state),
            *final(state),
            i as int,
            r is Ok,
            match r {
                Ok(_) => Seq::empty(),
                Err(e) => e.0@,
            },
        ),
        r matches Err(e) ==> e.1 == r1 && e.2 == r2,
{
    combinator.make_diamond(r1, r2, state.cell_mut(i))
}

/// Calls `Combinator::make_life` (Water + Carbon) on cell `i`; on failure both
/// ingredients come back unchanged.
#[verifier::external_body]
pub(crate) fn make_life(
    combinator: &Combinator,
    r1: Water,
    r2: Carbon,
    state: &mut PlanetState,
    i: usize,
) -> (r: Result<Life, (String, Water, Carbon)>)
    requires
        i < cell_charges(*old(state)).len(),
    ensures
        combination_effect(
            *combinator,
            ComplexKind::Life,
            *old(state),
            *final(state),
            i as int,
            r is Ok,
            match r {
                Ok(_) => Seq::empty(),
                Err(e) => e.0@,
            },
        ),
        r matches Err(e) ==> e.1 == r1 && e.2 == r2,
{
    combinator.make_life(r1, r2, state.cell_mut(i))
}

/// Calls `Combinator::make_water` (Hydrogen + Oxygen) on cell `i`; on failure both
/// ingredients come back unchanged.
#[verifier::external_body]
pub(crate) fn make_water(
    combinator: &Combinator,
    r1: Hydrogen,
    r2: Oxygen,
    state: &mut PlanetState,
    i: usize,
) -> (r: Result<Water, (String, Hydrogen, Oxygen)>)
    requires
        i < cell_charges(*old(state)).len(),
    ensures
        combination_effect(
            *combinator,
            ComplexKind::Water,
            *old(state),
            *final(state),
            i as int,
            r is Ok,
            match r {
                Ok(_) => Seq::empty(),
                Err(e) => e.0@,
            },
        ),
        r matches Err(e) ==> e.1 == r1 && e.2 == r2,
{
    combinator.make_water(r1, r2, state.cell_mut(i))
}

/// Calls `Combinator::make_robot` (Silicon + Life) on cell `i`; on failure both
/// ingredients come back unchanged.
#[verifier::external_body]
pub(crate) fn make_robot(
    combinator: &Combinator,
    r1: Silicon,
    r2: Life,
    state: &mut PlanetState,
    i: usize,
) -> (r: Result<Robot, (String, Silicon, Life)>)
    requires
        i < cell_charges(*old(state)).len(),
    ensures
        combination_effect(
            *combinator,
            ComplexKind::Robot,
            *old(state),
            *final(state),
            i as int,
            r is Ok,
            match r {
                Ok(_) => Seq::empty(),
                Err(e) => e.0@,
            },
        ),
        r matches Err(e) ==> e.1 == r1 && e.2 == r2,
{
    combinator.make_robot(r1, r2, state.cell_mut(i))
}

/// Calls `Combinator::make_dolphin` (Water + Life) on cell `i`; on failure both
/// ingredients come back unchanged.
#[verifier::external_body]
pub(crate) fn make_dolphin(
    combinator: &Combinator,
    r1: Water,
    r2: Life,
    state: &mut PlanetState,
    i: usize,
) -> (r: Result<Dolphin, (String, Water, Life)>)
    requires
        i < cell_charges(*old(state)).len(),
    ensures
        combination_effect(
            *combinator,
            ComplexKind::Dolphin,
            *old(state),
            *final(state),
            i as int,
            r is Ok,
            match r {
                Ok(_) => Seq::empty(),
                Err(e) => e.0@,
            },
        ),
        r matches Err(e) ==> e.1 == r1 && e.2 == r2,
{
    combinator.make_dolphin(r1, r2, state.cell_mut(i))
}

/// Calls `Combinator::make_aipartner` (Robot + Diamond) on cell `i`; on failure both
/// ingredients come back unchanged.
#[verifier::external_body]
pub(crate) fn make_aipartner(
    combinator: &Combinator,
    r1: Robot,
    r2: Diamond,
    state: &mut PlanetState,
    i: usize,
) -> (r: Result<AIPartner, (String, Robot, Diamond)>)
    requires
        i < cell_charges(*old(state)).len(),
    ensures
        combination_effect(
            *combinator,
            ComplexKind::AIPartner,
            *old(state),
            *final(state),
            i as int,
            r is Ok,
            match r {
                Ok(_) => Seq::empty(),
                Err(e) => e.0@,
            },
        ),
        r matches Err(e) ==> e.1 == r1 && e.2 == r2,
{
    combinator.make_aipartner(r1, r2, state.cell_mut(i))
}

} // verus!
