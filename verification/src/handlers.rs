//! The planet's handlers: what it does on a sunray, an asteroid, a request for its
//! state, and each request of an explorer.
use vstd::prelude::*;
use common_game::components::planet::PlanetState;
use common_game::components::rocket::Rocket;
use common_game::components::sunray::Sunray;
use common_game::components::resource::{Combinator, Generator};
use crate::kinds::{BasicKind, ComplexKind};
use crate::messages::{
    combine_outcome, energy_cells_outcome, generate_outcome, supported_combinations_outcome,
    supported_resources_outcome, CombineRequest, ExplorerRequest, ExplorerResponse, Ingredient,
    Product,
};
use crate::model::{
    after_asteroid, after_sunray, asteroid_deflected, count_charged, first_position,
    lemma_first_exists, lemma_first_none, lemma_first_position_is, is_first,
};
use crate::outside::{
    build_rocket, cell_charges, cell_is_charged, cells_count, charge_cell, combinator_kinds,
    combinator_recipes, dummy_fields, generator_kinds, generator_recipes, has_rocket,
    make_aipartner, make_carbon, make_diamond, make_dolphin, make_life, make_robot, make_water,
    planet_view, rocket_stored, same_but_cells, take_rocket,
};

verus! {

/// The position of the first charged energy cell, if any.
pub fn first_charged_cell(state: &PlanetState) -> (pos: Option<usize>)
    ensures
        match pos {
            Some(p) => first_position(cell_charges(*state), true) == Some(p as int),
            None => first_position(cell_charges(*state), true) is None,
        },
{
    let n = cells_count(state);
    let mut i: usize = 0;
    while i < n
        invariant
            n == cell_charges(*state).len(),
            i <= n,
            forall|j: int| 0 <= j < i ==> !cell_charges(*state)[j],
        decreases n - i,
    {
        if cell_is_charged(state, i) {
            proof {
                assert(is_first(cell_charges(*state), true, i as int));
                lemma_first_position_is(cell_charges(*state), true, i as int);
            }
            return Some(i);
        }
        i = i + 1;
    }
    proof {
        lemma_first_none(cell_charges(*state), true);
    }
    None
}

/// Handles an asteroid: hands out the stored rocket, or builds one out of the first
/// charged cell and hands it out. `None` means the planet cannot defend itself.
pub fn handle_asteroid(state: &mut PlanetState) -> (rocket: Option<Rocket>)
    ensures
        rocket is Some == asteroid_deflected(planet_view(*old(state))),
        planet_view(*final(state)) == after_asteroid(planet_view(*old(state))),
{
    if has_rocket(state) {
        let rocket = take_rocket(state);
        match rocket {
            Some(taken) => Some(taken),
            None => None,
        }
    } else {
        let position = first_charged_cell(state);
        match position {
            Some(i) => {
                proof {
                    assert(is_first(cell_charges(*state), true, i as int)) by {
                        lemma_first_exists(
                            cell_charges(*state),
                            true,
                            first_position(cell_charges(*state), true)->0,
                        );
                    }
                }
                let built = build_rocket(state, i);
                match built {
                    Ok(()) => take_rocket(state),
                    Err(_) => None,
                }
            },
            None => None,
        }
    }
}

/// Handles a sunray: it charges the first discharged cell, or is wasted where every cell
/// is charged.
pub fn handle_sunray(state: &mut PlanetState, sunray: Sunray)
    ensures
        planet_view(*final(state)) == after_sunray(planet_view(*old(state))),
{
    let _ = charge_cell(state, sunray);
}

/// The planet's state as it reports it to the orchestrator.
pub struct InternalState {
    /// The charge of each energy cell, in order.
    pub energy_cells: Vec<bool>,
    /// The number of charged cells.
    pub charged_cells_count: usize,
    /// Whether a rocket is stored.
    pub has_rocket: bool,
}

/// Handles a request for the planet's state.
pub fn handle_internal_state_req(state: &PlanetState) -> (report: InternalState)
    ensures
        report.energy_cells@ == cell_charges(*state),
        report.charged_cells_count == count_charged(cell_charges(*state)),
        report.has_rocket == rocket_stored(*state),
{
    let (energy_cells, charged_cells_count, has_rocket) = dummy_fields(state);
    InternalState { energy_cells, charged_cells_count, has_rocket }
}

/// Handles a request for the basic resources the planet can generate.
pub fn handle_supported_resource_request(
    planet_id: u32,
    explorer_id: u32,
    generator: &Generator,
) -> (response: Option<ExplorerResponse>)
    ensures
        supported_resources_outcome(generator_recipes(*generator), response),
{
    let resource_list = generator_kinds(generator);
    Some(ExplorerResponse::SupportedResourceResponse { resource_list })
}

/// Handles a request for the complex resources the planet can make.
pub fn handle_supported_combination_request(
    planet_id: u32,
    explorer_id: u32,
    combinator: &Combinator,
) -> (response: Option<ExplorerResponse>)
    ensures
        supported_combinations_outcome(combinator_recipes(*combinator), response),
{
    let combination_list = combinator_kinds(combinator);
    Some(ExplorerResponse::SupportedCombinationResponse { combination_list })
}

/// Handles a request to generate a basic resource, spending the planet's energy cell.
pub fn handle_generate_resource_request(
    explorer_id: u32,
    state: &mut PlanetState,
    generator: &Generator,
    req_resource: BasicKind,
) -> (response: Option<ExplorerResponse>)
    requires
        cell_charges(*old(state)).len() > 0,
    ensures
        generate_outcome(
            planet_view(*old(state)),
            planet_view(*final(state)),
            generator_recipes(*generator),
            req_resource,
            response,
        ),
        req_resource != BasicKind::Carbon ==> {
            &&& response matches Some(ExplorerResponse::GenerateResourceResponse { resource: None })
            &&& *final(state) == *old(state)
        },
        !cell_charges(*old(state))[0] ==> {
            &&& response matches Some(ExplorerResponse::GenerateResourceResponse { resource: None })
            &&& *final(state) == *old(state)
        },
        (req_resource == BasicKind::Carbon && cell_charges(*old(state))[0] && generator_recipes(
            *generator,
        ).contains(BasicKind::Carbon)) ==> {
            &&& response matches Some(
                ExplorerResponse::GenerateResourceResponse { resource: Some(_) },
            )
            &&& cell_charges(*final(state)) == cell_charges(*old(state)).update(0, false)
            &&& same_but_cells(*old(state), *final(state))
        },
{
    let mut resource = None;
    if cell_is_charged(state, 0) {
        match req_resource {
            BasicKind::Carbon => {
                match make_carbon(generator, state, 0) {
                    Ok(carbon) => {
                        resource = Some(carbon);
                    },
                    Err(_) => {},
                }
            },
            _ => {},
        }
    }
    Some(ExplorerResponse::GenerateResourceResponse { resource })
}

/// Handles a request to combine two resources into a complex one, spending the planet's
/// energy cell. Where the cell is not charged, or the combination fails, both ingredients
/// are handed back.
pub fn handle_combine_resource_request(
    explorer_id: u32,
    state: &mut PlanetState,
    combinator: &Combinator,
    msg: CombineRequest,
) -> (response: Option<ExplorerResponse>)
    requires
        cell_charges(*old(state)).len() > 0,
    ensures
        combine_outcome(
            planet_view(*old(state)),
            planet_view(*final(state)),
            combinator_recipes(*combinator),
            msg,
            response,
        ),
        cell_charges(*old(state))[0] ==> match msg {
            CombineRequest::Diamond(..) => combinator_recipes(*combinator).contains(
                ComplexKind::Diamond,
            ) ==> {
                &&& response matches Some(
                    ExplorerResponse::CombineResourceResponse {
                        complex_response: Ok(Product::Diamond(_)),
                    },
                )
                &&& cell_charges(*final(state)) == cell_charges(*old(state)).update(0, false)
                &&& same_but_cells(*old(state), *final(state))
            },
            CombineRequest::Life(..) => combinator_recipes(*combinator).contains(
                ComplexKind::Life,
            ) ==> {
                &&& response matches Some(
                    ExplorerResponse::CombineResourceResponse {
                        complex_response: Ok(Product::Life(_)),
                    },
                )
                &&& cell_charges(*final(state)) == cell_charges(*old(state)).update(0, false)
                &&& same_but_cells(*old(state), *final(state))
            },
            CombineRequest::Water(..) => combinator_recipes(*combinator).contains(
                ComplexKind::Water,
            ) ==> {
                &&& response matches Some(
                    ExplorerResponse::CombineResourceResponse {
                        complex_response: Ok(Product::Water(_)),
                    },
                )
                &&& cell_charges(*final(state)) == cell_charges(*old(state)).update(0, false)
                &&& same_but_cells(*old(state), *final(state))
            },
            CombineRequest::Robot(..) => combinator_recipes(*combinator).contains(
                ComplexKind::Robot,
            ) ==> {
                &&& response matches Some(
                    ExplorerResponse::CombineResourceResponse {
                        complex_response: Ok(Product::Robot(_)),
                    },
                )
                &&& cell_charges(*final(state)) == cell_charges(*old(state)).update(0, false)
                &&& same_but_cells(*old(state), *final(state))
            },
            CombineRequest::Dolphin(..) => combinator_recipes(*combinator).contains(
                ComplexKind::Dolphin,
            ) ==> {
                &&& response matches Some(
                    ExplorerResponse::CombineResourceResponse {
                        complex_response: Ok(Product::Dolphin(_)),
                    },
                )
                &&& cell_charges(*final(state)) == cell_charges(*old(state)).update(0, false)
                &&& same_but_cells(*old(state), *final(state))
            },
            CombineRequest::AIPartner(..) => combinator_recipes(*combinator).contains(
                ComplexKind::AIPartner,
            ) ==> {
                &&& response matches Some(
                    ExplorerResponse::CombineResourceResponse {
                        complex_response: Ok(Product::AIPartner(_)),
                    },
                )
                &&& cell_charges(*final(state)) == cell_charges(*old(state)).update(0, false)
                &&& same_but_cells(*old(state), *final(state))
            },
        },
        !cell_charges(*old(state))[0] ==> {
            &&& response matches Some(
                ExplorerResponse::CombineResourceResponse { complex_response: Err(_) },
            )
            &&& *final(state) == *old(state)
        },
{
    if !cell_is_charged(state, 0) {
        let (r1, r2) = match msg {
            CombineRequest::Diamond(c1, c2) => (Ingredient::Carbon(c1), Ingredient::Carbon(c2)),
            CombineRequest::Life(w, c) => (Ingredient::Water(w), Ingredient::Carbon(c)),
            CombineRequest::Water(h, o) => (Ingredient::Hydrogen(h), Ingredient::Oxygen(o)),
            CombineRequest::Robot(s, l) => (Ingredient::Silicon(s), Ingredient::Life(l)),
            CombineRequest::Dolphin(w, l) => (Ingredient::Water(w), Ingredient::Life(l)),
            CombineRequest::AIPartner(r, d) => (Ingredient::Robot(r), Ingredient::Diamond(d)),
        };
        let text = String::from_str("Uncharged energy cell. Can't combine the resources");
        return Some(
            ExplorerResponse::CombineResourceResponse { complex_response: Err((text, r1, r2)) },
        );
    }
    let complex_response = match msg {
        CombineRequest::Diamond(c1, c2) => match make_diamond(combinator, c1, c2, state, 0) {
            Ok(p) => Ok(Product::Diamond(p)),
            Err((t, a, b)) => Err((t, Ingredient::Carbon(a), Ingredient::Carbon(b))),
        },
        CombineRequest::Life(w, c) => match make_life(combinator, w, c, state, 0) {
            Ok(p) => Ok(Product::Life(p)),
            Err((t, a, b)) => Err((t, Ingredient::Water(a), Ingredient::Carbon(b))),
        },
        CombineRequest::Water(h, o) => match make_water(combinator, h, o, state, 0) {
            Ok(p) => Ok(Product::Water(p)),
            Err((t, a, b)) => Err((t, Ingredient::Hydrogen(a), Ingredient::Oxygen(b))),
        },
        CombineRequest::Robot(s, l) => match make_robot(combinator, s, l, state, 0) {
            Ok(p) => Ok(Product::Robot(p)),
            Err((t, a, b)) => Err((t, Ingredient::Silicon(a), Ingredient::Life(b))),
        },
        CombineRequest::Dolphin(w, l) => match make_dolphin(combinator, w, l, state, 0) {
            Ok(p) => Ok(Product::Dolphin(p)),
            Err((t, a, b)) => Err((t, Ingredient::Water(a), Ingredient::Life(b))),
        },
        CombineRequest::AIPartner(r, d) => match make_aipartner(combinator, r, d, state, 0) {
            Ok(p) => Ok(Product::AIPartner(p)),
            Err((t, a, b)) => Err((t, Ingredient::Robot(a), Ingredient::Diamond(b))),
        },
    };
    Some(ExplorerResponse::CombineResourceResponse { complex_response })
}

/// Handles a request for the number of charged energy cells: this planet looks at its
/// single cell, so the answer is 0 or 1.
pub fn handle_energy_cell_request(explorer_id: u32, state: &PlanetState) -> (response: Option<
    ExplorerResponse,
>)
    requires
        cell_charges(*state).len() > 0,
    ensures
        energy_cells_outcome(planet_view(*state), response),
{
    let mut available_cells: u32 = 0;
    if cell_is_charged(state, 0) {
        available_cells = available_cells + 1;
    }
    Some(ExplorerResponse::AvailableEnergyCellResponse { available_cells })
}

/// Handles any message of an explorer, by passing it to the handler for its kind.
pub fn handle_explorer_msg(
    state: &mut PlanetState,
    generator: &Generator,
    combinator: &Combinator,
    msg: ExplorerRequest,
) -> (response: Option<ExplorerResponse>)
    requires
        cell_charges(*old(state)).len() > 0,
    ensures
        match msg {
            ExplorerRequest::SupportedResourceRequest { .. } => {
                &&& supported_resources_outcome(generator_recipes(*generator), response)
                &&& *final(state) == *old(state)
            },
            ExplorerRequest::SupportedCombinationRequest { .. } => {
                &&& supported_combinations_outcome(combinator_recipes(*combinator), response)
                &&& *final(state) == *old(state)
            },
            ExplorerRequest::GenerateResourceRequest { resource, .. } => generate_outcome(
                planet_view(*old(state)),
                planet_view(*final(state)),
                generator_recipes(*generator),
                resource,
                response,
            ),
            ExplorerRequest::CombineResourceRequest { msg, .. } => combine_outcome(
                planet_view(*old(state)),
                planet_view(*final(state)),
                combinator_recipes(*combinator),
                msg,
                response,
            ),
            ExplorerRequest::AvailableEnergyCellRequest { .. } => {
                &&& energy_cells_outcome(planet_view(*old(state)), response)
                &&& *final(state) == *old(state)
            },
        },
{
    let planet_id = crate::outside::planet_id(state);
    match msg {
        ExplorerRequest::SupportedResourceRequest { explorer_id } => {
            handle_supported_resource_request(planet_id, explorer_id, generator)
        },
        ExplorerRequest::SupportedCombinationRequest { explorer_id } => {
            handle_supported_combination_request(planet_id, explorer_id, combinator)
        },
        ExplorerRequest::GenerateResourceRequest { explorer_id, resource } => {
            handle_generate_resource_request(explorer_id, state, generator, resource)
        },
        ExplorerRequest::CombineResourceRequest { explorer_id, msg } => {
            handle_combine_resource_request(explorer_id, state, combinator, msg)
        },
        ExplorerRequest::AvailableEnergyCellRequest { explorer_id } => {
            handle_energy_cell_request(explorer_id, state)
        },
    }
}

/// Handles any message of an explorer where the planet has an energy cell, as
/// `handle_explorer_msg` does; hands the message back untouched, and changes nothing,
/// where the planet has none.
pub fn serve_explorer(
    state: &mut PlanetState,
    generator: &Generator,
    combinator: &Combinator,
    msg: ExplorerRequest,
) -> (outcome: Result<Option<ExplorerResponse>, ExplorerRequest>)
    ensures
        outcome is Err == (cell_charges(*old(state)).len() == 0),
        outcome matches Err(back) ==> back == msg && *final(state) == *old(state),
        outcome matches Ok(response) ==> match msg {
            ExplorerRequest::SupportedResourceRequest { .. } => {
                &&& supported_resources_outcome(generator_recipes(*generator), response)
                &&& *final(state) == *old(state)
            },
            ExplorerRequest::SupportedCombinationRequest { .. } => {
                &&& supported_combinations_outcome(combinator_recipes(*combinator), response)
                &&& *final(state) == *old(state)
            },
            ExplorerRequest::GenerateResourceRequest { resource, .. } => generate_outcome(
                planet_view(*old(state)),
                planet_view(*final(state)),
                generator_recipes(*generator),
                resource,
                response,
            ),
            ExplorerRequest::CombineResourceRequest { msg, .. } => combine_outcome(
                planet_view(*old(state)),
                planet_view(*final(state)),
                combinator_recipes(*combinator),
                msg,
                response,
            ),
            ExplorerRequest::AvailableEnergyCellRequest { .. } => {
                &&& energy_cells_outcome(planet_view(*old(state)), response)
                &&& *final(state) == *old(state)
            },
        },
{
    if cells_count(state) == 0 {
        return Err(msg);
    }
    Ok(handle_explorer_msg(state, generator, combinator, msg))
}

} // verus!
