//! What holds of the planet's handlers over every state, proved from their models.
use vstd::prelude::*;
use crate::messages::{
    combination_succeeds, combine_outcome, generate_outcome, generation_succeeds, recipe_of,
    CombineRequest, ExplorerResponse, Product,
};
use crate::kinds::{BasicKind, ComplexKind};
use crate::model::{
    after_asteroid, after_sunray, asteroid_deflected, count_charged, first_position,
    lemma_first_exists, lemma_first_none, reported_cells, spend_cell, PlanetView,
};

verus! {

/// Setting one cell changes the number of charged cells by what it held and what it holds.
pub proof fn lemma_count_update(cells: Seq<bool>, p: int, b: bool)
    requires
        0 <= p < cells.len(),
    ensures
        count_charged(cells.update(p, b)) == count_charged(cells) - (if cells[p] {
            1int
        } else {
            0int
        }) + (if b {
            1int
        } else {
            0int
        }),
    decreases cells.len(),
{
    let u = cells.update(p, b);
    if p == cells.len() - 1 {
        assert(u.drop_last() =~= cells.drop_last());
    } else {
        lemma_count_update(cells.drop_last(), p, b);
        assert(u.drop_last() =~= cells.drop_last().update(p, b));
    }
}

/// A planet that may have a rocket and has at least one energy cell survives an asteroid
/// that follows a sunray: the sunray charges a cell, and the rocket is built out of it.
pub proof fn law_sunray_then_asteroid_deflected(v: PlanetView)
    requires
        v.rocket_permitted,
        v.cells.len() > 0,
    ensures
        asteroid_deflected(after_sunray(v)),
{
    let w = after_sunray(v);
    match first_position(v.cells, false) {
        Some(p) => {
            lemma_first_exists(v.cells, false, p);
            assert(w.cells[p]);
            lemma_first_exists(w.cells, true, p);
        },
        None => {
            if !v.cells[0] {
                lemma_first_exists(v.cells, false, 0);
            }
            lemma_first_exists(w.cells, true, 0);
        },
    }
}

/// A planet without a rocket and without a charged cell cannot defend itself.
pub proof fn law_asteroid_destroys_uncharged_planet(v: PlanetView)
    requires
        !v.rocket,
        forall|i: int| 0 <= i < v.cells.len() ==> !v.cells[i],
    ensures
        !asteroid_deflected(v),
        after_asteroid(v) == v,
{
    lemma_first_none(v.cells, true);
}

/// After an asteroid the planet never keeps a rocket: a stored one, or one built for the
/// occasion, is always handed out.
pub proof fn law_asteroid_leaves_no_rocket(v: PlanetView)
    ensures
        !after_asteroid(v).rocket,
        asteroid_deflected(v) || after_asteroid(v) == v,
{
}

/// A planet that holds no rocket still holds none after any of its handlers: a sunray,
/// an asteroid, or a request that spends its cell. Since a new planet holds none, a
/// Cargonauts planet never keeps a rocket between two events.
pub proof fn law_rocket_never_kept(v: PlanetView)
    requires
        !v.rocket,
        v.cells.len() > 0,
    ensures
        !after_sunray(v).rocket,
        !after_asteroid(v).rocket,
        !spend_cell(v, 0).rocket,
{
}

/// An asteroid spends a charge exactly where a rocket had to be built to deflect it.
pub proof fn law_asteroid_spends_at_most_one_charge(v: PlanetView)
    ensures
        count_charged(after_asteroid(v).cells) == count_charged(v.cells) - (if !v.rocket
            && asteroid_deflected(v) {
            1int
        } else {
            0int
        }),
{
    if !v.rocket && asteroid_deflected(v) {
        let p = first_position(v.cells, true)->0;
        lemma_first_exists(v.cells, true, choose|j: int| 0 <= j < v.cells.len() && v.cells[j]);
        lemma_count_update(v.cells, p, false);
    }
}

/// A sunray never discharges a cell, and adds one charge exactly where some cell was
/// discharged; where every cell is charged it is wasted and nothing changes.
pub proof fn law_sunray_adds_one_charge_where_room(v: PlanetView)
    ensures
        after_sunray(v).cells.len() == v.cells.len(),
        forall|i: int| 0 <= i < v.cells.len() && v.cells[i] ==> after_sunray(v).cells[i],
        (exists|i: int| 0 <= i < v.cells.len() && !v.cells[i]) ==> count_charged(
            after_sunray(v).cells,
        ) == count_charged(v.cells) + 1,
        (forall|i: int| 0 <= i < v.cells.len() ==> v.cells[i]) ==> after_sunray(v) == v,
{
    match first_position(v.cells, false) {
        Some(p) => {
            lemma_first_exists(v.cells, false, choose|j: int| 0 <= j < v.cells.len() && !v.cells[j]);
            lemma_count_update(v.cells, p, true);
        },
        None => {
            if exists|i: int| 0 <= i < v.cells.len() && !v.cells[i] {
                let i = choose|i: int| 0 <= i < v.cells.len() && !v.cells[i];
                lemma_first_exists(v.cells, false, i);
            }
        },
    }
}

/// After a sunray a planet with at least one cell reports one charged cell to explorers.
pub proof fn law_sunray_then_one_cell_reported(v: PlanetView)
    requires
        v.cells.len() > 0,
    ensures
        reported_cells(after_sunray(v)) == 1,
{
    match first_position(v.cells, false) {
        Some(p) => {
            lemma_first_exists(v.cells, false, choose|j: int| 0 <= j < v.cells.len() && !v.cells[j]);
            if !v.cells[0] {
                assert(p <= 0);
            }
        },
        None => {
            if !v.cells[0] {
                lemma_first_exists(v.cells, false, 0);
            }
        },
    }
}

/// The planet reports at most one charged cell, and one exactly where its first cell is
/// charged.
pub proof fn law_reported_cells_is_first_cell(v: PlanetView)
    requires
        v.cells.len() > 0,
    ensures
        reported_cells(v) <= 1,
        reported_cells(v) == 1 <==> v.cells[0],
{
}

/// No handler changes the planet's identifier, its number of energy cells, or whether it
/// may have a rocket.
pub proof fn law_handlers_keep_identity(v: PlanetView)
    requires
        v.cells.len() > 0,
    ensures
        after_sunray(v).id == v.id,
        after_sunray(v).cells.len() == v.cells.len(),
        after_sunray(v).rocket_permitted == v.rocket_permitted,
        after_asteroid(v).id == v.id,
        after_asteroid(v).cells.len() == v.cells.len(),
        after_asteroid(v).rocket_permitted == v.rocket_permitted,
        spend_cell(v, 0).id == v.id,
        spend_cell(v, 0).cells.len() == v.cells.len(),
        spend_cell(v, 0).rocket_permitted == v.rocket_permitted,
{
}

/// A generation request spends a charge exactly where it hands out a resource.
pub proof fn law_generation_spends_charge_only_for_resource(
    before: PlanetView,
    after: PlanetView,
    recipes: Set<BasicKind>,
    req: BasicKind,
    response: Option<ExplorerResponse>,
)
    requires
        before.cells.len() > 0,
        generate_outcome(before, after, recipes, req, response),
    ensures
        response matches Some(ExplorerResponse::GenerateResourceResponse { resource }) && (
        resource is Some <==> count_charged(after.cells) + 1 == count_charged(before.cells)),
        response matches Some(ExplorerResponse::GenerateResourceResponse { resource }) && (
        resource is None <==> after == before),
{
    if generation_succeeds(before, recipes, req) {
        lemma_count_update(before.cells, 0, false);
    }
}

/// A combination request never loses a resource: it hands out the product asked for and
/// spends one charge, or hands back both ingredients and changes nothing.
pub proof fn law_combination_loses_nothing(
    before: PlanetView,
    after: PlanetView,
    recipes: Set<ComplexKind>,
    msg: CombineRequest,
    response: Option<ExplorerResponse>,
)
    requires
        before.cells.len() > 0,
        combine_outcome(before, after, recipes, msg, response),
    ensures
        response matches Some(ExplorerResponse::CombineResourceResponse { complex_response }) && (
        complex_response is Ok <==> count_charged(after.cells) + 1 == count_charged(before.cells)),
        response matches Some(ExplorerResponse::CombineResourceResponse { complex_response }) && (
        complex_response is Err <==> after == before),
{
    if combination_succeeds(before, recipes, msg) {
        lemma_count_update(before.cells, 0, false);
    }
}

/// A generation request for anything but Carbon hands out nothing and changes nothing.
pub proof fn law_generation_only_carbon(
    before: PlanetView,
    after: PlanetView,
    recipes: Set<BasicKind>,
    req: BasicKind,
    response: Option<ExplorerResponse>,
)
    requires
        before.cells.len() > 0,
        generate_outcome(before, after, recipes, req, response),
        req != BasicKind::Carbon,
    ensures
        response matches Some(ExplorerResponse::GenerateResourceResponse { resource: None }),
        after == before,
{
}

/// A generation request for Carbon, on a planet whose first cell is charged and whose
/// generator holds the Carbon recipe, hands out a resource and spends exactly that cell.
pub proof fn law_generation_of_carbon_succeeds(
    before: PlanetView,
    after: PlanetView,
    recipes: Set<BasicKind>,
    response: Option<ExplorerResponse>,
)
    requires
        before.cells.len() > 0,
        before.cells[0],
        recipes.contains(BasicKind::Carbon),
        generate_outcome(before, after, recipes, BasicKind::Carbon, response),
    ensures
        response matches Some(ExplorerResponse::GenerateResourceResponse { resource: Some(_) }),
        after.cells == before.cells.update(0, false),
        after.id == before.id,
        after.rocket == before.rocket,
        after.rocket_permitted == before.rocket_permitted,
{
}

/// A combination request, on a planet whose first cell is charged and whose combinator
/// holds the recipe asked for, hands out that very product and spends exactly that cell.
pub proof fn law_combination_with_recipe_succeeds(
    before: PlanetView,
    after: PlanetView,
    recipes: Set<ComplexKind>,
    msg: CombineRequest,
    response: Option<ExplorerResponse>,
)
    requires
        before.cells.len() > 0,
        before.cells[0],
        combine_outcome(before, after, recipes, msg, response),
    ensures
        match msg {
            CombineRequest::Diamond(..) => recipes.contains(ComplexKind::Diamond) ==> response matches Some(
                ExplorerResponse::CombineResourceResponse { complex_response: Ok(Product::Diamond(_)) },
            ),
            CombineRequest::Life(..) => recipes.contains(ComplexKind::Life) ==> response matches Some(
                ExplorerResponse::CombineResourceResponse { complex_response: Ok(Product::Life(_)) },
            ),
            CombineRequest::Water(..) => recipes.contains(ComplexKind::Water) ==> response matches Some(
                ExplorerResponse::CombineResourceResponse { complex_response: Ok(Product::Water(_)) },
            ),
            CombineRequest::Robot(..) => recipes.contains(ComplexKind::Robot) ==> response matches Some(
                ExplorerResponse::CombineResourceResponse { complex_response: Ok(Product::Robot(_)) },
            ),
            CombineRequest::Dolphin(..) => recipes.contains(ComplexKind::Dolphin) ==> response matches Some(
                ExplorerResponse::CombineResourceResponse { complex_response: Ok(Product::Dolphin(_)) },
            ),
            CombineRequest::AIPartner(..) => recipes.contains(ComplexKind::AIPartner) ==> response matches Some(
                ExplorerResponse::CombineResourceResponse { complex_response: Ok(Product::AIPartner(_)) },
            ),
        },
        recipes.contains(recipe_of(msg)) ==> after.cells == before.cells.update(0, false),
        after.id == before.id,
        after.rocket == before.rocket,
        after.rocket_permitted == before.rocket_permitted,
{
    match msg {
        CombineRequest::Diamond(..) => {},
        CombineRequest::Life(..) => {},
        CombineRequest::Water(..) => {},
        CombineRequest::Robot(..) => {},
        CombineRequest::Dolphin(..) => {},
        CombineRequest::AIPartner(..) => {},
    }
}

} // verus!
