//! The requests that explorers send to the planet and the answers it gives, and what
//! each answer must be.
use vstd::prelude::*;
use common_game::components::resource::{
    AIPartner, Carbon, Diamond, Dolphin, Hydrogen, Life, Oxygen, Robot, Silicon, Water,
};
use crate::kinds::{BasicKind, ComplexKind};
use crate::model::{reported_cells, spend_cell, PlanetView};
use crate::outside::{complex_name, no_recipe_text};

verus! {

/// A request to combine two resources into a complex one, with the two ingredients.
pub enum CombineRequest {
    Diamond(Carbon, Carbon),
    Life(Water, Carbon),
    Water(Hydrogen, Oxygen),
    Robot(Silicon, Life),
    Dolphin(Water, Life),
    AIPartner(Robot, Diamond),
}

/// Any resource, as it is handed back to an explorer when a combination fails.
pub enum Ingredient {
    Oxygen(Oxygen),
    Hydrogen(Hydrogen),
    Carbon(Carbon),
    Silicon(Silicon),
    Diamond(Diamond),
    Water(Water),
    Life(Life),
    Robot(Robot),
    Dolphin(Dolphin),
    AIPartner(AIPartner),
}

/// A complex resource made by a combination.
pub enum Product {
    Diamond(Diamond),
    Water(Water),
    Life(Life),
    Robot(Robot),
    Dolphin(Dolphin),
    AIPartner(AIPartner),
}

/// A message from an explorer to the planet.
pub enum ExplorerRequest {
    SupportedResourceRequest { explorer_id: u32 },
    SupportedCombinationRequest { explorer_id: u32 },
    GenerateResourceRequest { explorer_id: u32, resource: BasicKind },
    CombineResourceRequest { explorer_id: u32, msg: CombineRequest },
    AvailableEnergyCellRequest { explorer_id: u32 },
}

/// A message from the planet to an explorer.
pub enum ExplorerResponse {
    /// The basic resources the planet can generate, each once.
    SupportedResourceResponse { resource_list: Vec<BasicKind> },
    /// The complex resources the planet can make, each once.
    SupportedCombinationResponse { combination_list: Vec<ComplexKind> },
    /// The generated resource, or `None` where nothing was generated. This planet only
    /// ever generates Carbon.
    GenerateResourceResponse { resource: Option<Carbon> },
    /// The product, or an explanation with both ingredients handed back.
    CombineResourceResponse { complex_response: Result<Product, (String, Ingredient, Ingredient)> },
    /// The number of charged energy cells.
    AvailableEnergyCellResponse { available_cells: u32 },
}

/// The explanation that comes back with the ingredients where the cell is not charged.
pub open spec fn uncharged_combination_text() -> Seq<char> {
    "Uncharged energy cell. Can't combine the resources"@
}

/// The complex resource that a combination request asks for.
pub open spec fn recipe_of(msg: CombineRequest) -> ComplexKind {
    match msg {
        CombineRequest::Diamond(..) => ComplexKind::Diamond,
        CombineRequest::Life(..) => ComplexKind::Life,
        CombineRequest::Water(..) => ComplexKind::Water,
        CombineRequest::Robot(..) => ComplexKind::Robot,
        CombineRequest::Dolphin(..) => ComplexKind::Dolphin,
        CombineRequest::AIPartner(..) => ComplexKind::AIPartner,
    }
}

/// The two ingredients of a combination request, in order.
pub open spec fn ingredients_of(msg: CombineRequest) -> (Ingredient, Ingredient) {
    match msg {
        CombineRequest::Diamond(a, b) => (Ingredient::Carbon(a), Ingredient::Carbon(b)),
        CombineRequest::Life(a, b) => (Ingredient::Water(a), Ingredient::Carbon(b)),
        CombineRequest::Water(a, b) => (Ingredient::Hydrogen(a), Ingredient::Oxygen(b)),
        CombineRequest::Robot(a, b) => (Ingredient::Silicon(a), Ingredient::Life(b)),
        CombineRequest::Dolphin(a, b) => (Ingredient::Water(a), Ingredient::Life(b)),
        CombineRequest::AIPartner(a, b) => (Ingredient::Robot(a), Ingredient::Diamond(b)),
    }
}

/// The kind of a product.
pub open spec fn product_kind(p: Product) -> ComplexKind {
    match p {
        Product::Diamond(..) => ComplexKind::Diamond,
        Product::Water(..) => ComplexKind::Water,
        Product::Life(..) => ComplexKind::Life,
        Product::Robot(..) => ComplexKind::Robot,
        Product::Dolphin(..) => ComplexKind::Dolphin,
        Product::AIPartner(..) => ComplexKind::AIPartner,
    }
}

/// A generation request succeeds exactly where the planet's cell is charged, Carbon is
/// asked for, and the generator holds the Carbon recipe.
pub open spec fn generation_succeeds(v: PlanetView, recipes: Set<BasicKind>, req: BasicKind) -> bool {
    v.cells[0] && req == BasicKind::Carbon && recipes.contains(BasicKind::Carbon)
}

/// The answer to a generation request, and the state after it: the Carbon and a spent
/// cell where it succeeds, no resource and no change otherwise.
pub open spec fn generate_outcome(
    before: PlanetView,
    after: PlanetView,
    recipes: Set<BasicKind>,
    req: BasicKind,
    response: Option<ExplorerResponse>,
) -> bool {
    let made = generation_succeeds(before, recipes, req);
    &&& response matches Some(ExplorerResponse::GenerateResourceResponse { resource })
        && resource is Some == made
    &&& after == if made {
        spend_cell(before, 0)
    } else {
        before
    }
}

/// A combination request succeeds exactly where the planet's cell is charged and the
/// combinator holds the recipe asked for.
pub open spec fn combination_succeeds(
    v: PlanetView,
    recipes: Set<ComplexKind>,
    msg: CombineRequest,
) -> bool {
    v.cells[0] && recipes.contains(recipe_of(msg))
}

/// The explanation given where a combination fails: first the spent cell, then a
/// missing recipe.
pub open spec fn refusal_text(v: PlanetView, msg: CombineRequest) -> Seq<char> {
    if !v.cells[0] {
        uncharged_combination_text()
    } else {
        no_recipe_text(complex_name(recipe_of(msg)))
    }
}

/// The answer to a combination request, and the state after it: the product asked for
/// and a spent cell where it succeeds; otherwise the explanation with both ingredients
/// handed back in order, and no change.
pub open spec fn combine_outcome(
    before: PlanetView,
    after: PlanetView,
    recipes: Set<ComplexKind>,
    msg: CombineRequest,
    response: Option<ExplorerResponse>,
) -> bool {
    let made = combination_succeeds(before, recipes, msg);
    &&& response matches Some(ExplorerResponse::CombineResourceResponse { complex_response })
        && {
        &&& complex_response is Ok == made
        &&& complex_response matches Ok(p) ==> product_kind(p) == recipe_of(msg)
        &&& complex_response matches Err(e) ==> {
            &&& (e.1, e.2) == ingredients_of(msg)
            &&& e.0@ == refusal_text(before, msg)
        }
    }
    &&& after == if made {
        spend_cell(before, 0)
    } else {
        before
    }
}

/// The answer to a request for the supported basic resources.
pub open spec fn supported_resources_outcome(
    recipes: Set<BasicKind>,
    response: Option<ExplorerResponse>,
) -> bool {
    response matches Some(ExplorerResponse::SupportedResourceResponse { resource_list })
        && resource_list@.to_set() == recipes && resource_list@.no_duplicates()
}

/// The answer to a request for the supported complex resources.
pub open spec fn supported_combinations_outcome(
    recipes: Set<ComplexKind>,
    response: Option<ExplorerResponse>,
) -> bool {
    response matches Some(ExplorerResponse::SupportedCombinationResponse { combination_list })
        && combination_list@.to_set() == recipes && combination_list@.no_duplicates()
}

/// The answer to a request for the number of charged cells.
pub open spec fn energy_cells_outcome(v: PlanetView, response: Option<ExplorerResponse>) -> bool {
    response matches Some(ExplorerResponse::AvailableEnergyCellResponse { available_cells })
        && available_cells == reported_cells(v)
}

} // verus!
