use std::collections::HashSet;
use std::sync::{Arc, Mutex};

use cargonauts::blueprint::cargonauts_blueprint;
use cargonauts::handlers::{
    handle_asteroid, handle_energy_cell_request, handle_explorer_msg, handle_internal_state_req,
    handle_sunray, handle_supported_combination_request, handle_supported_resource_request,
};
use cargonauts::kinds::{BasicKind, ComplexKind, PlanetKind};
use cargonauts::messages::{CombineRequest, ExplorerRequest, ExplorerResponse, Ingredient, Product};
use common_game::components::asteroid::Asteroid;
use common_game::components::planet::{DummyPlanetState, Planet, PlanetAI, PlanetState, PlanetType};
use common_game::components::resource::{
    BasicResourceType, Carbon, Combinator, ComplexResourceType, Generator, Hydrogen, Oxygen, Water,
};
use common_game::components::rocket::Rocket;
use common_game::components::sunray::Sunray;
use common_game::protocols::orchestrator_planet::{OrchestratorToPlanet, PlanetToOrchestrator};
use common_game::protocols::planet_explorer::{ExplorerToPlanet, PlanetToExplorer};
use crossbeam_channel::unbounded;

/// A step run by the planet on each internal state request, with the number of steps run before.
type Step = Box<dyn FnMut(usize, &mut PlanetState, &Generator, &Combinator) + Send>;

/// The Cargonauts handlers, with a scripted step run on each internal state request so that a
/// test can reach the planet state the way the game hands it to the planet.
struct ScriptedPlanet {
    step: Step,
    calls: usize,
}

impl PlanetAI for ScriptedPlanet {
    fn handle_sunray(
        &mut self,
        state: &mut PlanetState,
        _generator: &Generator,
        _combinator: &Combinator,
        sunray: Sunray,
    ) {
        handle_sunray(state, sunray);
    }

    fn handle_asteroid(
        &mut self,
        state: &mut PlanetState,
        _generator: &Generator,
        _combinator: &Combinator,
    ) -> Option<Rocket> {
        handle_asteroid(state)
    }

    fn handle_internal_state_req(
        &mut self,
        state: &mut PlanetState,
        generator: &Generator,
        combinator: &Combinator,
    ) -> DummyPlanetState {
        (self.step)(self.calls, state, generator, combinator);
        self.calls += 1;
        let report = handle_internal_state_req(state);
        DummyPlanetState {
            energy_cells: report.energy_cells,
            charged_cells_count: report.charged_cells_count,
            has_rocket: report.has_rocket,
        }
    }

    fn handle_explorer_msg(
        &mut self,
        _state: &mut PlanetState,
        _generator: &Generator,
        _combinator: &Combinator,
        _msg: ExplorerToPlanet,
    ) -> Option<PlanetToExplorer> {
        None
    }
}

fn basic_type(kind: BasicKind) -> BasicResourceType {
    match kind {
        BasicKind::Oxygen => BasicResourceType::Oxygen,
        BasicKind::Hydrogen => BasicResourceType::Hydrogen,
        BasicKind::Carbon => BasicResourceType::Carbon,
        BasicKind::Silicon => BasicResourceType::Silicon,
    }
}

fn complex_type(kind: ComplexKind) -> ComplexResourceType {
    match kind {
        ComplexKind::Diamond => ComplexResourceType::Diamond,
        ComplexKind::Water => ComplexResourceType::Water,
        ComplexKind::Life => ComplexResourceType::Life,
        ComplexKind::Robot => ComplexResourceType::Robot,
        ComplexKind::Dolphin => ComplexResourceType::Dolphin,
        ComplexKind::AIPartner => ComplexResourceType::AIPartner,
    }
}

fn no_step() -> Step {
    Box::new(|_, _, _, _| {})
}

/// A planet of the given type and recipes, with the scripted handlers.
fn make_planet(
    id: u32,
    planet_type: PlanetType,
    gen_rules: Vec<BasicResourceType>,
    comb_rules: Vec<ComplexResourceType>,
    step: Step,
) -> (Planet, crossbeam_channel::Sender<OrchestratorToPlanet>, crossbeam_channel::Receiver<PlanetToOrchestrator>) {
    let (orch_tx, orch_rx) = unbounded();
    let (planet_tx, planet_rx) = unbounded();
    let (_explorer_tx, explorer_rx) = unbounded::<ExplorerToPlanet>();
    let planet = Planet::new(
        id,
        planet_type,
        Box::new(ScriptedPlanet { step, calls: 0 }),
        gen_rules,
        comb_rules,
        (orch_rx, planet_tx),
        explorer_rx,
    )
    .unwrap();
    (planet, orch_tx, planet_rx)
}

/// A Cargonauts planet, made from the library's blueprint.
fn cargonauts_planet(id: u32, step: Step) -> (Planet, crossbeam_channel::Sender<OrchestratorToPlanet>, crossbeam_channel::Receiver<PlanetToOrchestrator>) {
    let blueprint = cargonauts_blueprint();
    assert!(blueprint.planet_type == PlanetKind::C);
    make_planet(
        id,
        PlanetType::C,
        blueprint.gen_rules.into_iter().map(basic_type).collect(),
        blueprint.comb_rules.into_iter().map(complex_type).collect(),
        step,
    )
}

/// Sends the messages, then a kill, runs the planet to its end, and returns its answers
/// (the answer to the kill left out).
fn run_messages(
    planet: &mut Planet,
    orch_tx: &crossbeam_channel::Sender<OrchestratorToPlanet>,
    planet_rx: &crossbeam_channel::Receiver<PlanetToOrchestrator>,
    messages: Vec<OrchestratorToPlanet>,
) -> Vec<PlanetToOrchestrator> {
    for m in messages {
        orch_tx.send(m).unwrap();
    }
    orch_tx.send(OrchestratorToPlanet::KillPlanet).unwrap();
    planet.run().unwrap();
    let mut answers: Vec<PlanetToOrchestrator> = planet_rx.try_iter().collect();
    assert!(matches!(answers.pop(), Some(PlanetToOrchestrator::KillPlanetResult { .. })));
    answers
}

fn sunray() -> OrchestratorToPlanet {
    OrchestratorToPlanet::Sunray(Sunray::default())
}

fn asteroid() -> OrchestratorToPlanet {
    OrchestratorToPlanet::Asteroid(Asteroid::default())
}

fn step_now() -> OrchestratorToPlanet {
    OrchestratorToPlanet::InternalStateRequest
}

/// What a scripted step saw, in order.
type Seen = Arc<Mutex<Vec<String>>>;

fn describe(response: &Option<ExplorerResponse>) -> String {
    match response {
        None => "None".to_string(),
        Some(ExplorerResponse::SupportedResourceResponse { resource_list }) => {
            format!("resources {}", resource_list.len())
        }
        Some(ExplorerResponse::SupportedCombinationResponse { combination_list }) => {
            format!("combinations {}", combination_list.len())
        }
        Some(ExplorerResponse::GenerateResourceResponse { resource: Some(_) }) => {
            "generated Carbon".to_string()
        }
        Some(ExplorerResponse::GenerateResourceResponse { resource: None }) => {
            "generated nothing".to_string()
        }
        Some(ExplorerResponse::CombineResourceResponse { complex_response: Ok(p) }) => {
            let name = match p {
                Product::Diamond(_) => "Diamond",
                Product::Water(_) => "Water",
                Product::Life(_) => "Life",
                Product::Robot(_) => "Robot",
                Product::Dolphin(_) => "Dolphin",
                Product::AIPartner(_) => "AIPartner",
            };
            format!("made {}", name)
        }
        Some(ExplorerResponse::CombineResourceResponse { complex_response: Err((text, a, b)) }) => {
            let name = |i: &Ingredient| match i {
                Ingredient::Oxygen(_) => "Oxygen",
                Ingredient::Hydrogen(_) => "Hydrogen",
                Ingredient::Carbon(_) => "Carbon",
                Ingredient::Silicon(_) => "Silicon",
                Ingredient::Diamond(_) => "Diamond",
                Ingredient::Water(_) => "Water",
                Ingredient::Life(_) => "Life",
                Ingredient::Robot(_) => "Robot",
                Ingredient::Dolphin(_) => "Dolphin",
                Ingredient::AIPartner(_) => "AIPartner",
            };
            format!("refused: {} ({}, {})", text, name(a), name(b))
        }
        Some(ExplorerResponse::AvailableEnergyCellResponse { available_cells }) => {
            format!("cells {}", available_cells)
        }
    }
}

fn generate(explorer_id: u32, resource: BasicKind) -> ExplorerRequest {
    ExplorerRequest::GenerateResourceRequest { explorer_id, resource }
}

/// A step that asks for Carbon on each of its first `n` runs, keeps what it gets, and on
/// the next run asks for a Diamond out of the two Carbons kept.
fn carbons_then_diamond(seen: Seen) -> Step {
    let mut bag: Vec<Carbon> = Vec::new();
    Box::new(move |call, state, generator, combinator| {
        if call < 2 {
            let response = handle_explorer_msg(state, generator, combinator, generate(1, BasicKind::Carbon));
            seen.lock().unwrap().push(describe(&response));
            if let Some(ExplorerResponse::GenerateResourceResponse { resource: Some(c) }) = response {
                bag.push(c);
            }
        } else if bag.len() == 2 {
            let c1 = bag.pop().unwrap();
            let c2 = bag.pop().unwrap();
            let msg = CombineRequest::Diamond(c1, c2);
            let response = handle_explorer_msg(
                state,
                generator,
                combinator,
                ExplorerRequest::CombineResourceRequest { explorer_id: 1, msg },
            );
            seen.lock().unwrap().push(describe(&response));
        }
    })
}

fn seen_list(seen: &Seen) -> Vec<String> {
    seen.lock().unwrap().clone()
}

fn state_of(answer: &PlanetToOrchestrator) -> (Vec<bool>, usize, bool) {
    match answer {
        PlanetToOrchestrator::InternalStateResponse { planet_state, .. } => (
            planet_state.energy_cells.clone(),
            planet_state.charged_cells_count,
            planet_state.has_rocket,
        ),
        _ => panic!("Expected InternalStateResponse"),
    }
}

// ---------------------------------------------------------------- asteroid and sunray

fn check_asteroid_with_uncharged_cell() {
    let (mut planet, tx, rx) = cargonauts_planet(2, no_step());
    let answers = run_messages(&mut planet, &tx, &rx, vec![OrchestratorToPlanet::StartPlanetAI, asteroid()]);
    assert!(matches!(answers[1], PlanetToOrchestrator::AsteroidAck { .. }));
    assert!(matches!(answers[1], PlanetToOrchestrator::AsteroidAck { planet_id: 2, rocket: None }));
}

#[test]
fn planet_ai_asteroid_with_uncharged_cell() {
    check_asteroid_with_uncharged_cell();
}

#[test]
#[allow(non_snake_case)]
fn planetAI_asteroid_with_uncharged_cell() {
    check_asteroid_with_uncharged_cell();
}

fn check_asteroid_handler_with_charged_cell() {
    let (mut planet, tx, rx) = cargonauts_planet(2, no_step());
    let answers = run_messages(
        &mut planet,
        &tx,
        &rx,
        vec![OrchestratorToPlanet::StartPlanetAI, sunray(), asteroid()],
    );
    assert!(
        matches!(answers[1], PlanetToOrchestrator::SunrayAck { .. }),
        "Did not received a sunrays AKC"
    );
    assert!(matches!(answers[1], PlanetToOrchestrator::SunrayAck { planet_id: 2 }));
    assert!(
        matches!(answers[2], PlanetToOrchestrator::AsteroidAck { planet_id: 2, rocket: _ }),
        "Planet answered with a different ID"
    );
    assert!(matches!(answers[2], PlanetToOrchestrator::AsteroidAck { planet_id: 2, rocket: Some(_) }));
    assert!(
        matches!(answers[2], PlanetToOrchestrator::AsteroidAck { .. }),
        "The planet did not answer back with a AsteroidAck"
    );
}

#[test]
fn planet_ai_test_asteroid_handler_with_charged_cell() {
    check_asteroid_handler_with_charged_cell();
}

#[test]
#[allow(non_snake_case)]
fn planetAI_test_asteroid_handler_with_charged_cell() {
    check_asteroid_handler_with_charged_cell();
}

fn check_rocket_with_disabled_ai() {
    let (mut planet, tx, rx) = cargonauts_planet(2, no_step());
    let answers = run_messages(
        &mut planet,
        &tx,
        &rx,
        vec![OrchestratorToPlanet::StartPlanetAI, OrchestratorToPlanet::StopPlanetAI, asteroid()],
    );
    assert!(matches!(answers[1], PlanetToOrchestrator::StopPlanetAIResult { .. }));
    assert!(matches!(answers[2], PlanetToOrchestrator::Stopped { .. }));
}

#[test]
fn planet_ai_test_rocket_with_disabled_ai() {
    check_rocket_with_disabled_ai();
}

#[test]
#[allow(non_snake_case)]
fn planetAI_test_rocket_with_disabled_ai() {
    check_rocket_with_disabled_ai();
}

fn check_start_and_stop_planet_ai() {
    let (mut planet, tx, rx) = cargonauts_planet(2, no_step());
    let answers = run_messages(
        &mut planet,
        &tx,
        &rx,
        vec![
            OrchestratorToPlanet::StartPlanetAI,
            OrchestratorToPlanet::StopPlanetAI,
            OrchestratorToPlanet::StartPlanetAI,
        ],
    );
    assert!(
        matches!(answers[0], PlanetToOrchestrator::StartPlanetAIResult { .. }),
        "Expected a StartPlanetAIResult!"
    );
    assert!(
        matches!(answers[0], PlanetToOrchestrator::StartPlanetAIResult { planet_id: 2 }),
        "Expected a StartPlanetAIResult with id = 2!"
    );
    assert!(
        matches!(answers[1], PlanetToOrchestrator::StopPlanetAIResult { .. }),
        "Expected a StopPlanetAIResult"
    );
    assert!(
        matches!(answers[1], PlanetToOrchestrator::StopPlanetAIResult { planet_id: 2 }),
        "Expected a StopPlanetAIResult with id = 2"
    );
    assert!(
        matches!(answers[2], PlanetToOrchestrator::StartPlanetAIResult { .. }),
        "Expected a StartPlanetAIResult!"
    );
    assert!(
        matches!(answers[2], PlanetToOrchestrator::StartPlanetAIResult { planet_id: 2 }),
        "Expected a StartPlanetAIResult with id = 2!"
    );
}

#[test]
fn planet_ai_test_start_and_stop_planet_ai() {
    check_start_and_stop_planet_ai();
}

#[test]
#[allow(non_snake_case)]
fn planetAI_test_start_and_stop_planet_ai() {
    check_start_and_stop_planet_ai();
}

// ---------------------------------------------------------------- explorer requests

fn check_supported_resource_request() {
    let (planet, _tx, _rx) = cargonauts_planet(2, no_step());
    let result = handle_supported_resource_request(2, 1, planet.generator());
    assert!(result.is_some());
    if let Some(ExplorerResponse::SupportedResourceResponse { resource_list }) = result {
        let result_set: HashSet<BasicKind> = resource_list.into_iter().collect();
        let expected_set: HashSet<BasicKind> = vec![BasicKind::Carbon].into_iter().collect();
        assert_eq!(result_set, expected_set);
    } else {
        panic!("Expected SupportedResourceResponse variant");
    }
}

#[test]
fn planet_ai_test_unit_handle_supported_resource_request() {
    check_supported_resource_request();
}

#[test]
#[allow(non_snake_case)]
fn planetAI_test_unit_handle_supported_resource_request() {
    check_supported_resource_request();
}

fn check_supported_combination_request() {
    let (planet, _tx, _rx) = cargonauts_planet(2, no_step());
    let result = handle_supported_combination_request(2, 1, planet.combinator());
    assert!(result.is_some());
    if let Some(ExplorerResponse::SupportedCombinationResponse { combination_list }) = result {
        let result_set: HashSet<ComplexKind> = combination_list.into_iter().collect();
        let expected_set: HashSet<ComplexKind> = vec![
            ComplexKind::Diamond,
            ComplexKind::Life,
            ComplexKind::AIPartner,
            ComplexKind::Dolphin,
            ComplexKind::Robot,
            ComplexKind::Water,
        ]
        .into_iter()
        .collect();
        assert_eq!(result_set, expected_set);
    } else {
        panic!("Expected SupportedCombinationResponse variant");
    }
}

#[test]
fn planet_ai_test_unit_handle_supported_combination_request() {
    check_supported_combination_request();
}

#[test]
#[allow(non_snake_case)]
fn planetAI_test_unit_handle_supported_combination_request() {
    check_supported_combination_request();
}

/// Runs a Cargonauts planet through the messages, with a step that sends one request,
/// and returns what the step saw.
fn one_request(messages: Vec<OrchestratorToPlanet>, request: fn() -> ExplorerRequest) -> Vec<String> {
    let seen: Seen = Arc::new(Mutex::new(Vec::new()));
    let log = Arc::clone(&seen);
    let step: Step = Box::new(move |_, state, generator, combinator| {
        let response = handle_explorer_msg(state, generator, combinator, request());
        log.lock().unwrap().push(describe(&response));
    });
    let (mut planet, tx, rx) = cargonauts_planet(2, step);
    let _ = run_messages(&mut planet, &tx, &rx, messages);
    seen_list(&seen)
}

#[test]
fn test_integration_generate_carbon_with_energy() {
    let seen = one_request(
        vec![OrchestratorToPlanet::StartPlanetAI, sunray(), step_now()],
        || generate(1, BasicKind::Carbon),
    );
    assert_eq!(seen, vec!["generated Carbon".to_string()], "Expected GenerateResourceResponse");
}

#[test]
fn test_integration_generate_unsupported_resource() {
    let seen = one_request(
        vec![OrchestratorToPlanet::StartPlanetAI, sunray(), step_now()],
        || generate(1, BasicKind::Oxygen),
    );
    assert_eq!(seen, vec!["generated nothing".to_string()], "Expected GenerateResourceResponse");
}

#[test]
fn test_integration_generate_carbon_without_energy() {
    let seen = one_request(vec![OrchestratorToPlanet::StartPlanetAI, step_now()], || {
        generate(1, BasicKind::Carbon)
    });
    assert_eq!(seen, vec!["generated nothing".to_string()], "Expected GenerateResourceResponse");
}

#[test]
fn test_integration_combine_carbon_with_energy() {
    let seen: Seen = Arc::new(Mutex::new(Vec::new()));
    let (mut planet, tx, rx) = cargonauts_planet(2, carbons_then_diamond(Arc::clone(&seen)));
    let _ = run_messages(
        &mut planet,
        &tx,
        &rx,
        vec![
            OrchestratorToPlanet::StartPlanetAI,
            sunray(),
            step_now(),
            sunray(),
            step_now(),
            sunray(),
            step_now(),
        ],
    );
    assert_eq!(
        seen_list(&seen),
        vec!["generated Carbon".to_string(), "generated Carbon".to_string(), "made Diamond".to_string()],
        "Expected Ok(Diamond)"
    );
}

#[test]
fn test_integration_combine_carbon_without_energy() {
    let seen: Seen = Arc::new(Mutex::new(Vec::new()));
    let (mut planet, tx, rx) = cargonauts_planet(2, carbons_then_diamond(Arc::clone(&seen)));
    let _ = run_messages(
        &mut planet,
        &tx,
        &rx,
        vec![
            OrchestratorToPlanet::StartPlanetAI,
            sunray(),
            step_now(),
            sunray(),
            step_now(),
            step_now(),
        ],
    );
    let seen = seen_list(&seen);
    assert_eq!(seen.len(), 3, "Expected Carbon");
    assert!(seen[2].starts_with("refused"), "Expected Err(), got {:?}", seen[2]);
    assert_eq!(
        seen[2],
        "refused: Uncharged energy cell. Can't combine the resources (Carbon, Carbon)".to_string(),
        "Expected CombineResourceResponse"
    );
}

fn check_sunray_then_energy_cell_request() {
    let seen = one_request(
        vec![OrchestratorToPlanet::StartPlanetAI, sunray(), step_now()],
        || ExplorerRequest::AvailableEnergyCellRequest { explorer_id: 1 },
    );
    assert_eq!(seen, vec!["cells 1".to_string()], "Expected AvailableEnergyCellResponse");
}

#[test]
fn planet_ai_test_integration_handle_orchestrator_msg_sunray_and_handle_energy_cell_request_charge() {
    check_sunray_then_energy_cell_request();
}

#[test]
#[allow(non_snake_case)]
fn planetAI_test_integration_handle_orchestrator_msg_sunray_and_handle_energy_cell_request_charge() {
    check_sunray_then_energy_cell_request();
}

fn check_energy_cell_request_discharge() {
    let (planet, _tx, _rx) = cargonauts_planet(2, no_step());
    let result = handle_energy_cell_request(1, planet.state());
    assert!(result.is_some());
    if let Some(ExplorerResponse::AvailableEnergyCellResponse { available_cells }) = result {
        let expected_usize = 0;
        assert_eq!(available_cells, expected_usize);
    } else {
        panic!("Expected SupportedCombinationResponse variant");
    }
}

#[test]
fn planet_ai_test_unit_handle_energy_cell_request_discharge() {
    check_energy_cell_request_discharge();
}

#[test]
#[allow(non_snake_case)]
fn planetAI_test_unit_handle_energy_cell_request_discharge() {
    check_energy_cell_request_discharge();
}

#[test]
fn test_internal_state_request() {
    let test_planet_id = 10;
    let (mut planet, tx, rx) = cargonauts_planet(test_planet_id, no_step());
    let answers = run_messages(
        &mut planet,
        &tx,
        &rx,
        vec![OrchestratorToPlanet::StartPlanetAI, OrchestratorToPlanet::InternalStateRequest],
    );
    match &answers[1] {
        PlanetToOrchestrator::InternalStateResponse { planet_id, planet_state } => {
            assert_eq!(*planet_id, test_planet_id, "Returned planet ID does not match");
            assert_eq!(planet_state.energy_cells.len(), 1, "Planet C should have 1 energy cell");
        }
        _ => panic!("Received unexpected message type"),
    }
}

// ---------------------------------------------------------------- laws on concrete values

#[test]
fn asteroid_after_sunray_spends_the_charge_and_keeps_no_rocket() {
    let (mut planet, tx, rx) = cargonauts_planet(4, no_step());
    let answers = run_messages(
        &mut planet,
        &tx,
        &rx,
        vec![OrchestratorToPlanet::StartPlanetAI, sunray(), step_now(), asteroid(), step_now()],
    );
    assert_eq!(state_of(&answers[2]), (vec![true], 1, false));
    assert!(matches!(answers[3], PlanetToOrchestrator::AsteroidAck { planet_id: 4, rocket: Some(_) }));
    assert_eq!(state_of(&answers[4]), (vec![false], 0, false));
}

#[test]
fn second_asteroid_without_new_sunray_destroys_the_planet() {
    let (mut planet, tx, rx) = cargonauts_planet(4, no_step());
    let answers = run_messages(
        &mut planet,
        &tx,
        &rx,
        vec![OrchestratorToPlanet::StartPlanetAI, sunray(), asteroid(), asteroid()],
    );
    assert!(matches!(answers[2], PlanetToOrchestrator::AsteroidAck { rocket: Some(_), .. }));
    assert!(matches!(answers[3], PlanetToOrchestrator::AsteroidAck { rocket: None, .. }));
}

#[test]
fn sunray_on_a_charged_planet_is_wasted() {
    let (mut planet, tx, rx) = cargonauts_planet(4, no_step());
    let answers = run_messages(
        &mut planet,
        &tx,
        &rx,
        vec![OrchestratorToPlanet::StartPlanetAI, sunray(), sunray(), step_now()],
    );
    assert!(matches!(answers[2], PlanetToOrchestrator::SunrayAck { planet_id: 4 }));
    assert_eq!(state_of(&answers[3]), (vec![true], 1, false));
}

#[test]
fn sunray_charges_the_first_empty_cell_of_a_larger_planet() {
    let (mut planet, tx, rx) =
        make_planet(5, PlanetType::A, vec![BasicResourceType::Carbon], vec![], no_step());
    let answers = run_messages(
        &mut planet,
        &tx,
        &rx,
        vec![OrchestratorToPlanet::StartPlanetAI, sunray(), sunray(), step_now(), asteroid(), step_now()],
    );
    assert_eq!(state_of(&answers[3]), (vec![true, true, false, false, false], 2, false));
    assert!(matches!(answers[4], PlanetToOrchestrator::AsteroidAck { rocket: Some(_), .. }));
    assert_eq!(state_of(&answers[5]), (vec![false, true, false, false, false], 1, false));
}

#[test]
fn planet_without_rockets_cannot_deflect_even_when_charged() {
    let (mut planet, tx, rx) = make_planet(
        6,
        PlanetType::B,
        vec![BasicResourceType::Carbon],
        vec![ComplexResourceType::Diamond],
        no_step(),
    );
    let answers = run_messages(
        &mut planet,
        &tx,
        &rx,
        vec![OrchestratorToPlanet::StartPlanetAI, sunray(), asteroid(), step_now()],
    );
    assert!(matches!(answers[2], PlanetToOrchestrator::AsteroidAck { rocket: None, .. }));
    assert_eq!(state_of(&answers[3]), (vec![true], 1, false));
}

#[test]
fn unsupported_generation_keeps_the_charge() {
    let seen = one_request(
        vec![OrchestratorToPlanet::StartPlanetAI, sunray(), step_now(), step_now()],
        || generate(1, BasicKind::Silicon),
    );
    assert_eq!(seen, vec!["generated nothing".to_string(), "generated nothing".to_string()]);
    let seen = one_request(
        vec![OrchestratorToPlanet::StartPlanetAI, sunray(), step_now()],
        || ExplorerRequest::AvailableEnergyCellRequest { explorer_id: 3 },
    );
    assert_eq!(seen, vec!["cells 1".to_string()]);
}

#[test]
fn generation_spends_the_charge() {
    let seen = one_request(
        vec![OrchestratorToPlanet::StartPlanetAI, sunray(), step_now(), step_now()],
        || generate(1, BasicKind::Carbon),
    );
    assert_eq!(seen, vec!["generated Carbon".to_string(), "generated nothing".to_string()]);
}

#[test]
fn internal_state_counts_charged_cells() {
    let (planet, _tx, _rx) = cargonauts_planet(2, no_step());
    let report = handle_internal_state_req(planet.state());
    assert_eq!(report.energy_cells, vec![false]);
    assert_eq!(report.charged_cells_count, 0);
    assert!(!report.has_rocket);
}

#[test]
fn supported_requests_through_dispatch() {
    let seen = one_request(vec![OrchestratorToPlanet::StartPlanetAI, step_now()], || {
        ExplorerRequest::SupportedResourceRequest { explorer_id: 1 }
    });
    assert_eq!(seen, vec!["resources 1".to_string()]);
    let seen = one_request(vec![OrchestratorToPlanet::StartPlanetAI, step_now()], || {
        ExplorerRequest::SupportedCombinationRequest { explorer_id: 1 }
    });
    assert_eq!(seen, vec!["combinations 6".to_string()]);
}

/// A step that generates Hydrogen, then Oxygen, then combines them into Water, keeping the
/// Water and generating Carbon, and finally asks for Life; the planet holds the recipes
/// given to it.
fn water_then_life(seen: Seen) -> Step {
    let mut hydrogen: Vec<Hydrogen> = Vec::new();
    let mut oxygen: Vec<Oxygen> = Vec::new();
    let mut water: Vec<Water> = Vec::new();
    let mut carbon: Vec<Carbon> = Vec::new();
    Box::new(move |call, state, generator, combinator| {
        let cell = state.cell_mut(0);
        let line = match call {
            0 => {
                hydrogen.push(generator.make_hydrogen(cell).unwrap());
                "hydrogen".to_string()
            }
            1 => {
                oxygen.push(generator.make_oxygen(cell).unwrap());
                "oxygen".to_string()
            }
            2 => {
                let msg = CombineRequest::Water(hydrogen.pop().unwrap(), oxygen.pop().unwrap());
                let response = handle_explorer_msg(
                    state,
                    generator,
                    combinator,
                    ExplorerRequest::CombineResourceRequest { explorer_id: 1, msg },
                );
                let line = describe(&response);
                if let Some(ExplorerResponse::CombineResourceResponse { complex_response: Ok(Product::Water(w)) }) = response {
                    water.push(w);
                }
                line
            }
            3 => {
                let response = handle_explorer_msg(state, generator, combinator, generate(1, BasicKind::Carbon));
                let line = describe(&response);
                if let Some(ExplorerResponse::GenerateResourceResponse { resource: Some(c) }) = response {
                    carbon.push(c);
                }
                line
            }
            _ => {
                let msg = CombineRequest::Life(water.pop().unwrap(), carbon.pop().unwrap());
                let response = handle_explorer_msg(
                    state,
                    generator,
                    combinator,
                    ExplorerRequest::CombineResourceRequest { explorer_id: 1, msg },
                );
                describe(&response)
            }
        };
        seen.lock().unwrap().push(line);
    })
}

#[test]
fn combination_without_recipe_hands_back_the_ingredients() {
    let seen: Seen = Arc::new(Mutex::new(Vec::new()));
    let (mut planet, tx, rx) = make_planet(
        7,
        PlanetType::B,
        vec![BasicResourceType::Hydrogen, BasicResourceType::Oxygen, BasicResourceType::Carbon],
        vec![ComplexResourceType::Water],
        water_then_life(Arc::clone(&seen)),
    );
    let mut messages = vec![OrchestratorToPlanet::StartPlanetAI];
    for _ in 0..5 {
        messages.push(sunray());
        messages.push(step_now());
    }
    let answers = run_messages(&mut planet, &tx, &rx, messages);
    assert_eq!(
        seen_list(&seen),
        vec![
            "hydrogen".to_string(),
            "oxygen".to_string(),
            "made Water".to_string(),
            "generated Carbon".to_string(),
            "refused: there isn't a recipe for Life (Water, Carbon)".to_string(),
        ]
    );
    // The refused combination left the cell charged.
    assert_eq!(state_of(&answers[10]), (vec![true], 1, false));
}

#[test]
fn combination_makes_life_where_the_recipe_is_held() {
    let seen: Seen = Arc::new(Mutex::new(Vec::new()));
    let first_seen: Seen = Arc::new(Mutex::new(Vec::new()));
    // A planet that makes Water hands its Water over to one that makes Life.
    let shared_water: Arc<Mutex<Vec<Water>>> = Arc::new(Mutex::new(Vec::new()));
    let giver = Arc::clone(&shared_water);
    let mut inner = water_then_life(Arc::clone(&first_seen));
    let first_step: Step = Box::new(move |call, state, generator, combinator| {
        if call < 3 {
            inner(call, state, generator, combinator);
        } else {
            let h = generator.make_hydrogen(state.cell_mut(0)).unwrap();
            state.cell_mut(0).charge(Sunray::default());
            let o = generator.make_oxygen(state.cell_mut(0)).unwrap();
            state.cell_mut(0).charge(Sunray::default());
            let response = handle_explorer_msg(
                state,
                generator,
                combinator,
                ExplorerRequest::CombineResourceRequest {
                    explorer_id: 1,
                    msg: CombineRequest::Water(h, o),
                },
            );
            if let Some(ExplorerResponse::CombineResourceResponse { complex_response: Ok(Product::Water(w)) }) = response {
                giver.lock().unwrap().push(w);
            }
        }
    });
    let (mut first, tx, rx) = make_planet(
        8,
        PlanetType::B,
        vec![BasicResourceType::Hydrogen, BasicResourceType::Oxygen],
        vec![ComplexResourceType::Water],
        first_step,
    );
    let mut messages = vec![OrchestratorToPlanet::StartPlanetAI];
    for _ in 0..4 {
        messages.push(sunray());
        messages.push(step_now());
    }
    let _ = run_messages(&mut first, &tx, &rx, messages);
    assert_eq!(shared_water.lock().unwrap().len(), 1);

    let taker = Arc::clone(&shared_water);
    let log = Arc::clone(&seen);
    let mut carbon: Vec<Carbon> = Vec::new();
    let second_step: Step = Box::new(move |call, state, generator, combinator| {
        if call == 0 {
            let response = handle_explorer_msg(state, generator, combinator, generate(1, BasicKind::Carbon));
            if let Some(ExplorerResponse::GenerateResourceResponse { resource: Some(c) }) = response {
                carbon.push(c);
            }
        } else {
            let w = taker.lock().unwrap().pop().unwrap();
            let msg = CombineRequest::Life(w, carbon.pop().unwrap());
            let response = handle_explorer_msg(
                state,
                generator,
                combinator,
                ExplorerRequest::CombineResourceRequest { explorer_id: 1, msg },
            );
            log.lock().unwrap().push(describe(&response));
        }
    });
    let (mut second, tx, rx) = make_planet(
        9,
        PlanetType::B,
        vec![BasicResourceType::Carbon],
        vec![ComplexResourceType::Life],
        second_step,
    );
    let answers = run_messages(
        &mut second,
        &tx,
        &rx,
        vec![OrchestratorToPlanet::StartPlanetAI, sunray(), step_now(), sunray(), step_now()],
    );
    assert_eq!(seen_list(&seen), vec!["made Life".to_string()]);
    assert_eq!(state_of(&answers[4]), (vec![false], 0, false));
}

#[test]
fn combination_without_diamond_recipe_names_it() {
    let seen: Seen = Arc::new(Mutex::new(Vec::new()));
    let log = Arc::clone(&seen);
    let step: Step = Box::new(move |_, state, generator, combinator| {
        let c1 = generator.make_carbon(state.cell_mut(0)).unwrap();
        state.cell_mut(0).charge(Sunray::default());
        let c2 = generator.make_carbon(state.cell_mut(0)).unwrap();
        state.cell_mut(0).charge(Sunray::default());
        let response = handle_explorer_msg(
            state,
            generator,
            combinator,
            ExplorerRequest::CombineResourceRequest { explorer_id: 1, msg: CombineRequest::Diamond(c1, c2) },
        );
        log.lock().unwrap().push(describe(&response));
    });
    let (mut planet, tx, rx) = make_planet(
        3,
        PlanetType::C,
        vec![BasicResourceType::Carbon],
        vec![ComplexResourceType::Water],
        step,
    );
    let answers = run_messages(
        &mut planet,
        &tx,
        &rx,
        vec![OrchestratorToPlanet::StartPlanetAI, sunray(), step_now()],
    );
    assert_eq!(
        seen_list(&seen),
        vec!["refused: there isn't a recipe for Diamond (Carbon, Carbon)".to_string()]
    );
    assert_eq!(state_of(&answers[2]), (vec![true], 1, false));
}

#[test]
fn blueprint_is_a_type_c_carbon_planet_with_every_combination() {
    let blueprint = cargonauts_blueprint();
    assert!(blueprint.planet_type == PlanetKind::C);
    assert_eq!(blueprint.gen_rules, vec![BasicKind::Carbon]);
    assert_eq!(
        blueprint.comb_rules,
        vec![
            ComplexKind::Diamond,
            ComplexKind::Life,
            ComplexKind::AIPartner,
            ComplexKind::Dolphin,
            ComplexKind::Robot,
            ComplexKind::Water,
        ]
    );
}
