use diamond_explorer::kinds::{lists_basic, lists_complex, AiReturn, BasicKind, ComplexKind, TakeOutcome};
use diamond_explorer::machine::{find_unvisited, Action, Event, Explorer};
use diamond_explorer::messages::{OrchestratorReply, PlanetReply};
use std::collections::HashSet;

fn planet(reply: PlanetReply) -> Event {
    Event::Planet(Some(reply))
}

fn orchestrator(reply: OrchestratorReply) -> Event {
    Event::Orchestrator(Some(reply))
}

fn step(ex: &mut Explorer, e: Event) -> Action {
    assert!(ex.awaits_event(&e));
    ex.explorer_ai_step(e)
}

/// Drives a round on a planet that generates nothing and combines nothing,
/// up to the request for neighbours.
fn barren_round(ex: &mut Explorer) -> Action {
    assert_eq!(step(ex, planet(PlanetReply::SupportedResources(vec![]))), Action::AskSupportedCombinations);
    assert_eq!(step(ex, planet(PlanetReply::SupportedCombinations(vec![]))), Action::CountCarbon);
    step(ex, Event::CarbonCount(0))
}

/// Moves the explorer to `dst` after a travel request was made.
fn arrive(ex: &mut Explorer, dst: u32) -> Action {
    assert_eq!(
        step(ex, orchestrator(OrchestratorReply::MoveToPlanet { reachable: true, planet_id: dst })),
        Action::ConfirmMove { planet_id: dst }
    );
    step(ex, Event::Sent(true))
}

#[test]
fn new_explorer_is_idle_and_manual() {
    let ex = Explorer::new(7, 3);
    assert_eq!(ex.get_id(), 7);
    assert_eq!(ex.get_planet_id(), 3);
    assert!(!ex.get_auto_mode());
    assert!(!ex.awaits_event(&Event::Done));
}

#[test]
fn setters_change_one_field() {
    let mut ex = Explorer::new(7, 3);
    ex.set_auto_mode(true);
    assert!(ex.get_auto_mode());
    ex.set_planet_id(9);
    assert_eq!(ex.get_planet_id(), 9);
    assert_eq!(ex.get_id(), 7);
}

#[test]
fn begin_asks_supported_resources() {
    let mut ex = Explorer::new(0, 0);
    assert_eq!(ex.explorer_ai_begin(), Action::AskSupportedResources);
    assert!(ex.awaits_event(&Event::Planet(None)));
    assert!(!ex.awaits_event(&Event::Done));
}

#[test]
fn silent_planet_kills() {
    let mut ex = Explorer::new(0, 0);
    ex.explorer_ai_begin();
    assert_eq!(step(&mut ex, Event::Planet(None)), Action::Finish { outcome: AiReturn::Kill, diamond: false });
    assert!(!ex.awaits_event(&Event::Planet(None)));
}

#[test]
fn wrong_planet_answer_kills() {
    let mut ex = Explorer::new(0, 0);
    ex.explorer_ai_begin();
    assert_eq!(step(&mut ex, planet(PlanetReply::Other)), Action::Finish { outcome: AiReturn::Kill, diamond: false });
    let mut ex = Explorer::new(0, 0);
    ex.explorer_ai_begin();
    step(&mut ex, planet(PlanetReply::SupportedResources(vec![])));
    assert_eq!(
        step(&mut ex, planet(PlanetReply::SupportedResources(vec![]))),
        Action::Finish { outcome: AiReturn::Kill, diamond: false }
    );
}

#[test]
fn few_carbons_and_carbon_planet_generates() {
    let mut ex = Explorer::new(0, 4);
    ex.explorer_ai_begin();
    step(&mut ex, planet(PlanetReply::SupportedResources(vec![BasicKind::Oxygen, BasicKind::Carbon])));
    step(&mut ex, planet(PlanetReply::SupportedCombinations(vec![ComplexKind::Diamond])));
    assert_eq!(step(&mut ex, Event::CarbonCount(1)), Action::GenerateCarbon);
    assert_eq!(step(&mut ex, planet(PlanetReply::GeneratedResource { produced: true })), Action::StoreGenerated);
    assert_eq!(step(&mut ex, Event::Done), Action::AskNeighbors { current_planet_id: 4 });
}

#[test]
fn generation_without_resource_goes_on() {
    let mut ex = Explorer::new(0, 4);
    ex.explorer_ai_begin();
    step(&mut ex, planet(PlanetReply::SupportedResources(vec![BasicKind::Carbon])));
    step(&mut ex, planet(PlanetReply::SupportedCombinations(vec![])));
    assert_eq!(step(&mut ex, Event::CarbonCount(0)), Action::GenerateCarbon);
    assert_eq!(
        step(&mut ex, planet(PlanetReply::GeneratedResource { produced: false })),
        Action::AskNeighbors { current_planet_id: 4 }
    );
}

#[test]
fn generation_without_answer_kills() {
    let mut ex = Explorer::new(0, 4);
    ex.explorer_ai_begin();
    step(&mut ex, planet(PlanetReply::SupportedResources(vec![BasicKind::Carbon])));
    step(&mut ex, planet(PlanetReply::SupportedCombinations(vec![])));
    step(&mut ex, Event::CarbonCount(0));
    assert_eq!(step(&mut ex, Event::Planet(None)), Action::Finish { outcome: AiReturn::Kill, diamond: false });
}

#[test]
fn no_carbon_planet_asks_neighbors() {
    let mut ex = Explorer::new(0, 4);
    ex.explorer_ai_begin();
    step(&mut ex, planet(PlanetReply::SupportedResources(vec![BasicKind::Silicon])));
    step(&mut ex, planet(PlanetReply::SupportedCombinations(vec![ComplexKind::Water])));
    assert_eq!(step(&mut ex, Event::CarbonCount(1)), Action::AskNeighbors { current_planet_id: 4 });
}

#[test]
fn enough_carbon_but_no_diamond_recipe_moves_on() {
    let mut ex = Explorer::new(0, 4);
    ex.explorer_ai_begin();
    step(&mut ex, planet(PlanetReply::SupportedResources(vec![BasicKind::Carbon])));
    step(&mut ex, planet(PlanetReply::SupportedCombinations(vec![ComplexKind::Water])));
    assert_eq!(step(&mut ex, Event::CarbonCount(5)), Action::AskNeighbors { current_planet_id: 4 });
}

fn ready_to_combine(ex: &mut Explorer) {
    ex.explorer_ai_begin();
    step(ex, planet(PlanetReply::SupportedResources(vec![])));
    step(ex, planet(PlanetReply::SupportedCombinations(vec![ComplexKind::Life, ComplexKind::Diamond])));
    assert_eq!(step(ex, Event::CarbonCount(2)), Action::TakeTwoCarbons);
}

#[test]
fn diamond_made_ends_run() {
    let mut ex = Explorer::new(0, 4);
    ready_to_combine(&mut ex);
    assert_eq!(step(&mut ex, Event::CarbonsTaken(TakeOutcome::Carbon, TakeOutcome::Carbon)), Action::RequestDiamond);
    assert_eq!(
        step(&mut ex, planet(PlanetReply::Combined { success: true })),
        Action::Finish { outcome: AiReturn::Kill, diamond: true }
    );
}

#[test]
fn diamond_refused_returns_resources() {
    let mut ex = Explorer::new(0, 4);
    ready_to_combine(&mut ex);
    step(&mut ex, Event::CarbonsTaken(TakeOutcome::Carbon, TakeOutcome::Carbon));
    assert_eq!(step(&mut ex, planet(PlanetReply::Combined { success: false })), Action::ReturnRefused);
    assert_eq!(step(&mut ex, Event::Done), Action::AskNeighbors { current_planet_id: 4 });
}

#[test]
fn diamond_answer_lost_moves_on() {
    let mut ex = Explorer::new(0, 4);
    ready_to_combine(&mut ex);
    step(&mut ex, Event::CarbonsTaken(TakeOutcome::Carbon, TakeOutcome::Carbon));
    assert_eq!(step(&mut ex, Event::Planet(None)), Action::AskNeighbors { current_planet_id: 4 });
    let mut ex = Explorer::new(0, 4);
    ready_to_combine(&mut ex);
    step(&mut ex, Event::CarbonsTaken(TakeOutcome::Carbon, TakeOutcome::Carbon));
    assert_eq!(step(&mut ex, planet(PlanetReply::Other)), Action::AskNeighbors { current_planet_id: 4 });
}

#[test]
fn partial_take_puts_carbon_back() {
    let cases = [
        (TakeOutcome::Carbon, TakeOutcome::Absent, true, false),
        (TakeOutcome::Absent, TakeOutcome::Carbon, false, true),
        (TakeOutcome::Absent, TakeOutcome::Absent, false, false),
        (TakeOutcome::Carbon, TakeOutcome::Unexpected, false, false),
        (TakeOutcome::Unexpected, TakeOutcome::Carbon, false, false),
    ];
    for (a, b, first, second) in cases {
        let mut ex = Explorer::new(0, 4);
        ready_to_combine(&mut ex);
        assert_eq!(step(&mut ex, Event::CarbonsTaken(a, b)), Action::PutBack { first, second });
        assert_eq!(step(&mut ex, Event::Done), Action::AskNeighbors { current_planet_id: 4 });
    }
}

#[test]
fn no_neighbors_kills() {
    let mut ex = Explorer::new(0, 4);
    ex.explorer_ai_begin();
    barren_round(&mut ex);
    assert_eq!(
        step(&mut ex, orchestrator(OrchestratorReply::Neighbors(vec![]))),
        Action::Finish { outcome: AiReturn::Kill, diamond: false }
    );
}

#[test]
fn orchestrator_interruptions_end_run() {
    let expected = [
        (OrchestratorReply::StopAi, AiReturn::Stop),
        (OrchestratorReply::ResetAi, AiReturn::Reset),
        (OrchestratorReply::KillExplorer, AiReturn::Kill),
        (OrchestratorReply::Other, AiReturn::Kill),
        (OrchestratorReply::MoveToPlanet { reachable: true, planet_id: 2 }, AiReturn::Kill),
    ];
    for (reply, outcome) in expected {
        let mut ex = Explorer::new(0, 4);
        ex.explorer_ai_begin();
        barren_round(&mut ex);
        assert_eq!(step(&mut ex, orchestrator(reply)), Action::Finish { outcome, diamond: false });
    }
    let mut ex = Explorer::new(0, 4);
    ex.explorer_ai_begin();
    barren_round(&mut ex);
    assert_eq!(step(&mut ex, Event::Orchestrator(None)), Action::Finish { outcome: AiReturn::Kill, diamond: false });
}

#[test]
fn travel_goes_to_first_unvisited_neighbor() {
    let mut ex = Explorer::new(0, 1);
    ex.explorer_ai_begin();
    barren_round(&mut ex);
    assert_eq!(
        step(&mut ex, orchestrator(OrchestratorReply::Neighbors(vec![1, 5, 6]))),
        Action::TravelTo { current_planet_id: 1, dst_planet_id: 5 }
    );
    assert_eq!(arrive(&mut ex, 5), Action::AskSupportedResources);
    assert_eq!(ex.get_planet_id(), 5);
}

#[test]
fn travel_interruptions_end_run() {
    let expected = [
        (OrchestratorReply::StopAi, AiReturn::Stop),
        (OrchestratorReply::ResetAi, AiReturn::Reset),
        (OrchestratorReply::KillExplorer, AiReturn::Kill),
        (OrchestratorReply::Neighbors(vec![3]), AiReturn::Kill),
    ];
    for (reply, outcome) in expected {
        let mut ex = Explorer::new(0, 1);
        ex.explorer_ai_begin();
        barren_round(&mut ex);
        step(&mut ex, orchestrator(OrchestratorReply::Neighbors(vec![2])));
        assert_eq!(step(&mut ex, orchestrator(reply)), Action::Finish { outcome, diamond: false });
        assert_eq!(ex.get_planet_id(), 1);
    }
}

#[test]
fn unreported_arrival_kills_on_new_planet() {
    let mut ex = Explorer::new(0, 1);
    ex.explorer_ai_begin();
    barren_round(&mut ex);
    step(&mut ex, orchestrator(OrchestratorReply::Neighbors(vec![2])));
    step(&mut ex, orchestrator(OrchestratorReply::MoveToPlanet { reachable: true, planet_id: 2 }));
    assert_eq!(step(&mut ex, Event::Sent(false)), Action::Finish { outcome: AiReturn::Kill, diamond: false });
    assert_eq!(ex.get_planet_id(), 2);
}

#[test]
fn dead_planet_is_skipped_next_round() {
    let mut ex = Explorer::new(0, 1);
    ex.explorer_ai_begin();
    barren_round(&mut ex);
    step(&mut ex, orchestrator(OrchestratorReply::Neighbors(vec![2])));
    assert_eq!(
        step(&mut ex, orchestrator(OrchestratorReply::MoveToPlanet { reachable: false, planet_id: 2 })),
        Action::AskSupportedResources
    );
    assert_eq!(ex.get_planet_id(), 1);
    barren_round(&mut ex);
    // with the only neighbour visited and no way back, everything is explored anew
    assert_eq!(step(&mut ex, orchestrator(OrchestratorReply::Neighbors(vec![1]))), Action::AskSupportedResources);
}

#[test]
fn backtracks_along_the_way_it_came() {
    let mut ex = Explorer::new(0, 1);
    ex.explorer_ai_begin();
    barren_round(&mut ex);
    step(&mut ex, orchestrator(OrchestratorReply::Neighbors(vec![2])));
    arrive(&mut ex, 2);
    barren_round(&mut ex);
    step(&mut ex, orchestrator(OrchestratorReply::Neighbors(vec![1, 3])));
    arrive(&mut ex, 3);
    barren_round(&mut ex);
    // every neighbour of 3 was visited: go back to 2, then to 1
    assert_eq!(
        step(&mut ex, orchestrator(OrchestratorReply::Neighbors(vec![2]))),
        Action::TravelTo { current_planet_id: 3, dst_planet_id: 2 }
    );
    arrive(&mut ex, 2);
    barren_round(&mut ex);
    assert_eq!(
        step(&mut ex, orchestrator(OrchestratorReply::Neighbors(vec![1, 3]))),
        Action::TravelTo { current_planet_id: 2, dst_planet_id: 1 }
    );
    arrive(&mut ex, 1);
    barren_round(&mut ex);
    // the way back is empty: everything is forgotten and 2 is new again
    assert_eq!(step(&mut ex, orchestrator(OrchestratorReply::Neighbors(vec![2]))), Action::AskSupportedResources);
    barren_round(&mut ex);
    assert_eq!(
        step(&mut ex, orchestrator(OrchestratorReply::Neighbors(vec![2]))),
        Action::TravelTo { current_planet_id: 1, dst_planet_id: 2 }
    );
}

#[test]
fn refused_backtrack_forgets_everything() {
    let mut ex = Explorer::new(0, 1);
    ex.explorer_ai_begin();
    barren_round(&mut ex);
    step(&mut ex, orchestrator(OrchestratorReply::Neighbors(vec![2])));
    arrive(&mut ex, 2);
    barren_round(&mut ex);
    assert_eq!(
        step(&mut ex, orchestrator(OrchestratorReply::Neighbors(vec![1]))),
        Action::TravelTo { current_planet_id: 2, dst_planet_id: 1 }
    );
    assert_eq!(
        step(&mut ex, orchestrator(OrchestratorReply::MoveToPlanet { reachable: false, planet_id: 1 })),
        Action::AskSupportedResources
    );
    barren_round(&mut ex);
    // planet 1 was forgotten, so it is a new planet again
    assert_eq!(
        step(&mut ex, orchestrator(OrchestratorReply::Neighbors(vec![1]))),
        Action::TravelTo { current_planet_id: 2, dst_planet_id: 1 }
    );
}

#[test]
fn reset_forgets_visited_planets_and_way_back() {
    let mut ex = Explorer::new(0, 1);
    ex.explorer_ai_begin();
    barren_round(&mut ex);
    step(&mut ex, orchestrator(OrchestratorReply::Neighbors(vec![2])));
    arrive(&mut ex, 2);
    barren_round(&mut ex);
    assert_eq!(
        step(&mut ex, orchestrator(OrchestratorReply::Neighbors(vec![3]))),
        Action::TravelTo { current_planet_id: 2, dst_planet_id: 3 }
    );
    step(&mut ex, orchestrator(OrchestratorReply::StopAi));
    ex.reset();
    assert_eq!(ex.get_planet_id(), 2);
    ex.explorer_ai_begin();
    barren_round(&mut ex);
    // only planet 2 is visited now, and there is no way back
    assert_eq!(
        step(&mut ex, orchestrator(OrchestratorReply::Neighbors(vec![2, 1]))),
        Action::TravelTo { current_planet_id: 2, dst_planet_id: 1 }
    );
    let mut ex2 = Explorer::new(0, 2);
    ex2.explorer_ai_begin();
    barren_round(&mut ex2);
    assert_eq!(step(&mut ex2, orchestrator(OrchestratorReply::Neighbors(vec![2]))), Action::AskSupportedResources);
}

#[test]
fn find_unvisited_picks_first_new() {
    let mut visited = HashSet::new();
    visited.insert(1u32);
    visited.insert(3u32);
    assert_eq!(find_unvisited(&vec![1, 3, 4, 5], &visited), Some(4));
    assert_eq!(find_unvisited(&vec![1, 3], &visited), None);
    assert_eq!(find_unvisited(&vec![], &visited), None);
}

#[test]
fn lists_kinds() {
    assert!(lists_basic(&vec![BasicKind::Oxygen, BasicKind::Carbon], BasicKind::Carbon));
    assert!(!lists_basic(&vec![BasicKind::Oxygen], BasicKind::Carbon));
    assert!(lists_complex(&vec![ComplexKind::Diamond], ComplexKind::Diamond));
    assert!(!lists_complex(&vec![], ComplexKind::Diamond));
}

#[test]
fn current_planet_counts_as_visited() {
    let mut ex = Explorer::new(11, 1);
    ex.set_auto_mode(true);
    ex.explorer_ai_begin();
    barren_round(&mut ex);
    assert_eq!(step(&mut ex, orchestrator(OrchestratorReply::Neighbors(vec![1]))), Action::AskSupportedResources);
    barren_round(&mut ex);
    assert_eq!(
        step(&mut ex, orchestrator(OrchestratorReply::Neighbors(vec![1, 8]))),
        Action::TravelTo { current_planet_id: 1, dst_planet_id: 8 }
    );
    assert_eq!(ex.get_id(), 11);
    assert!(ex.get_auto_mode());
}
