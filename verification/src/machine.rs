use vstd::prelude::*;

use std::collections::HashSet;

use crate::kinds::{lists_basic, lists_complex, AiReturn, BasicKind, ComplexKind, TakeOutcome};
use crate::messages::{
    generate_resource_response, generated_of, neighbors_of, neighbors_response,
    supported_combination_response, supported_combinations_of, supported_resource_response,
    supported_resources_of, travel_of, travel_to_planet_response, OrchestratorReply, PlanetReply,
    TravelReply,
};

verus! {

broadcast use vstd::std_specs::hash::group_hash_axioms;

/// Where a run of the AI stands: which answer it waits for.
#[derive(Clone, Copy, PartialEq, Eq, Structural, Debug)]
pub enum Phase {
    /// No run is under way.
    Idle,
    /// Waits for the planet's supported basic resources.
    AwaitResources,
    /// Waits for the planet's supported combinations; knows whether the planet generates carbon.
    AwaitCombinations { carbon_supported: bool },
    /// Waits for the number of carbons in the bag.
    AwaitCarbonCount { carbon_supported: bool, diamond_supported: bool },
    /// Waits for two carbons to be taken out of the bag.
    AwaitTaken,
    /// Waits for the planet's answer to the request to combine a diamond.
    AwaitDiamond,
    /// Waits for the planet's answer to the request to generate carbon.
    AwaitGenerated,
    /// Waits for the bag to be updated.
    AwaitBagUpdate,
    /// Waits for the neighbouring planets.
    AwaitNeighbors,
    /// Waits for the answer to a travel request made from planet `from`,
    /// going back along the way it came when `backtracking`.
    AwaitTravel { backtracking: bool, from: u32 },
    /// Waits to learn whether the arrival on the new planet was reported.
    AwaitConfirm { backtracking: bool, from: u32 },
}

/// What came of the last action.
pub enum Event {
    /// The planet's answer; `None` when the request or the answer could not be passed on.
    Planet(Option<PlanetReply>),
    /// The orchestrator's answer; `None` when the request or the answer could not be passed on.
    Orchestrator(Option<OrchestratorReply>),
    /// The number of carbons in the bag.
    CarbonCount(usize),
    /// What came of taking a first and a second carbon out of the bag.
    CarbonsTaken(TakeOutcome, TakeOutcome),
    /// Whether the report of the arrival on a new planet was sent.
    Sent(bool),
    /// The bag was updated.
    Done,
}

/// What the explorer does next.
#[derive(Clone, Copy, PartialEq, Eq, Structural, Debug)]
pub enum Action {
    /// Ask the planet which basic resources it generates.
    AskSupportedResources,
    /// Ask the planet which complex resources it combines.
    AskSupportedCombinations,
    /// Count the carbons in the bag.
    CountCarbon,
    /// Ask the planet to generate a carbon.
    GenerateCarbon,
    /// Put the resource that the planet generated into the bag.
    StoreGenerated,
    /// Take two carbons out of the bag.
    TakeTwoCarbons,
    /// Ask the planet to combine the two carbons taken into a diamond.
    RequestDiamond,
    /// Put the first and/or the second carbon taken back into the bag, and
    /// drop whatever else was taken.
    PutBack { first: bool, second: bool },
    /// Put the two resources that the planet gave back into the bag.
    ReturnRefused,
    /// Ask the orchestrator for the neighbours of planet `current_planet_id`.
    AskNeighbors { current_planet_id: u32 },
    /// Ask the orchestrator to travel from one planet to another.
    TravelTo { current_planet_id: u32, dst_planet_id: u32 },
    /// Take the channel to the new planet and report the arrival on it.
    ConfirmMove { planet_id: u32 },
    /// End the run with this outcome; `diamond` tells whether a diamond was made.
    Finish { outcome: AiReturn, diamond: bool },
}

/// The explorer as the contracts see it.
#[verifier::ext_equal]
pub struct ExplorerView {
    pub id: u32,
    pub planet_id: u32,
    pub auto_mode: bool,
    pub visited: Set<u32>,
    pub planet_stack: Seq<u32>,
    pub phase: Phase,
}

/// The explorer's own state: who it is, where it is, the planets it has seen
/// and the way back to where it came from.
pub struct Explorer {
    id: u32,
    planet_id: u32,
    auto_mode: bool,
    visited: HashSet<u32>,
    planet_stack: Vec<u32>,
    phase: Phase,
}

impl View for Explorer {
    type V = ExplorerView;

    closed spec fn view(&self) -> ExplorerView {
        ExplorerView {
            id: self.id,
            planet_id: self.planet_id,
            auto_mode: self.auto_mode,
            visited: self.visited@,
            planet_stack: self.planet_stack@,
            phase: self.phase,
        }
    }
}

/// The first of `ids` that is not in `visited`.
pub open spec fn first_unvisited(ids: Seq<u32>, visited: Set<u32>) -> Option<u32>
    decreases ids.len(),
{
    if ids.len() == 0 {
        None
    } else if !visited.contains(ids[0]) {
        Some(ids[0])
    } else {
        first_unvisited(ids.drop_first(), visited)
    }
}

/// Whether a machine in `phase` waits for an event of the kind of `e`.
pub open spec fn awaits(phase: Phase, e: Event) -> bool {
    match phase {
        Phase::Idle => false,
        Phase::AwaitResources | Phase::AwaitCombinations { .. } | Phase::AwaitDiamond
        | Phase::AwaitGenerated => e is Planet,
        Phase::AwaitCarbonCount { .. } => e is CarbonCount,
        Phase::AwaitTaken => e is CarbonsTaken,
        Phase::AwaitBagUpdate => e is Done,
        Phase::AwaitNeighbors | Phase::AwaitTravel { .. } => e is Orchestrator,
        Phase::AwaitConfirm { .. } => e is Sent,
    }
}

/// A round of the AI begins: the current planet counts as visited, and the
/// planet is asked which basic resources it generates.
pub open spec fn start_round(s: ExplorerView) -> (ExplorerView, Action) {
    (
        ExplorerView { visited: s.visited.insert(s.planet_id), phase: Phase::AwaitResources, ..s },
        Action::AskSupportedResources,
    )
}

/// The run ends.
pub open spec fn finish(s: ExplorerView, outcome: AiReturn, diamond: bool) -> (ExplorerView, Action) {
    (ExplorerView { phase: Phase::Idle, ..s }, Action::Finish { outcome, diamond })
}

/// The orchestrator is asked for the neighbours of the current planet.
pub open spec fn ask_neighbors(s: ExplorerView) -> (ExplorerView, Action) {
    (
        ExplorerView { phase: Phase::AwaitNeighbors, ..s },
        Action::AskNeighbors { current_planet_id: s.planet_id },
    )
}

/// The move to make, knowing the neighbours `ids`: none at all ends the run;
/// else the first one not yet visited; else back along the way the explorer
/// came; and where there is no way back, everything is forgotten and the
/// galaxy explored anew.
pub open spec fn explore(s: ExplorerView, ids: Seq<u32>) -> (ExplorerView, Action) {
    if ids.len() == 0 {
        finish(s, AiReturn::Kill, false)
    } else {
        match first_unvisited(ids, s.visited) {
            Some(dst) => (
                ExplorerView { phase: Phase::AwaitTravel { backtracking: false, from: s.planet_id }, ..s },
                Action::TravelTo { current_planet_id: s.planet_id, dst_planet_id: dst },
            ),
            None => if s.planet_stack.len() == 0 {
                start_round(ExplorerView { visited: Set::empty(), ..s })
            } else {
                (
                    ExplorerView {
                        planet_stack: s.planet_stack.drop_last(),
                        phase: Phase::AwaitTravel { backtracking: true, from: s.planet_id },
                        ..s
                    },
                    Action::TravelTo {
                        current_planet_id: s.planet_id,
                        dst_planet_id: s.planet_stack.last(),
                    },
                )
            },
        }
    }
}

/// After a travel request made from `from`: a forward move remembers where
/// it came from; a failed move back forgets everything; then a new round.
pub open spec fn after_travel(s: ExplorerView, backtracking: bool, from: u32, moved: bool) -> (ExplorerView, Action) {
    if !backtracking {
        if moved {
            start_round(ExplorerView { planet_stack: s.planet_stack.push(from), ..s })
        } else {
            start_round(s)
        }
    } else {
        if moved {
            start_round(s)
        } else {
            start_round(ExplorerView { visited: Set::empty(), planet_stack: Seq::empty(), ..s })
        }
    }
}

/// One step of the AI: the state that follows `s` on event `e`, and the
/// action to perform. An event that `s` does not await ends the run.
pub open spec fn transition(s: ExplorerView, e: Event) -> (ExplorerView, Action) {
    match s.phase {
        Phase::AwaitResources => match e {
            Event::Planet(reply) => match supported_resources_of(reply) {
                Ok(kinds) => (
                    ExplorerView {
                        phase: Phase::AwaitCombinations { carbon_supported: kinds.contains(BasicKind::Carbon) },
                        ..s
                    },
                    Action::AskSupportedCombinations,
                ),
                Err(r) => finish(s, r, false),
            },
            _ => finish(s, AiReturn::Kill, false),
        },
        Phase::AwaitCombinations { carbon_supported } => match e {
            Event::Planet(reply) => match supported_combinations_of(reply) {
                Ok(kinds) => (
                    ExplorerView {
                        phase: Phase::AwaitCarbonCount {
                            carbon_supported,
                            diamond_supported: kinds.contains(ComplexKind::Diamond),
                        },
                        ..s
                    },
                    Action::CountCarbon,
                ),
                Err(r) => finish(s, r, false),
            },
            _ => finish(s, AiReturn::Kill, false),
        },
        Phase::AwaitCarbonCount { carbon_supported, diamond_supported } => match e {
            Event::CarbonCount(n) => if n >= 2 {
                if diamond_supported {
                    (ExplorerView { phase: Phase::AwaitTaken, ..s }, Action::TakeTwoCarbons)
                } else {
                    ask_neighbors(s)
                }
            } else {
                if carbon_supported {
                    (ExplorerView { phase: Phase::AwaitGenerated, ..s }, Action::GenerateCarbon)
                } else {
                    ask_neighbors(s)
                }
            },
            _ => finish(s, AiReturn::Kill, false),
        },
        Phase::AwaitTaken => match e {
            Event::CarbonsTaken(a, b) => if a == TakeOutcome::Carbon && b == TakeOutcome::Carbon {
                (ExplorerView { phase: Phase::AwaitDiamond, ..s }, Action::RequestDiamond)
            } else {
                (
                    ExplorerView { phase: Phase::AwaitBagUpdate, ..s },
                    Action::PutBack {
                        first: a == TakeOutcome::Carbon && b == TakeOutcome::Absent,
                        second: a == TakeOutcome::Absent && b == TakeOutcome::Carbon,
                    },
                )
            },
            _ => finish(s, AiReturn::Kill, false),
        },
        Phase::AwaitDiamond => match e {
            Event::Planet(Some(PlanetReply::Combined { success })) => if success {
                finish(s, AiReturn::Kill, true)
            } else {
                (ExplorerView { phase: Phase::AwaitBagUpdate, ..s }, Action::ReturnRefused)
            },
            Event::Planet(_) => ask_neighbors(s),
            _ => finish(s, AiReturn::Kill, false),
        },
        Phase::AwaitGenerated => match e {
            Event::Planet(reply) => match generated_of(reply) {
                Ok(produced) => if produced {
                    (ExplorerView { phase: Phase::AwaitBagUpdate, ..s }, Action::StoreGenerated)
                } else {
                    ask_neighbors(s)
                },
                Err(r) => finish(s, r, false),
            },
            _ => finish(s, AiReturn::Kill, false),
        },
        Phase::AwaitBagUpdate => match e {
            Event::Done => ask_neighbors(s),
            _ => finish(s, AiReturn::Kill, false),
        },
        Phase::AwaitNeighbors => match e {
            Event::Orchestrator(reply) => match neighbors_of(reply) {
                Ok(ids) => explore(s, ids),
                Err(r) => finish(s, r, false),
            },
            _ => finish(s, AiReturn::Kill, false),
        },
        Phase::AwaitTravel { backtracking, from } => match e {
            Event::Orchestrator(reply) => match travel_of(reply) {
                TravelReply::Granted(p) => (
                    ExplorerView { planet_id: p, phase: Phase::AwaitConfirm { backtracking, from }, ..s },
                    Action::ConfirmMove { planet_id: p },
                ),
                TravelReply::Denied => after_travel(s, backtracking, from, false),
                TravelReply::Aborted(r) => finish(s, r, false),
            },
            _ => finish(s, AiReturn::Kill, false),
        },
        Phase::AwaitConfirm { backtracking, from } => match e {
            Event::Sent(sent) => if sent {
                after_travel(s, backtracking, from, true)
            } else {
                finish(s, AiReturn::Kill, false)
            },
            _ => finish(s, AiReturn::Kill, false),
        },
        Phase::Idle => finish(s, AiReturn::Kill, false),
    }
}

/// The first of `ids` that is not in `visited`, if there is one.
pub fn find_unvisited(ids: &Vec<u32>, visited: &HashSet<u32>) -> (found: Option<u32>)
    ensures
        found == first_unvisited(ids@, visited@),
{
    let mut i: usize = 0;
    assert(ids@.skip(0) =~= ids@);
    while i < ids.len()
        invariant
            i <= ids.len(),
            first_unvisited(ids@, visited@) == first_unvisited(ids@.skip(i as int), visited@),
        decreases ids.len() - i,
    {
        let id = ids[i];
        assert(ids@.skip(i as int)[0] == id);
        if !visited.contains(&id) {
            return Some(id);
        }
        assert(ids@.skip(i as int).drop_first() =~= ids@.skip(i + 1));
        i = i + 1;
    }
    assert(ids@.skip(i as int).len() == 0);
    None
}

impl Explorer {
    /// An explorer with this id on this planet: not in automatic mode, with
    /// nothing visited, no way back, and no run under way.
    pub fn new(id: u32, planet_id: u32) -> (explorer: Self)
        ensures
            explorer@ == (ExplorerView {
                id,
                planet_id,
                auto_mode: false,
                visited: Set::empty(),
                planet_stack: Seq::empty(),
                phase: Phase::Idle,
            }),
    {
        Explorer {
            id,
            planet_id,
            auto_mode: false,
            visited: HashSet::new(),
            planet_stack: Vec::new(),
            phase: Phase::Idle,
        }
    }

    /// The explorer's id.
    pub fn get_id(&self) -> (id: u32)
        ensures
            id == self@.id,
    {
        self.id
    }

    /// The planet the explorer is on.
    pub fn get_planet_id(&self) -> (planet_id: u32)
        ensures
            planet_id == self@.planet_id,
    {
        self.planet_id
    }

    /// Puts the explorer on planet `new`; nothing else changes.
    pub fn set_planet_id(&mut self, new: u32)
        ensures
            final(self)@ == (ExplorerView { planet_id: new, ..old(self)@ }),
    {
        self.planet_id = new;
    }

    /// Whether the explorer is in automatic mode.
    pub fn get_auto_mode(&self) -> (mode: bool)
        ensures
            mode == self@.auto_mode,
    {
        self.auto_mode
    }

    /// Sets the automatic mode; nothing else changes.
    pub fn set_auto_mode(&mut self, mode: bool)
        ensures
            final(self)@ == (ExplorerView { auto_mode: mode, ..old(self)@ }),
    {
        self.auto_mode = mode;
    }

    /// Forgets the planets visited and the way back; nothing else changes.
    pub fn reset(&mut self)
        ensures
            final(self)@ == (ExplorerView { visited: Set::empty(), planet_stack: Seq::empty(), ..old(self)@ }),
    {
        self.planet_stack.clear();
        self.visited.clear();
    }

    fn start_round(&mut self) -> (action: Action)
        ensures
            (final(self)@, action) == start_round(old(self)@),
    {
        self.visited.insert(self.planet_id);
        self.phase = Phase::AwaitResources;
        Action::AskSupportedResources
    }

    fn finish(&mut self, outcome: AiReturn, diamond: bool) -> (action: Action)
        ensures
            (final(self)@, action) == finish(old(self)@, outcome, diamond),
    {
        self.phase = Phase::Idle;
        Action::Finish { outcome, diamond }
    }

    fn ask_neighbors(&mut self) -> (action: Action)
        ensures
            (final(self)@, action) == ask_neighbors(old(self)@),
    {
        self.phase = Phase::AwaitNeighbors;
        Action::AskNeighbors { current_planet_id: self.planet_id }
    }

    fn explore(&mut self, ids: Vec<u32>) -> (action: Action)
        ensures
            (final(self)@, action) == explore(old(self)@, ids@),
    {
        if ids.len() == 0 {
            return self.finish(AiReturn::Kill, false);
        }
        match find_unvisited(&ids, &self.visited) {
            Some(dst) => {
                let from = self.planet_id;
                self.phase = Phase::AwaitTravel { backtracking: false, from };
                Action::TravelTo { current_planet_id: from, dst_planet_id: dst }
            },
            None => {
                if self.planet_stack.len() == 0 {
                    self.visited.clear();
                    self.start_round()
                } else {
                    let dst = self.planet_stack.pop().unwrap();
                    let from = self.planet_id;
                    self.phase = Phase::AwaitTravel { backtracking: true, from };
                    Action::TravelTo { current_planet_id: from, dst_planet_id: dst }
                }
            },
        }
    }

    fn after_travel(&mut self, backtracking: bool, from: u32, moved: bool) -> (action: Action)
        ensures
            (final(self)@, action) == after_travel(old(self)@, backtracking, from, moved),
    {
        if !backtracking {
            if moved {
                self.planet_stack.push(from);
            }
        } else {
            if !moved {
                self.visited.clear();
                self.planet_stack.clear();
            }
        }
        self.start_round()
    }

    /// Begins a run of the AI: the first round starts.
    pub fn explorer_ai_begin(&mut self) -> (action: Action)
        ensures
            (final(self)@, action) == start_round(old(self)@),
    {
        self.start_round()
    }

    /// Whether the explorer waits for an event of the kind of `e`.
    pub fn awaits_event(&self, e: &Event) -> (b: bool)
        ensures
            b == awaits(self@.phase, *e),
    {
        match self.phase {
            Phase::Idle => false,
            Phase::AwaitResources | Phase::AwaitCombinations { .. } | Phase::AwaitDiamond
            | Phase::AwaitGenerated => matches!(e, Event::Planet(_)),
            Phase::AwaitCarbonCount { .. } => matches!(e, Event::CarbonCount(_)),
            Phase::AwaitTaken => matches!(e, Event::CarbonsTaken(_, _)),
            Phase::AwaitBagUpdate => matches!(e, Event::Done),
            Phase::AwaitNeighbors | Phase::AwaitTravel { .. } => matches!(e, Event::Orchestrator(_)),
            Phase::AwaitConfirm { .. } => matches!(e, Event::Sent(_)),
        }
    }

    /// One step of the AI: takes what came of the last action and returns the
    /// next one.
    pub fn explorer_ai_step(&mut self, event: Event) -> (action: Action)
        requires
            awaits(old(self)@.phase, event),
        ensures
            (final(self)@, action) == transition(old(self)@, event),
    {
        match self.phase {
            Phase::AwaitResources => match event {
                Event::Planet(reply) => match supported_resource_response(reply) {
                    Ok(kinds) => {
                        let carbon_supported = lists_basic(&kinds, BasicKind::Carbon);
                        self.phase = Phase::AwaitCombinations { carbon_supported };
                        Action::AskSupportedCombinations
                    },
                    Err(r) => self.finish(r, false),
                },
                _ => self.finish(AiReturn::Kill, false),
            },
            Phase::AwaitCombinations { carbon_supported } => match event {
                Event::Planet(reply) => match supported_combination_response(reply) {
                    Ok(kinds) => {
                        let diamond_supported = lists_complex(&kinds, ComplexKind::Diamond);
                        self.phase = Phase::AwaitCarbonCount { carbon_supported, diamond_supported };
                        Action::CountCarbon
                    },
                    Err(r) => self.finish(r, false),
                },
                _ => self.finish(AiReturn::Kill, false),
            },
            Phase::AwaitCarbonCount { carbon_supported, diamond_supported } => match event {
                Event::CarbonCount(n) => {
                    if n >= 2 {
                        if diamond_supported {
                            self.phase = Phase::AwaitTaken;
                            Action::TakeTwoCarbons
                        } else {
                            self.ask_neighbors()
                        }
                    } else {
                        if carbon_supported {
                            self.phase = Phase::AwaitGenerated;
                            Action::GenerateCarbon
                        } else {
                            self.ask_neighbors()
                        }
                    }
                },
                _ => self.finish(AiReturn::Kill, false),
            },
            Phase::AwaitTaken => match event {
                Event::CarbonsTaken(a, b) => {
                    if a == TakeOutcome::Carbon && b == TakeOutcome::Carbon {
                        self.phase = Phase::AwaitDiamond;
                        Action::RequestDiamond
                    } else {
                        self.phase = Phase::AwaitBagUpdate;
                        Action::PutBack {
                            first: a == TakeOutcome::Carbon && b == TakeOutcome::Absent,
                            second: a == TakeOutcome::Absent && b == TakeOutcome::Carbon,
                        }
                    }
                },
                _ => self.finish(AiReturn::Kill, false),
            },
            Phase::AwaitDiamond => match event {
                Event::Planet(Some(PlanetReply::Combined { success })) => {
                    if success {
                        self.finish(AiReturn::Kill, true)
                    } else {
                        self.phase = Phase::AwaitBagUpdate;
                        Action::ReturnRefused
                    }
                },
                Event::Planet(_) => self.ask_neighbors(),
                _ => self.finish(AiReturn::Kill, false),
            },
            Phase::AwaitGenerated => match event {
                Event::Planet(reply) => match generate_resource_response(&reply) {
                    Ok(produced) => {
                        if produced {
                            self.phase = Phase::AwaitBagUpdate;
                            Action::StoreGenerated
                        } else {
                            self.ask_neighbors()
                        }
                    },
                    Err(r) => self.finish(r, false),
                },
                _ => self.finish(AiReturn::Kill, false),
            },
            Phase::AwaitBagUpdate => match event {
                Event::Done => self.ask_neighbors(),
                _ => self.finish(AiReturn::Kill, false),
            },
            Phase::AwaitNeighbors => match event {
                Event::Orchestrator(reply) => match neighbors_response(reply) {
                    Ok(ids) => self.explore(ids),
                    Err(r) => self.finish(r, false),
                },
                _ => self.finish(AiReturn::Kill, false),
            },
            Phase::AwaitTravel { backtracking, from } => match event {
                Event::Orchestrator(reply) => match travel_to_planet_response(&reply) {
                    TravelReply::Granted(p) => {
                        self.planet_id = p;
                        self.phase = Phase::AwaitConfirm { backtracking, from };
                        Action::ConfirmMove { planet_id: p }
                    },
                    TravelReply::Denied => self.after_travel(backtracking, from, false),
                    TravelReply::Aborted(r) => self.finish(r, false),
                },
                _ => self.finish(AiReturn::Kill, false),
            },
            Phase::AwaitConfirm { backtracking, from } => match event {
                Event::Sent(sent) => {
                    if sent {
                        self.after_travel(backtracking, from, true)
                    } else {
                        self.finish(AiReturn::Kill, false)
                    }
                },
                _ => self.finish(AiReturn::Kill, false),
            },
            Phase::Idle => self.finish(AiReturn::Kill, false),
        }
    }
}

} // verus!
