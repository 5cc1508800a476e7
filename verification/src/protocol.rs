use vstd::prelude::*;

use crate::kinds::{AiReturn, BasicKind, ComplexKind};
use crate::machine::{awaits, start_round, transition, Action, Event, ExplorerView, Phase};
use crate::messages::{
    generated_of, neighbors_of, supported_combinations_of, supported_resources_of, travel_of,
    OrchestratorReply, PlanetReply, TravelReply,
};

verus! {

/// Each answer is read as what it carries: the lists sent, whether a
/// resource came, the neighbours sent, the planet granted.
pub proof fn lemma_answers_read_as_sent(
    basics: Vec<BasicKind>,
    complexes: Vec<ComplexKind>,
    ids: Vec<u32>,
    produced: bool,
    planet_id: u32,
)
    ensures
        supported_resources_of(Some(PlanetReply::SupportedResources(basics)))
            == Ok::<Seq<BasicKind>, AiReturn>(basics@),
        supported_combinations_of(Some(PlanetReply::SupportedCombinations(complexes)))
            == Ok::<Seq<ComplexKind>, AiReturn>(complexes@),
        generated_of(Some(PlanetReply::GeneratedResource { produced })) == Ok::<bool, AiReturn>(
            produced,
        ),
        neighbors_of(Some(OrchestratorReply::Neighbors(ids))) == Ok::<Seq<u32>, AiReturn>(ids@),
        travel_of(Some(OrchestratorReply::MoveToPlanet { reachable: true, planet_id }))
            == TravelReply::Granted(planet_id),
        travel_of(Some(OrchestratorReply::MoveToPlanet { reachable: false, planet_id }))
            == TravelReply::Denied,
{
}

/// Any other answer than the one awaited, or no answer, is read as the end
/// of the explorer; from the orchestrator, a stop or a reset is read as such.
pub proof fn lemma_other_answers(planet: Option<PlanetReply>, orchestrator: Option<OrchestratorReply>)
    ensures
        !(planet is Some && planet->0 is SupportedResources) ==> supported_resources_of(planet)
            == Err::<Seq<BasicKind>, AiReturn>(AiReturn::Kill),
        !(planet is Some && planet->0 is SupportedCombinations) ==> supported_combinations_of(planet)
            == Err::<Seq<ComplexKind>, AiReturn>(AiReturn::Kill),
        !(planet is Some && planet->0 is GeneratedResource) ==> generated_of(planet)
            == Err::<bool, AiReturn>(AiReturn::Kill),
        orchestrator == Some(OrchestratorReply::StopAi) ==> neighbors_of(orchestrator)
            == Err::<Seq<u32>, AiReturn>(AiReturn::Stop) && travel_of(orchestrator)
            == TravelReply::Aborted(AiReturn::Stop),
        orchestrator == Some(OrchestratorReply::ResetAi) ==> neighbors_of(orchestrator)
            == Err::<Seq<u32>, AiReturn>(AiReturn::Reset) && travel_of(orchestrator)
            == TravelReply::Aborted(AiReturn::Reset),
        !(orchestrator is Some && (orchestrator->0 is Neighbors || orchestrator->0 is StopAi
            || orchestrator->0 is ResetAi)) ==> neighbors_of(orchestrator) == Err::<Seq<u32>, AiReturn>(
            AiReturn::Kill,
        ),
        !(orchestrator is Some && (orchestrator->0 is MoveToPlanet || orchestrator->0 is StopAi
            || orchestrator->0 is ResetAi)) ==> travel_of(orchestrator) == TravelReply::Aborted(
            AiReturn::Kill,
        ),
{
}

/// A round begins by counting the planet the explorer is on as visited, and
/// nothing else: the planet, the way back and the other visited planets stay.
pub proof fn lemma_round_start(s: ExplorerView)
    ensures
        start_round(s).1 == Action::AskSupportedResources,
        start_round(s).0.phase == Phase::AwaitResources,
        start_round(s).0.visited == s.visited.insert(s.planet_id),
        start_round(s).0.planet_stack == s.planet_stack,
        start_round(s).0.planet_id == s.planet_id,
        start_round(s).0.id == s.id,
        start_round(s).0.auto_mode == s.auto_mode,
{
}

/// Every request the explorer makes names the planet it is on: the
/// neighbours asked for and the travel requested are those of its current
/// planet; a granted move puts it on the planet granted.
pub proof fn lemma_requests_name_current_planet(s: ExplorerView, e: Event)
    requires
        awaits(s.phase, e),
    ensures
        ({
            let (t, a) = transition(s, e);
            &&& a is AskNeighbors ==> a->AskNeighbors_current_planet_id == s.planet_id
                && t.planet_id == s.planet_id
            &&& a is TravelTo ==> a->TravelTo_current_planet_id == s.planet_id && t.planet_id
                == s.planet_id
            &&& a is ConfirmMove ==> t.planet_id == a->ConfirmMove_planet_id
            &&& !(a is ConfirmMove) ==> t.planet_id == s.planet_id
        }),
{
}

/// While the explorer deals with the planet it is on, nothing of its
/// wandering changes: the planet, the planets visited and the way back stay.
pub proof fn lemma_planet_work_keeps_wandering(s: ExplorerView, e: Event)
    requires
        awaits(s.phase, e),
        !(s.phase is AwaitNeighbors),
        !(s.phase is AwaitTravel),
        !(s.phase is AwaitConfirm),
    ensures
        transition(s, e).0.planet_id == s.planet_id,
        transition(s, e).0.visited == s.visited,
        transition(s, e).0.planet_stack == s.planet_stack,
{
}

/// What a round does on a planet, from its answers and the bag: with two
/// carbons or more, it takes two to combine a diamond exactly when the planet
/// lists the diamond among its combinations; with fewer, it asks for carbon
/// exactly when the planet lists carbon among its resources; otherwise it
/// asks for the neighbours of the planet it is on.
pub proof fn lemma_round_decision(
    s: ExplorerView,
    basics: Vec<BasicKind>,
    complexes: Vec<ComplexKind>,
    n: usize,
)
    requires
        s.phase is AwaitResources,
    ensures
        ({
            let (t1, a1) = transition(s, Event::Planet(Some(PlanetReply::SupportedResources(basics))));
            let (t2, a2) = transition(
                t1,
                Event::Planet(Some(PlanetReply::SupportedCombinations(complexes))),
            );
            let (t3, a3) = transition(t2, Event::CarbonCount(n));
            &&& a1 == Action::AskSupportedCombinations
            &&& a2 == Action::CountCarbon
            &&& n >= 2 ==> (a3 == Action::TakeTwoCarbons <==> complexes@.contains(ComplexKind::Diamond))
            &&& n >= 2 ==> a3 != Action::GenerateCarbon
            &&& n < 2 ==> (a3 == Action::GenerateCarbon <==> basics@.contains(BasicKind::Carbon))
            &&& n < 2 ==> a3 != Action::TakeTwoCarbons
            &&& (a3 == Action::TakeTwoCarbons || a3 == Action::GenerateCarbon || a3
                == (Action::AskNeighbors { current_planet_id: s.planet_id }))
            &&& t3.planet_id == s.planet_id && t3.visited == s.visited && t3.planet_stack
                == s.planet_stack
        }),
{
}

/// What comes of asking for carbon: a carbon that came is stored, and then
/// (as when none came) the neighbours are asked for; no answer ends the run.
pub proof fn lemma_carbon_generation(s: ExplorerView, produced: bool)
    requires
        s.phase is AwaitGenerated,
    ensures
        ({
            let (t, a) = transition(s, Event::Planet(Some(PlanetReply::GeneratedResource { produced })));
            &&& produced ==> a == Action::StoreGenerated && transition(t, Event::Done).1
                == (Action::AskNeighbors { current_planet_id: s.planet_id })
            &&& !produced ==> a == (Action::AskNeighbors { current_planet_id: s.planet_id })
        }),
        transition(s, Event::Planet(None)).1 == (Action::Finish { outcome: AiReturn::Kill, diamond: false }),
{
}

/// What comes of asking for a diamond: made, the run ends with it; refused,
/// the two resources given back return to the bag and the neighbours are
/// asked for; with any other answer or none, the neighbours are asked for.
pub proof fn lemma_diamond_request(s: ExplorerView, reply: Option<PlanetReply>)
    requires
        s.phase is AwaitDiamond,
    ensures
        ({
            let (t, a) = transition(s, Event::Planet(reply));
            if reply == Some(PlanetReply::Combined { success: true }) {
                a == (Action::Finish { outcome: AiReturn::Kill, diamond: true })
            } else if reply == Some(PlanetReply::Combined { success: false }) {
                &&& a == Action::ReturnRefused
                &&& transition(t, Event::Done).1 == (Action::AskNeighbors { current_planet_id: s.planet_id })
            } else {
                a == (Action::AskNeighbors { current_planet_id: s.planet_id })
            }
        }),
{
}

/// A move whose arrival cannot be reported ends the run, on the new planet.
pub proof fn lemma_unreported_arrival(s: ExplorerView)
    requires
        s.phase is AwaitConfirm,
    ensures
        transition(s, Event::Sent(false)).1 == (Action::Finish { outcome: AiReturn::Kill, diamond: false }),
        transition(s, Event::Sent(false)).0.planet_id == s.planet_id,
{
}

/// A refused move forward (the planet is dead) only starts a new round where
/// the explorer is: the planets visited and the way back are kept.
pub proof fn lemma_refused_forward_move(s: ExplorerView, from: u32, planet_id: u32)
    requires
        s.phase == (Phase::AwaitTravel { backtracking: false, from }),
    ensures
        ({
            let (t, a) = transition(
                s,
                Event::Orchestrator(Some(OrchestratorReply::MoveToPlanet { reachable: false, planet_id })),
            );
            &&& a == Action::AskSupportedResources
            &&& t.visited == s.visited.insert(s.planet_id)
            &&& t.planet_stack == s.planet_stack
            &&& t.planet_id == s.planet_id
        }),
{
}

/// A refused move back cuts the way back: the way back is emptied and the
/// planets visited are forgotten, but for the one the explorer is on.
pub proof fn lemma_refused_move_back(s: ExplorerView, from: u32, planet_id: u32)
    requires
        s.phase == (Phase::AwaitTravel { backtracking: true, from }),
    ensures
        ({
            let (t, a) = transition(
                s,
                Event::Orchestrator(Some(OrchestratorReply::MoveToPlanet { reachable: false, planet_id })),
            );
            &&& a == Action::AskSupportedResources
            &&& t.planet_stack == Seq::<u32>::empty()
            &&& t.visited == Set::<u32>::empty().insert(s.planet_id)
            &&& t.planet_id == s.planet_id
        }),
{
}

/// A move forward, granted and reported, puts the explorer on the planet
/// granted, with the planet it left on top of the way back and the new planet
/// visited.
pub proof fn lemma_forward_move(s: ExplorerView, ids: Vec<u32>, p: u32)
    requires
        s.phase is AwaitNeighbors,
        exists|i: int| 0 <= i < ids@.len() && !s.visited.contains(#[trigger] ids@[i]),
    ensures
        ({
            let (t1, a1) = transition(s, Event::Orchestrator(Some(OrchestratorReply::Neighbors(ids))));
            let (t2, a2) = transition(
                t1,
                Event::Orchestrator(Some(OrchestratorReply::MoveToPlanet { reachable: true, planet_id: p })),
            );
            let (t3, a3) = transition(t2, Event::Sent(true));
            &&& a1 is TravelTo && !s.visited.contains(a1->TravelTo_dst_planet_id)
                && ids@.contains(a1->TravelTo_dst_planet_id)
            &&& a2 == Action::ConfirmMove { planet_id: p }
            &&& a3 == Action::AskSupportedResources
            &&& t3.planet_id == p
            &&& t3.planet_stack == s.planet_stack.push(s.planet_id)
            &&& t3.visited == s.visited.insert(p)
        }),
{
    crate::laws::lemma_forward_to_first_unvisited(s, ids);
}

/// A move back, granted and reported, puts the explorer on the planet
/// granted, takes the top off the way back, and forgets nothing.
pub proof fn lemma_move_back(s: ExplorerView, ids: Vec<u32>, p: u32)
    requires
        s.phase is AwaitNeighbors,
        ids@.len() > 0,
        s.planet_stack.len() > 0,
        forall|i: int| 0 <= i < ids@.len() ==> s.visited.contains(#[trigger] ids@[i]),
    ensures
        ({
            let (t1, a1) = transition(s, Event::Orchestrator(Some(OrchestratorReply::Neighbors(ids))));
            let (t2, a2) = transition(
                t1,
                Event::Orchestrator(Some(OrchestratorReply::MoveToPlanet { reachable: true, planet_id: p })),
            );
            let (t3, a3) = transition(t2, Event::Sent(true));
            &&& a1 == (Action::TravelTo {
                current_planet_id: s.planet_id,
                dst_planet_id: s.planet_stack.last(),
            })
            &&& a2 == Action::ConfirmMove { planet_id: p }
            &&& a3 == Action::AskSupportedResources
            &&& t3.planet_id == p
            &&& t3.planet_stack == s.planet_stack.drop_last()
            &&& t3.visited == s.visited.insert(p)
        }),
{
    crate::laws::lemma_backtrack_when_all_visited(s, ids);
}

} // verus!
