use vstd::prelude::*;

use crate::kinds::{AiReturn, TakeOutcome};
use crate::machine::{
    awaits, first_unvisited, start_round, transition, Action, Event, ExplorerView, Phase,
};
use crate::messages::{OrchestratorReply, PlanetReply};

verus! {

/// What holds of the explorer while a run is under way: the planet it is on
/// counts as visited (but for the moment it has just been granted a move and
/// has not yet reported its arrival), and a pending travel request was made
/// from the planet it is on.
pub open spec fn run_invariant(s: ExplorerView) -> bool {
    &&& (!(s.phase is Idle) && !(s.phase is AwaitConfirm)) ==> s.visited.contains(s.planet_id)
    &&& s.phase matches Phase::AwaitTravel { from, .. } ==> from == s.planet_id
}

/// `first_unvisited` picks the earliest planet of the list that was not
/// visited, and finds none exactly when every planet of the list was visited.
pub proof fn lemma_first_unvisited(ids: Seq<u32>, visited: Set<u32>)
    ensures
        match first_unvisited(ids, visited) {
            Some(d) => exists|i: int|
                0 <= i < ids.len() && ids[i] == d && !visited.contains(d) && forall|j: int|
                    0 <= j < i ==> visited.contains(#[trigger] ids[j]),
            None => forall|j: int| 0 <= j < ids.len() ==> visited.contains(#[trigger] ids[j]),
        },
    decreases ids.len(),
{
    if ids.len() > 0 && visited.contains(ids[0]) {
        let rest = ids.drop_first();
        lemma_first_unvisited(rest, visited);
        match first_unvisited(rest, visited) {
            Some(d) => {
                let i = choose|i: int|
                    0 <= i < rest.len() && rest[i] == d && !visited.contains(d) && forall|j: int|
                        0 <= j < i ==> visited.contains(#[trigger] rest[j]);
                assert(ids[i + 1] == d);
                assert forall|j: int| 0 <= j < i + 1 implies visited.contains(#[trigger] ids[j]) by {
                    if j > 0 {
                        assert(ids[j] == rest[j - 1]);
                    }
                }
            },
            None => {
                assert forall|j: int| 0 <= j < ids.len() implies visited.contains(#[trigger] ids[j]) by {
                    if j > 0 {
                        assert(ids[j] == rest[j - 1]);
                    }
                }
            },
        }
    }
}

/// A run begins in a state that meets the run invariant, and every step of
/// the AI keeps it.
pub proof fn lemma_run_invariant(s: ExplorerView, e: Event)
    ensures
        run_invariant(start_round(s).0),
        awaits(s.phase, e) && run_invariant(s) ==> run_invariant(transition(s, e).0),
{
}

/// Only the end of a run leaves the explorer idle: after every action but
/// `Finish` the explorer waits for what came of it.
pub proof fn lemma_only_finish_ends_run(s: ExplorerView, e: Event)
    requires
        awaits(s.phase, e),
    ensures
        transition(s, e).1 is Finish <==> transition(s, e).0.phase is Idle,
        !(start_round(s).0.phase is Idle),
{
}

/// The AI never changes who the explorer is or its mode.
pub proof fn lemma_identity_kept(s: ExplorerView, e: Event)
    ensures
        transition(s, e).0.id == s.id,
        transition(s, e).0.auto_mode == s.auto_mode,
        start_round(s).0.id == s.id,
        start_round(s).0.auto_mode == s.auto_mode,
{
}

/// The planets visited are never forgotten one by one: a step keeps them all,
/// or forgets them all but the planet the explorer is on.
pub proof fn lemma_visited_kept_or_forgotten(s: ExplorerView, e: Event)
    requires
        awaits(s.phase, e),
    ensures
        ({
            let t = transition(s, e).0;
            ||| s.visited.subset_of(t.visited)
            ||| t.visited == Set::<u32>::empty().insert(t.planet_id)
        }),
{
}

/// When some neighbour was not visited, the explorer travels forward to the
/// first such neighbour.
pub proof fn lemma_forward_to_first_unvisited(s: ExplorerView, ids: Vec<u32>)
    requires
        s.phase is AwaitNeighbors,
        exists|i: int| 0 <= i < ids@.len() && !s.visited.contains(#[trigger] ids@[i]),
    ensures
        ({
            let (t, a) = transition(s, Event::Orchestrator(Some(OrchestratorReply::Neighbors(ids))));
            &&& t.phase == Phase::AwaitTravel { backtracking: false, from: s.planet_id }
            &&& t.planet_stack == s.planet_stack
            &&& t.visited == s.visited
            &&& a matches Action::TravelTo { current_planet_id, dst_planet_id } && current_planet_id
                == s.planet_id && exists|i: int|
                0 <= i < ids@.len() && ids@[i] == dst_planet_id && !s.visited.contains(dst_planet_id)
                    && forall|j: int| 0 <= j < i ==> s.visited.contains(#[trigger] ids@[j])
        }),
{
    lemma_first_unvisited(ids@, s.visited);
}

/// When every neighbour was visited, the explorer goes back to the planet it
/// came from last, which leaves the way back; with no way back it forgets
/// all it visited and explores anew from where it is.
pub proof fn lemma_backtrack_when_all_visited(s: ExplorerView, ids: Vec<u32>)
    requires
        s.phase is AwaitNeighbors,
        ids@.len() > 0,
        forall|i: int| 0 <= i < ids@.len() ==> s.visited.contains(#[trigger] ids@[i]),
    ensures
        ({
            let (t, a) = transition(s, Event::Orchestrator(Some(OrchestratorReply::Neighbors(ids))));
            if s.planet_stack.len() > 0 {
                &&& t.phase == Phase::AwaitTravel { backtracking: true, from: s.planet_id }
                &&& t.planet_stack == s.planet_stack.drop_last()
                &&& a == Action::TravelTo {
                    current_planet_id: s.planet_id,
                    dst_planet_id: s.planet_stack.last(),
                }
            } else {
                &&& t.visited == Set::<u32>::empty().insert(s.planet_id)
                &&& t.planet_stack == s.planet_stack
                &&& t.phase == Phase::AwaitResources
                &&& a == Action::AskSupportedResources
            }
        }),
{
    lemma_first_unvisited(ids@, s.visited);
    if first_unvisited(ids@, s.visited) is Some {
        let d = first_unvisited(ids@, s.visited)->0;
        let i = choose|i: int|
            0 <= i < ids@.len() && ids@[i] == d && !s.visited.contains(d) && forall|j: int|
                0 <= j < i ==> s.visited.contains(#[trigger] ids@[j]);
        assert(s.visited.contains(ids@[i]));
    }
}

/// The way back changes only thus: a confirmed forward move adds the planet
/// left; a move back takes off the planet gone back to; a refused move back
/// empties it, together with the planets visited.
pub proof fn lemma_way_back(s: ExplorerView, e: Event)
    requires
        awaits(s.phase, e),
        run_invariant(s),
    ensures
        ({
            let (t, a) = transition(s, e);
            ||| t.planet_stack == s.planet_stack
            ||| (s.phase is AwaitConfirm && !s.phase->AwaitConfirm_backtracking && e == Event::Sent(true)
                && t.planet_stack == s.planet_stack.push(s.phase->AwaitConfirm_from))
            ||| (s.phase is AwaitNeighbors && s.planet_stack.len() > 0 && t.planet_stack
                == s.planet_stack.drop_last() && a == Action::TravelTo {
                current_planet_id: s.planet_id,
                dst_planet_id: s.planet_stack.last(),
            })
            ||| (s.phase is AwaitTravel && s.phase->AwaitTravel_backtracking && t.planet_stack
                == Seq::<u32>::empty() && t.visited == Set::<u32>::empty().insert(s.planet_id))
        }),
{
}

/// A move granted from planet `from` and confirmed leaves `from` on top of
/// the way back when the explorer was going forward.
pub proof fn lemma_forward_move_remembers_departure(s: ExplorerView, from: u32)
    requires
        s.phase == (Phase::AwaitConfirm { backtracking: false, from }),
    ensures
        transition(s, Event::Sent(true)).0.planet_stack == s.planet_stack.push(from),
        transition(s, Event::Sent(true)).1 == Action::AskSupportedResources,
{
}

/// A diamond is reported only when the planet made it, and the run then ends
/// with the explorer killed.
pub proof fn lemma_diamond_ends_run(s: ExplorerView, e: Event)
    ensures
        ({
            let a = transition(s, e).1;
            (a is Finish && a->diamond) ==> {
                &&& a->outcome == AiReturn::Kill
                &&& s.phase is AwaitDiamond
                &&& e == Event::Planet(Some(PlanetReply::Combined { success: true }))
            }
        }),
{
}

/// Of the carbons taken out of the bag, either both go to the planet, or a
/// lone carbon taken (the other take having found none) is put back; in any
/// other case nothing is put back.
pub proof fn lemma_put_back_only_taken_carbon(s: ExplorerView, a: TakeOutcome, b: TakeOutcome)
    requires
        s.phase is AwaitTaken,
    ensures
        ({
            let act = transition(s, Event::CarbonsTaken(a, b)).1;
            &&& (act == Action::RequestDiamond) <==> (a == TakeOutcome::Carbon && b == TakeOutcome::Carbon)
            &&& act matches Action::PutBack { first, second } ==> {
                &&& first == (a == TakeOutcome::Carbon && b == TakeOutcome::Absent)
                &&& second == (a == TakeOutcome::Absent && b == TakeOutcome::Carbon)
            }
            &&& !(a == TakeOutcome::Carbon && b == TakeOutcome::Carbon) ==> act is PutBack
        }),
{
}

/// A stop or a reset from the orchestrator, awaited or not, ends the run with
/// that outcome; a planet or orchestrator that does not answer kills it.
pub proof fn lemma_interruptions(s: ExplorerView)
    ensures
        (s.phase is AwaitNeighbors || s.phase is AwaitTravel) ==> {
            &&& transition(s, Event::Orchestrator(Some(OrchestratorReply::StopAi))).1
                == (Action::Finish { outcome: AiReturn::Stop, diamond: false })
            &&& transition(s, Event::Orchestrator(Some(OrchestratorReply::ResetAi))).1
                == (Action::Finish { outcome: AiReturn::Reset, diamond: false })
            &&& transition(s, Event::Orchestrator(Some(OrchestratorReply::KillExplorer))).1
                == (Action::Finish { outcome: AiReturn::Kill, diamond: false })
            &&& transition(s, Event::Orchestrator(None)).1
                == (Action::Finish { outcome: AiReturn::Kill, diamond: false })
        },
        (s.phase is AwaitResources || s.phase is AwaitCombinations || s.phase is AwaitGenerated) ==> transition(s, Event::Planet(None)).1
            == (Action::Finish { outcome: AiReturn::Kill, diamond: false }),
{
}

/// With no neighbour at all, the explorer is killed.
pub proof fn lemma_no_neighbors_kills(s: ExplorerView, ids: Vec<u32>)
    requires
        s.phase is AwaitNeighbors,
        ids@.len() == 0,
    ensures
        transition(s, Event::Orchestrator(Some(OrchestratorReply::Neighbors(ids)))).1
            == (Action::Finish { outcome: AiReturn::Kill, diamond: false }),
{
}

} // verus!
