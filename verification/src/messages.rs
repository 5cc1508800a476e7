use vstd::prelude::*;

use crate::kinds::{AiReturn, BasicKind, ComplexKind};

verus! {

/// What a planet may answer the explorer, holding as plain values what the
/// explorer reads of it.
pub enum PlanetReply {
    /// The kinds of basic resource the planet can generate.
    SupportedResources(Vec<BasicKind>),
    /// The kinds of complex resource the planet can combine.
    SupportedCombinations(Vec<ComplexKind>),
    /// The answer to a request to generate a resource: `produced` tells
    /// whether a resource came with it.
    GeneratedResource { produced: bool },
    /// The answer to a request to combine two resources: `success` tells
    /// whether the complex resource was made (else both inputs came back).
    Combined { success: bool },
    /// Any other answer: the count of charged cells, or that the planet is stopped.
    Other,
}

/// What the orchestrator may send the explorer, holding as plain values what
/// the explorer reads of it.
pub enum OrchestratorReply {
    /// The planets the explorer can travel to from where it is.
    Neighbors(Vec<u32>),
    /// The answer to a travel request: `reachable` tells whether a channel to
    /// the planet `planet_id` came with it.
    MoveToPlanet { reachable: bool, planet_id: u32 },
    /// The orchestrator stops the explorer's AI.
    StopAi,
    /// The orchestrator resets the explorer's AI.
    ResetAi,
    /// The orchestrator kills the explorer.
    KillExplorer,
    /// Any other message.
    Other,
}

/// What a travel request came to.
#[derive(Clone, Copy, PartialEq, Eq, Structural, Debug)]
pub enum TravelReply {
    /// The orchestrator moves the explorer to the planet with this id.
    Granted(u32),
    /// The planet cannot be reached (it is dead).
    Denied,
    /// The AI must end, for this reason.
    Aborted(AiReturn),
}

/// The reason an orchestrator's message ends the AI when it is not the answer awaited.
pub open spec fn interruption(reply: Option<OrchestratorReply>) -> AiReturn {
    match reply {
        Some(OrchestratorReply::StopAi) => AiReturn::Stop,
        Some(OrchestratorReply::ResetAi) => AiReturn::Reset,
        _ => AiReturn::Kill,
    }
}

/// The planet's supported basic resources, read from its answer (`None`: no
/// answer came, because the request or the answer could not be passed on).
pub open spec fn supported_resources_of(reply: Option<PlanetReply>) -> Result<Seq<BasicKind>, AiReturn> {
    match reply {
        Some(PlanetReply::SupportedResources(kinds)) => Ok(kinds@),
        _ => Err(AiReturn::Kill),
    }
}

/// The planet's supported combinations, read from its answer.
pub open spec fn supported_combinations_of(reply: Option<PlanetReply>) -> Result<Seq<ComplexKind>, AiReturn> {
    match reply {
        Some(PlanetReply::SupportedCombinations(kinds)) => Ok(kinds@),
        _ => Err(AiReturn::Kill),
    }
}

/// Whether the planet produced the resource asked for, read from its answer.
pub open spec fn generated_of(reply: Option<PlanetReply>) -> Result<bool, AiReturn> {
    match reply {
        Some(PlanetReply::GeneratedResource { produced }) => Ok(produced),
        _ => Err(AiReturn::Kill),
    }
}

/// The neighbouring planets, read from the orchestrator's answer.
pub open spec fn neighbors_of(reply: Option<OrchestratorReply>) -> Result<Seq<u32>, AiReturn> {
    match reply {
        Some(OrchestratorReply::Neighbors(ids)) => Ok(ids@),
        _ => Err(interruption(reply)),
    }
}

/// What a travel request came to, read from the orchestrator's answer.
pub open spec fn travel_of(reply: Option<OrchestratorReply>) -> TravelReply {
    match reply {
        Some(OrchestratorReply::MoveToPlanet { reachable, planet_id }) => if reachable {
            TravelReply::Granted(planet_id)
        } else {
            TravelReply::Denied
        },
        Some(OrchestratorReply::StopAi) => TravelReply::Aborted(AiReturn::Stop),
        Some(OrchestratorReply::ResetAi) => TravelReply::Aborted(AiReturn::Reset),
        _ => TravelReply::Aborted(AiReturn::Kill),
    }
}

/// Reads the answer to a request for the planet's supported basic resources:
/// only that answer is accepted; anything else, or no answer, kills the explorer.
pub fn supported_resource_response(reply: Option<PlanetReply>) -> (result: Result<Vec<BasicKind>, AiReturn>)
    ensures
        match result {
            Ok(kinds) => supported_resources_of(reply) == Ok::<Seq<BasicKind>, AiReturn>(kinds@),
            Err(r) => supported_resources_of(reply) == Err::<Seq<BasicKind>, AiReturn>(r),
        },
{
    match reply {
        Some(PlanetReply::SupportedResources(kinds)) => Ok(kinds),
        _ => Err(AiReturn::Kill),
    }
}

/// Reads the answer to a request for the planet's supported combinations:
/// only that answer is accepted; anything else, or no answer, kills the explorer.
pub fn supported_combination_response(reply: Option<PlanetReply>) -> (result: Result<Vec<ComplexKind>, AiReturn>)
    ensures
        match result {
            Ok(kinds) => supported_combinations_of(reply) == Ok::<Seq<ComplexKind>, AiReturn>(kinds@),
            Err(r) => supported_combinations_of(reply) == Err::<Seq<ComplexKind>, AiReturn>(r),
        },
{
    match reply {
        Some(PlanetReply::SupportedCombinations(kinds)) => Ok(kinds),
        _ => Err(AiReturn::Kill),
    }
}

/// Reads the answer to a request to generate a resource: `Ok(true)` when a
/// resource came, `Ok(false)` when the planet could not make one; anything
/// else, or no answer, kills the explorer.
pub fn generate_resource_response(reply: &Option<PlanetReply>) -> (result: Result<bool, AiReturn>)
    ensures
        result == generated_of(*reply),
{
    match reply {
        Some(PlanetReply::GeneratedResource { produced }) => Ok(*produced),
        _ => Err(AiReturn::Kill),
    }
}

/// Reads the orchestrator's answer to a request for the neighbouring planets:
/// a stop or a reset is passed on; anything else, or no answer, kills the explorer.
pub fn neighbors_response(reply: Option<OrchestratorReply>) -> (result: Result<Vec<u32>, AiReturn>)
    ensures
        match result {
            Ok(ids) => neighbors_of(reply) == Ok::<Seq<u32>, AiReturn>(ids@),
            Err(r) => neighbors_of(reply) == Err::<Seq<u32>, AiReturn>(r),
        },
{
    match reply {
        Some(OrchestratorReply::Neighbors(ids)) => Ok(ids),
        Some(OrchestratorReply::StopAi) => Err(AiReturn::Stop),
        Some(OrchestratorReply::ResetAi) => Err(AiReturn::Reset),
        Some(OrchestratorReply::KillExplorer) => Err(AiReturn::Kill),
        _ => Err(AiReturn::Kill),
    }
}

/// Reads the orchestrator's answer to a travel request: a move with a channel
/// to the new planet grants it, a move without one denies it, a stop or a
/// reset is passed on, anything else (or no answer) kills the explorer.
pub fn travel_to_planet_response(reply: &Option<OrchestratorReply>) -> (result: TravelReply)
    ensures
        result == travel_of(*reply),
{
    match reply {
        Some(OrchestratorReply::MoveToPlanet { reachable, planet_id }) => {
            if *reachable {
                TravelReply::Granted(*planet_id)
            } else {
                TravelReply::Denied
            }
        },
        Some(OrchestratorReply::StopAi) => TravelReply::Aborted(AiReturn::Stop),
        Some(OrchestratorReply::ResetAi) => TravelReply::Aborted(AiReturn::Reset),
        Some(OrchestratorReply::KillExplorer) => TravelReply::Aborted(AiReturn::Kill),
        _ => TravelReply::Aborted(AiReturn::Kill),
    }
}

} // verus!
