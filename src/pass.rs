//! One reconciliation pass for one address family, as decisions between the
//! caller's requests: look up the address, find the zone from the full domain
//! down, list the records, then send the one write that is owed.
use vstd::prelude::*;
use vstd::pervasive::unreached;
use crate::error::UpdateError;
use crate::record::{reconcile, reconcile_of, Target, Write};
use crate::zone::{
    lemma_step_continues_resolution, next_zone_step, resolve_zone, views, zone_step_of,
    ZoneResolution, ZoneStep, ZoneStepView,
};

verus! {

/// Where a pass stands.
#[derive(Debug, Clone, PartialEq, Eq)]
pub enum PassState {
    /// Waiting for the public address.
    LookingUp,
    /// Waiting for the zones named `domain`.
    FindingZone { address: String, domain: String },
    /// Waiting for the records of the zone with the target's name and type.
    ListingRecords { address: String, zone_id: String },
    /// Waiting for the write to be acknowledged.
    Writing { address: String },
    /// Finished.
    Done,
}

/// What the caller reports back after performing an action.
#[derive(Debug, Clone, PartialEq, Eq)]
pub enum PassEvent {
    /// The public address, as an address literal of the pass's family.
    Address(String),
    /// The ids of the zones with the queried name.
    Zones(Vec<String>),
    /// The ids of the records with the target's name and type.
    Records(Vec<String>),
    /// The provider accepted the write.
    Written,
    /// The action failed.
    Failed(UpdateError),
}

/// What the caller does next.
#[derive(Debug, PartialEq, Eq)]
pub enum PassAction {
    /// Look up the public address of the family.
    LookUpAddress,
    /// Ask for the zones with exactly this name.
    QueryZones(String),
    /// Ask the zone with this id for the records with the target's name and type.
    ListRecords(String),
    /// Send this write.
    Send(Write),
    /// The pass is over: the address now in place, or why not.
    Finish(Result<String, UpdateError>),
}

impl PassState {
    /// Whether the state waits for an event of this kind.
    pub open spec fn awaits(&self, event: PassEvent) -> bool {
        match (self, event) {
            (PassState::Done, _) => false,
            (_, PassEvent::Failed(_)) => true,
            (PassState::LookingUp, PassEvent::Address(_)) => true,
            (PassState::FindingZone { .. }, PassEvent::Zones(_)) => true,
            (PassState::ListingRecords { .. }, PassEvent::Records(_)) => true,
            (PassState::Writing { .. }, PassEvent::Written) => true,
            _ => false,
        }
    }

    /// Whether the state waits for an event of this kind.
    pub fn expects(&self, event: &PassEvent) -> (r: bool)
        ensures
            r == self.awaits(*event),
    {
        match (self, event) {
            (PassState::Done, _) => false,
            (_, PassEvent::Failed(_)) => true,
            (PassState::LookingUp, PassEvent::Address(_)) => true,
            (PassState::FindingZone { .. }, PassEvent::Zones(_)) => true,
            (PassState::ListingRecords { .. }, PassEvent::Records(_)) => true,
            (PassState::Writing { .. }, PassEvent::Written) => true,
            _ => false,
        }
    }
}

/// A pass starts by looking up the address.
pub fn pass_start() -> (r: (PassState, PassAction))
    ensures
        r == (PassState::LookingUp, PassAction::LookUpAddress),
{
    (PassState::LookingUp, PassAction::LookUpAddress)
}

/// Whether `r` is the next state and action of a pass for `target` after
/// `event` in `state`.
pub open spec fn pass_step_spec(
    target: Target,
    state: PassState,
    event: PassEvent,
    r: (PassState, PassAction),
) -> bool {
    match event {
        PassEvent::Failed(e) => r == (PassState::Done, PassAction::Finish(Err(e))),
        PassEvent::Address(a) => r == (
            PassState::FindingZone { address: a, domain: target.domain },
            PassAction::QueryZones(target.domain),
        ),
        PassEvent::Zones(ids) => match state {
            PassState::FindingZone { address, domain } => match zone_step_of(domain@, views(ids@)) {
                ZoneStepView::Found(z) => r.0 matches PassState::ListingRecords {
                    address: a2,
                    zone_id: z2,
                } && a2 == address && z2@ == z && r.1 == PassAction::ListRecords(z2),
                ZoneStepView::Query(p) => r.0 matches PassState::FindingZone {
                    address: a2,
                    domain: d2,
                } && a2 == address && d2@ == p && r.1 == PassAction::QueryZones(d2),
                ZoneStepView::NoZoneFound => r == (
                    PassState::Done,
                    PassAction::Finish(Err(UpdateError::NoZoneFound)),
                ),
                ZoneStepView::AmbiguousZone => r == (
                    PassState::Done,
                    PassAction::Finish(Err(UpdateError::AmbiguousZone)),
                ),
            },
            _ => false,
        },
        PassEvent::Records(ids) => match state {
            PassState::ListingRecords { address, zone_id } => match reconcile_of(
                zone_id@,
                target,
                address@,
                views(ids@),
            ) {
                Some(w) => r.1 matches PassAction::Send(w2) && w2@ == w && r.0 == (
                    PassState::Writing { address }),
                None => r == (
                    PassState::Done,
                    PassAction::Finish(Err(UpdateError::MultipleRecordsFound)),
                ),
            },
            _ => false,
        },
        PassEvent::Written => match state {
            PassState::Writing { address } => r == (
                PassState::Done,
                PassAction::Finish(Ok(address)),
            ),
            _ => false,
        },
    }
}

/// The next state and action of a pass for `target` after `event` in `state`.
pub fn pass_step(target: &Target, state: PassState, event: PassEvent) -> (r: (PassState, PassAction))
    requires
        state.awaits(event),
    ensures
        pass_step_spec(*target, state, event, r),
{
    match event {
        PassEvent::Failed(e) => (PassState::Done, PassAction::Finish(Err(e))),
        PassEvent::Address(a) => (
            PassState::FindingZone { address: a, domain: target.domain.clone() },
            PassAction::QueryZones(target.domain.clone()),
        ),
        PassEvent::Zones(ids) => match state {
            PassState::FindingZone { address, domain } => match next_zone_step(
                domain.as_str(),
                ids,
            ) {
                ZoneStep::Found(z) => {
                    let z2 = z.clone();
                    (PassState::ListingRecords { address, zone_id: z }, PassAction::ListRecords(z2))
                },
                ZoneStep::Query(p) => {
                    let p2 = p.clone();
                    (PassState::FindingZone { address, domain: p }, PassAction::QueryZones(p2))
                },
                ZoneStep::NoZoneFound => (
                    PassState::Done,
                    PassAction::Finish(Err(UpdateError::NoZoneFound)),
                ),
                ZoneStep::AmbiguousZone => (
                    PassState::Done,
                    PassAction::Finish(Err(UpdateError::AmbiguousZone)),
                ),
            },
            _ => unreached(),
        },
        PassEvent::Records(ids) => match state {
            PassState::ListingRecords { address, zone_id } => {
                match reconcile(zone_id.as_str(), target, address.as_str(), ids) {
                    Ok(w) => (PassState::Writing { address }, PassAction::Send(w)),
                    Err(e) => (PassState::Done, PassAction::Finish(Err(e))),
                }
            },
            _ => unreached(),
        },
        PassEvent::Written => match state {
            PassState::Writing { address } => (PassState::Done, PassAction::Finish(Ok(address))),
            _ => unreached(),
        },
    }
}

/// While a pass searches for the zone, and the provider answers each query
/// `name` with the zones `lookup(name)`, every step keeps the outcome of the
/// search equal to the resolution of the domain it started from: the pass goes
/// on to a domain that resolves the same way, or lists the records of the zone
/// that the domain resolves to, or finishes with the error that resolution
/// gives.
pub proof fn lemma_zone_search_resolves(
    target: Target,
    address: String,
    domain: String,
    ids: Vec<String>,
    r: (PassState, PassAction),
    lookup: spec_fn(Seq<char>) -> Seq<Seq<char>>,
)
    requires
        views(ids@) == lookup(domain@),
        pass_step_spec(
            target,
            PassState::FindingZone { address, domain },
            PassEvent::Zones(ids),
            r,
        ),
    ensures
        r.0 matches PassState::FindingZone { domain: next, .. } ==> resolve_zone(domain@, lookup)
            == resolve_zone(next@, lookup),
        r.0 matches PassState::ListingRecords { zone_id, .. } ==> resolve_zone(domain@, lookup)
            == ZoneResolution::Found(zone_id@),
        r.1 == PassAction::Finish(Err(UpdateError::NoZoneFound)) ==> resolve_zone(domain@, lookup)
            == ZoneResolution::NoZoneFound,
        r.1 == PassAction::Finish(Err(UpdateError::AmbiguousZone)) ==> resolve_zone(
            domain@,
            lookup,
        ) == ZoneResolution::AmbiguousZone,
{
    lemma_step_continues_resolution(domain@, lookup);
}

} // verus!
