//! One building upgrade as a conversation with a store: the engine names
//! the next statement, the store answers, and the engine decides how to go
//! on. The engine itself touches no table.

use vstd::prelude::*;
use crate::models::{Building, Costs, EngineError, Fortress};
use crate::store::{
    lemma_building_row_unique, lemma_fortress_row_unique, lemma_with_fortress_wf, spec_raised,
    Store, StoreView,
};
use crate::transaction::{spec_upgrade_next, spec_upgrade_refusal_in};
use crate::upgrade::{
    check_level, classify_missed_debit, spec_affords, spec_debit, spec_level_refusal,
    spec_valid_request, validate_request,
};

verus! {

/// What the caller asks for.
#[derive(Clone, Copy, Debug, PartialEq, Eq, Structural)]
pub struct UpgradeRequest {
    pub building_id: i32,
    pub max_level: i32,
    pub costs: Costs,
    /// The level the caller believes the building to have, if it says so.
    pub expected_level: Option<i32>,
}

/// Where a running upgrade stands.
#[derive(Clone, Copy, Debug, PartialEq, Eq, Structural)]
pub enum UpgradeState {
    /// Nothing has been asked of the store yet.
    Start,
    /// The building has been asked for.
    LoadingBuilding,
    /// The debit of the owner has been issued; the building was read at
    /// `level`.
    Debiting { level: i32, fortress_id: i32 },
    /// The debit touched no row, and the owner has been asked for.
    CheckingFortress,
    /// The owner stands debited as `fortress`, and the raise of the
    /// building has been issued.
    Incrementing { fortress: Fortress },
    /// The upgrade has ended, with a commit or a rollback.
    Done,
}

/// The next statement for the store, or how the transaction ends.
#[derive(Clone, Debug, PartialEq, Eq)]
pub enum StoreAction {
    /// Read the building with this id.
    LoadBuilding { id: i32 },
    /// Take the costs from the fortress with this id where every counter
    /// covers its cost.
    DebitFortress { id: i32, costs: Costs },
    /// Read the fortress with this id.
    LoadFortress { id: i32 },
    /// Raise the building with this id by one level where its level is
    /// `expected_level`.
    IncrementBuilding { id: i32, expected_level: i32 },
    /// Keep what was written; the upgrade went through with these rows.
    Commit { fortress: Fortress, building: Building },
    /// Undo what was written; the upgrade is refused for this reason.
    Rollback { error: EngineError },
}

/// What the store answers.
#[derive(Clone, Debug, PartialEq, Eq)]
pub enum StoreReply {
    /// A transaction has begun.
    Started,
    /// The building that was read, if there is one.
    Building(Option<Building>),
    /// The fortress as the debit left it, or `None` where no row was touched.
    Debited(Option<Fortress>),
    /// The fortress that was read, if there is one.
    Fortress(Option<Fortress>),
    /// The building as the raise left it, or `None` where no row was touched.
    Incremented(Option<Building>),
    /// The store could not carry the statement out.
    Failed,
}

/// The engine's move: where the upgrade stands after the store's answer,
/// and what is to be done next. An answer that does not belong to the
/// statement last issued ends the upgrade with an internal error, as does
/// a failure of the store.
pub open spec fn spec_upgrade_step(request: UpgradeRequest, state: UpgradeState, reply: StoreReply)
    -> (UpgradeState, StoreAction) {
    match (state, reply) {
        (UpgradeState::Start, StoreReply::Started) => {
            if spec_valid_request(request.max_level, request.costs) {
                (
                    UpgradeState::LoadingBuilding,
                    StoreAction::LoadBuilding { id: request.building_id },
                )
            } else {
                (UpgradeState::Done, StoreAction::Rollback { error: EngineError::InvalidArgument })
            }
        },
        (UpgradeState::LoadingBuilding, StoreReply::Building(None)) => (
            UpgradeState::Done,
            StoreAction::Rollback { error: EngineError::BuildingNotFound },
        ),
        (UpgradeState::LoadingBuilding, StoreReply::Building(Some(building))) => {
            match spec_level_refusal(building.level, request.expected_level, request.max_level) {
                Some(error) => (UpgradeState::Done, StoreAction::Rollback { error }),
                None => (
                    UpgradeState::Debiting {
                        level: building.level,
                        fortress_id: building.fortress_id,
                    },
                    StoreAction::DebitFortress { id: building.fortress_id, costs: request.costs },
                ),
            }
        },
        (UpgradeState::Debiting { level, fortress_id }, StoreReply::Debited(Some(fortress))) => (
            UpgradeState::Incrementing { fortress },
            StoreAction::IncrementBuilding { id: request.building_id, expected_level: level },
        ),
        (UpgradeState::Debiting { level, fortress_id }, StoreReply::Debited(None)) => (
            UpgradeState::CheckingFortress,
            StoreAction::LoadFortress { id: fortress_id },
        ),
        (UpgradeState::CheckingFortress, StoreReply::Fortress(Some(fortress))) => (
            UpgradeState::Done,
            StoreAction::Rollback { error: EngineError::InsufficientResources },
        ),
        (UpgradeState::CheckingFortress, StoreReply::Fortress(None)) => (
            UpgradeState::Done,
            StoreAction::Rollback { error: EngineError::FortressNotFound },
        ),
        (UpgradeState::Incrementing { fortress }, StoreReply::Incremented(Some(building))) => (
            UpgradeState::Done,
            StoreAction::Commit { fortress, building },
        ),
        (UpgradeState::Incrementing { fortress }, StoreReply::Incremented(None)) => (
            UpgradeState::Done,
            StoreAction::Rollback { error: EngineError::ConcurrentUpdate },
        ),
        _ => (UpgradeState::Done, StoreAction::Rollback { error: EngineError::Internal }),
    }
}

/// Takes the store's answer and names the next statement, or ends the
/// upgrade.
pub fn upgrade_step(request: &UpgradeRequest, state: UpgradeState, reply: StoreReply) -> (r: (
    UpgradeState,
    StoreAction,
))
    ensures
        r == spec_upgrade_step(*request, state, reply),
{
    match (state, reply) {
        (UpgradeState::Start, StoreReply::Started) => {
            if validate_request(request.max_level, &request.costs).is_ok() {
                (
                    UpgradeState::LoadingBuilding,
                    StoreAction::LoadBuilding { id: request.building_id },
                )
            } else {
                (UpgradeState::Done, StoreAction::Rollback { error: EngineError::InvalidArgument })
            }
        },
        (UpgradeState::LoadingBuilding, StoreReply::Building(None)) => (
            UpgradeState::Done,
            StoreAction::Rollback { error: EngineError::BuildingNotFound },
        ),
        (UpgradeState::LoadingBuilding, StoreReply::Building(Some(building))) => {
            match check_level(building.level, request.expected_level, request.max_level) {
                Err(error) => (UpgradeState::Done, StoreAction::Rollback { error }),
                Ok(()) => (
                    UpgradeState::Debiting {
                        level: building.level,
                        fortress_id: building.fortress_id,
                    },
                    StoreAction::DebitFortress { id: building.fortress_id, costs: request.costs },
                ),
            }
        },
        (UpgradeState::Debiting { level, fortress_id }, StoreReply::Debited(Some(fortress))) => (
            UpgradeState::Incrementing { fortress },
            StoreAction::IncrementBuilding { id: request.building_id, expected_level: level },
        ),
        (UpgradeState::Debiting { level, fortress_id }, StoreReply::Debited(None)) => (
            UpgradeState::CheckingFortress,
            StoreAction::LoadFortress { id: fortress_id },
        ),
        (UpgradeState::CheckingFortress, StoreReply::Fortress(found)) => (
            UpgradeState::Done,
            StoreAction::Rollback { error: classify_missed_debit(found.is_some()) },
        ),
        (UpgradeState::Incrementing { fortress }, StoreReply::Incremented(Some(building))) => (
            UpgradeState::Done,
            StoreAction::Commit { fortress, building },
        ),
        (UpgradeState::Incrementing { fortress }, StoreReply::Incremented(None)) => (
            UpgradeState::Done,
            StoreAction::Rollback { error: EngineError::ConcurrentUpdate },
        ),
        _ => (UpgradeState::Done, StoreAction::Rollback { error: EngineError::Internal }),
    }
}

/// What a store that nobody else writes to makes of a statement: the
/// tables afterwards and its answer.
pub open spec fn spec_perform(v: StoreView, action: StoreAction) -> (StoreView, StoreReply) {
    match action {
        StoreAction::LoadBuilding { id } => (
            v,
            StoreReply::Building(
                if v.has_building(id) {
                    Some(v.building(id))
                } else {
                    None
                },
            ),
        ),
        StoreAction::DebitFortress { id, costs } => {
            if v.has_fortress(id) && spec_affords(v.fortress(id), costs) {
                let debited = spec_debit(v.fortress(id), costs);
                (v.with_fortress(v.fortress_row(id), debited), StoreReply::Debited(Some(debited)))
            } else {
                (v, StoreReply::Debited(None))
            }
        },
        StoreAction::LoadFortress { id } => (
            v,
            StoreReply::Fortress(
                if v.has_fortress(id) {
                    Some(v.fortress(id))
                } else {
                    None
                },
            ),
        ),
        StoreAction::IncrementBuilding { id, expected_level } => {
            if v.has_building(id) && v.building(id).level == expected_level {
                let raised = spec_raised(v.building(id));
                (v.with_building(v.building_row(id), raised), StoreReply::Incremented(Some(raised)))
            } else {
                (v, StoreReply::Incremented(None))
            }
        },
        StoreAction::Commit { fortress, building } => (v, StoreReply::Started),
        StoreAction::Rollback { error } => (v, StoreReply::Started),
    }
}

/// Whether the tables in memory can carry a statement out: a debit names
/// no negative cost, and a raise does not start from the highest level
/// there is.
pub open spec fn spec_can_perform(action: StoreAction) -> bool {
    match action {
        StoreAction::DebitFortress { id, costs } => costs.wf(),
        StoreAction::IncrementBuilding { id, expected_level } => expected_level < i32::MAX,
        _ => true,
    }
}

impl Store {
    /// Carries out one statement on the tables in memory and gives the
    /// answer. The end of a transaction is no statement: it changes nothing
    /// and is answered as the start of the next.
    pub fn perform(&mut self, action: &StoreAction) -> (r: StoreReply)
        requires
            old(self)@.wf(),
            spec_can_perform(*action),
        ensures
            final(self)@.wf(),
            (final(self)@, r) == spec_perform(old(self)@, *action),
    {
        match action {
            StoreAction::LoadBuilding { id } => StoreReply::Building(self.get_building(*id)),
            StoreAction::DebitFortress { id, costs } => StoreReply::Debited(
                self.debit_fortress(*id, costs),
            ),
            StoreAction::LoadFortress { id } => StoreReply::Fortress(self.get_fortress(*id)),
            StoreAction::IncrementBuilding { id, expected_level } => StoreReply::Incremented(
                self.increment_building(*id, *expected_level),
            ),
            StoreAction::Commit { fortress, building } => StoreReply::Started,
            StoreAction::Rollback { error } => StoreReply::Started,
        }
    }
}

/// An upgrade run to its end against a store that nobody else writes to:
/// the tables afterwards and the outcome. A rollback gives back the tables
/// as the upgrade found them, in `origin`.
pub open spec fn spec_run(
    request: UpgradeRequest,
    origin: StoreView,
    v: StoreView,
    state: UpgradeState,
    reply: StoreReply,
    steps: nat,
) -> (StoreView, Result<(Fortress, Building), EngineError>)
    decreases steps,
{
    let (next, action) = spec_upgrade_step(request, state, reply);
    match action {
        StoreAction::Commit { fortress, building } => (v, Ok((fortress, building))),
        StoreAction::Rollback { error } => (origin, Err(error)),
        _ => {
            if steps == 0 {
                (origin, Err(EngineError::Internal))
            } else {
                let (after, answer) = spec_perform(v, action);
                spec_run(request, origin, after, next, answer, (steps - 1) as nat)
            }
        },
    }
}

/// What a rollback needs to know of a running upgrade: with no fortress
/// remembered the tables are as the upgrade found them; with one
/// remembered, they differ from that at most in the row of that fortress,
/// which is remembered as it was found.
pub open spec fn spec_can_undo(origin: StoreView, v: StoreView, undo: Option<Fortress>) -> bool {
    match undo {
        None => v == origin,
        Some(before) => {
            &&& origin.has_fortress(before.id)
            &&& before == origin.fortress(before.id)
            &&& v.buildings == origin.buildings
            &&& v.fortresses.len() == origin.fortresses.len()
            &&& v.fortresses[origin.fortress_row(before.id)].id == before.id
            &&& forall|i: int|
                0 <= i < origin.fortresses.len() && i != origin.fortress_row(before.id)
                    ==> v.fortresses[i] == origin.fortresses[i]
        },
    }
}

/// What holds of a running upgrade whenever the engine is about to move.
pub open spec fn spec_in_step(
    request: UpgradeRequest,
    origin: StoreView,
    v: StoreView,
    state: UpgradeState,
    reply: StoreReply,
    undo: Option<Fortress>,
) -> bool {
    &&& (state is Start || state is LoadingBuilding) ==> undo is None
    &&& state is LoadingBuilding ==> spec_valid_request(request.max_level, request.costs)
    &&& (state matches UpgradeState::Debiting { level, fortress_id } ==> level < i32::MAX)
    &&& (state is Incrementing && reply matches StoreReply::Incremented(Some(_)))
        || spec_can_undo(origin, v, undo)
}

impl Store {
    /// Puts back the fortress that a running upgrade has debited, if it has
    /// debited one.
    fn undo_debit(&mut self, undo: Option<Fortress>, Ghost(origin): Ghost<StoreView>)
        requires
            old(self)@.wf(),
            origin.wf(),
            spec_can_undo(origin, old(self)@, undo),
        ensures
            final(self)@ == origin,
    {
        if let Some(before) = undo {
            proof {
                let row = origin.fortress_row(before.id);
                assert(0 <= row < origin.fortresses.len() && origin.fortresses[row].id
                    == before.id);
                assert(origin.fortresses[row].wf());
                lemma_fortress_row_unique(self@, before.id, row);
            }
            self.restore_fortress(before);
            proof {
                assert(self@.fortresses =~= origin.fortresses);
            }
        }
    }

    /// Runs one upgrade to its end on the tables in memory: asks the engine
    /// for its move, carries the statement out, hands back the answer, and
    /// so on until the engine commits or rolls back. A rollback puts the
    /// tables back as the upgrade found them.
    pub fn run_upgrade(&mut self, request: &UpgradeRequest) -> (r: Result<
        (Fortress, Building),
        EngineError,
    >)
        requires
            old(self)@.wf(),
        ensures
            final(self)@.wf(),
            (final(self)@, r) == spec_run(
                *request,
                old(self)@,
                old(self)@,
                UpgradeState::Start,
                StoreReply::Started,
                3,
            ),
    {
        let ghost origin = self@;
        let mut undo: Option<Fortress> = None;
        let mut state = UpgradeState::Start;
        let mut reply = StoreReply::Started;
        let mut left: u8 = 3;
        loop
            invariant
                origin == old(self)@,
                origin.wf(),
                self@.wf(),
                left <= 3,
                spec_in_step(*request, origin, self@, state, reply, undo),
                spec_run(*request, origin, self@, state, reply, left as nat) == spec_run(
                    *request,
                    origin,
                    origin,
                    UpgradeState::Start,
                    StoreReply::Started,
                    3,
                ),
            decreases left,
        {
            let (next, action) = upgrade_step(request, state, reply);
            match action {
                StoreAction::Commit { fortress, building } => {
                    return Ok((fortress, building));
                },
                StoreAction::Rollback { error } => {
                    self.undo_debit(undo, Ghost(origin));
                    return Err(error);
                },
                statement => {
                    if left == 0 {
                        self.undo_debit(undo, Ghost(origin));
                        return Err(EngineError::Internal);
                    }
                    if let StoreAction::DebitFortress { id, costs } = &statement {
                        undo = self.get_fortress(*id);
                    }
                    let ghost before = self@;
                    reply = self.perform(&statement);
                    left = left - 1;
                    proof {
                        if let StoreAction::DebitFortress { id, costs } = statement {
                            if before.has_fortress(id) {
                                let row = before.fortress_row(id);
                                assert(0 <= row < before.fortresses.len()
                                    && before.fortresses[row].id == id);
                            }
                        }
                    }
                },
            }
            state = next;
        }
    }
}

/// Run without interference, the conversation does what the transaction
/// is said to do as a whole: it ends within three statements, leaves the
/// tables as `spec_upgrade_next` gives them, and reports the refusal that
/// `spec_upgrade_refusal_in` names, or the debited owner and the raised
/// building.
pub proof fn lemma_run_is_the_transaction(request: UpgradeRequest, v: StoreView)
    requires
        v.wf(),
    ensures
        spec_run(request, v, v, UpgradeState::Start, StoreReply::Started, 3).0 == spec_upgrade_next(
            v,
            request.building_id,
            request.max_level,
            request.costs,
            request.expected_level,
        ),
        spec_run(request, v, v, UpgradeState::Start, StoreReply::Started, 3).1
            == match spec_upgrade_refusal_in(
            v,
            request.building_id,
            request.max_level,
            request.costs,
            request.expected_level,
        ) {
            Some(error) => Err::<(Fortress, Building), EngineError>(error),
            None => Ok::<(Fortress, Building), EngineError>(
                (
                    spec_debit(
                        v.fortress(v.building(request.building_id).fortress_id),
                        request.costs,
                    ),
                    spec_raised(v.building(request.building_id)),
                ),
            ),
        },
{
    reveal_with_fuel(spec_run, 5);
    let id = request.building_id;
    if spec_valid_request(request.max_level, request.costs) && v.has_building(id) {
        let building = v.building(id);
        let row = v.building_row(id);
        assert(0 <= row < v.buildings.len() && v.buildings[row].id == id);
        if spec_level_refusal(building.level, request.expected_level, request.max_level) is None {
            let owner = building.fortress_id;
            if v.has_fortress(owner) && spec_affords(v.fortress(owner), request.costs) {
                let frow = v.fortress_row(owner);
                assert(0 <= frow < v.fortresses.len() && v.fortresses[frow].id == owner);
                assert(v.fortresses[frow].wf());
                let debited = spec_debit(v.fortress(owner), request.costs);
                let mid = v.with_fortress(frow, debited);
                lemma_with_fortress_wf(v, frow, debited);
                lemma_building_row_unique(mid, id, row);
                assert(mid.building(id) == building);
                assert(mid.with_building(row, spec_raised(building)) == spec_upgrade_next(
                    v,
                    request.building_id,
                    request.max_level,
                    request.costs,
                    request.expected_level,
                ));
            }
        }
    }
}

} // verus!
