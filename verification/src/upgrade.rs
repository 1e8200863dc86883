//! The rules of one building upgrade, on values already read from the store.

use vstd::prelude::*;
use crate::models::{Building, Costs, EngineError, Fortress, UpdateBuilding, UpdateFortress};

verus! {

/// Whether the fortress holds at least the cost in every resource.
pub open spec fn spec_affords(fortress: Fortress, costs: Costs) -> bool {
    &&& fortress.gold >= costs.gold
    &&& fortress.food >= costs.food
    &&& fortress.wood >= costs.wood
    &&& fortress.energy >= costs.energy
}

/// The fortress after the costs have been taken from its counters.
pub open spec fn spec_debit(fortress: Fortress, costs: Costs) -> Fortress {
    Fortress {
        id: fortress.id,
        gold: (fortress.gold - costs.gold) as i32,
        food: (fortress.food - costs.food) as i32,
        wood: (fortress.wood - costs.wood) as i32,
        energy: (fortress.energy - costs.energy) as i32,
    }
}

/// Whether a request is well formed: a positive ceiling and no negative cost.
pub open spec fn spec_valid_request(max_level: i32, costs: Costs) -> bool {
    max_level > 0 && costs.wf()
}

/// Why a building at `level` cannot be raised, if it cannot: the caller's
/// token does not match the level, or the level has reached the ceiling.
pub open spec fn spec_level_refusal(level: i32, expected_level: Option<i32>, max_level: i32)
    -> Option<EngineError> {
    if expected_level is Some && expected_level != Some(level) {
        Some(EngineError::ConcurrentUpdate)
    } else if level >= max_level {
        Some(EngineError::MaxLevel)
    } else {
        None
    }
}

/// Why the upgrade of `building`, paid by `fortress`, is refused, if it is.
/// The first of these decides: a malformed request, a fortress that does not
/// own the building, a building at the ceiling, a fortress short of funds.
pub open spec fn spec_upgrade_refusal(
    fortress: Fortress,
    building: Building,
    costs: Costs,
    max_building_level: i32,
) -> Option<EngineError> {
    if !spec_valid_request(max_building_level, costs) {
        Some(EngineError::InvalidArgument)
    } else if fortress.id != building.fortress_id {
        Some(EngineError::FortressMismatch)
    } else if building.level >= max_building_level {
        Some(EngineError::MaxLevel)
    } else if !spec_affords(fortress, costs) {
        Some(EngineError::InsufficientResources)
    } else {
        None
    }
}

/// Whether the fortress holds at least the cost in every resource.
pub fn affords(fortress: &Fortress, costs: &Costs) -> (r: bool)
    ensures
        r == spec_affords(*fortress, *costs),
{
    fortress.gold >= costs.gold && fortress.food >= costs.food && fortress.wood >= costs.wood
        && fortress.energy >= costs.energy
}

/// Accepts a request with a positive ceiling and no negative cost, and
/// reports any other as an invalid argument.
pub fn validate_request(max_level: i32, costs: &Costs) -> (r: Result<(), EngineError>)
    ensures
        spec_valid_request(max_level, *costs) ==> r == Ok::<(), EngineError>(()),
        !spec_valid_request(max_level, *costs) ==> r == Err::<(), EngineError>(
            EngineError::InvalidArgument,
        ),
{
    if max_level <= 0 || costs.gold < 0 || costs.food < 0 || costs.wood < 0 || costs.energy < 0 {
        Err(EngineError::InvalidArgument)
    } else {
        Ok(())
    }
}

/// Checks the level read from the store against the caller's token, if there
/// is one, and then against the ceiling.
pub fn check_level(level: i32, expected_level: Option<i32>, max_level: i32) -> (r: Result<
    (),
    EngineError,
>)
    ensures
        match spec_level_refusal(level, expected_level, max_level) {
            Some(e) => r == Err::<(), EngineError>(e),
            None => r == Ok::<(), EngineError>(()),
        },
{
    if let Some(expected) = expected_level {
        if expected != level {
            return Err(EngineError::ConcurrentUpdate);
        }
    }
    if level >= max_level {
        return Err(EngineError::MaxLevel);
    }
    Ok(())
}

/// Tells apart the two reasons for which a debit touched no row: the
/// fortress is still there and short of funds, or it is gone.
pub fn classify_missed_debit(fortress_exists: bool) -> (r: EngineError)
    ensures
        fortress_exists ==> r == EngineError::InsufficientResources,
        !fortress_exists ==> r == EngineError::FortressNotFound,
{
    if fortress_exists {
        EngineError::InsufficientResources
    } else {
        EngineError::FortressNotFound
    }
}

/// Decides one upgrade on a fortress and a building as they were read: the
/// new counters of the fortress and the new level of the building, or the
/// reason for which nothing is to be written.
pub fn upgrade_building(
    fortress: &Fortress,
    building: &Building,
    costs: &Costs,
    max_building_level: i32,
) -> (r: Result<(UpdateFortress, UpdateBuilding), EngineError>)
    ensures
        match spec_upgrade_refusal(*fortress, *building, *costs, max_building_level) {
            Some(e) => r == Err::<(UpdateFortress, UpdateBuilding), EngineError>(e),
            None => {
                &&& r matches Ok((update_fortress, update_building))
                &&& update_fortress == (UpdateFortress {
                    gold: Some((fortress.gold - costs.gold) as i32),
                    food: Some((fortress.food - costs.food) as i32),
                    wood: Some((fortress.wood - costs.wood) as i32),
                    energy: Some((fortress.energy - costs.energy) as i32),
                })
                &&& update_building.name is None
                &&& update_building.level == Some((building.level + 1) as i32)
                &&& update_building.fortress_id is None
                &&& fortress.gold - costs.gold >= 0
                &&& fortress.food - costs.food >= 0
                &&& fortress.wood - costs.wood >= 0
                &&& fortress.energy - costs.energy >= 0
                &&& building.level + 1 <= max_building_level
            },
        },
{
    if validate_request(max_building_level, costs).is_err() {
        return Err(EngineError::InvalidArgument);
    }
    if fortress.id != building.fortress_id {
        return Err(EngineError::FortressMismatch);
    }
    if building.level >= max_building_level {
        return Err(EngineError::MaxLevel);
    }
    if !affords(fortress, costs) {
        return Err(EngineError::InsufficientResources);
    }
    let update_fortress = UpdateFortress {
        gold: Some(fortress.gold - costs.gold),
        food: Some(fortress.food - costs.food),
        wood: Some(fortress.wood - costs.wood),
        energy: Some(fortress.energy - costs.energy),
    };
    let update_building = UpdateBuilding {
        name: None,
        level: Some(building.level + 1),
        fortress_id: None,
    };
    Ok((update_fortress, update_building))
}

} // verus!
