//! The two transactions of the economy: collecting a resource and upgrading
//! a building. Each either goes through as a whole or leaves the tables as
//! they were.

use vstd::prelude::*;
use crate::bonus::{
    designated_building, lemma_level_sum_nonnegative, level_sum, spec_bonus,
    spec_designated_building, spec_level_sum, wide_level_sum,
};
use crate::machine::{lemma_run_is_the_transaction, UpgradeRequest};
use crate::models::{Building, Costs, EngineError, Fortress, ResourceKind, UpdateFortress};
use crate::store::{lemma_with_fortress_wf, spec_raised, Store, StoreView};
use crate::upgrade::{spec_affords, spec_debit, spec_level_refusal, spec_valid_request};

verus! {

/// The amount collected before the bonus where the caller names none.
pub const DEFAULT_BASE: i32 = 1;

/// The base amount of a collection: the caller's, or 1.
pub open spec fn spec_base(base: Option<i32>) -> int {
    match base {
        Some(amount) => amount as int,
        None => 1,
    }
}

/// The fortress with the counter of `kind` set to `amount`.
pub open spec fn spec_with_amount(fortress: Fortress, kind: ResourceKind, amount: int) -> Fortress {
    match kind {
        ResourceKind::Gold => Fortress {
            id: fortress.id,
            gold: amount as i32,
            food: fortress.food,
            wood: fortress.wood,
            energy: fortress.energy,
        },
        ResourceKind::Food => Fortress {
            id: fortress.id,
            gold: fortress.gold,
            food: amount as i32,
            wood: fortress.wood,
            energy: fortress.energy,
        },
        ResourceKind::Wood => Fortress {
            id: fortress.id,
            gold: fortress.gold,
            food: fortress.food,
            wood: amount as i32,
            energy: fortress.energy,
        },
        ResourceKind::Energy => Fortress {
            id: fortress.id,
            gold: fortress.gold,
            food: fortress.food,
            wood: fortress.wood,
            energy: amount as i32,
        },
    }
}

/// What the counter of `kind` holds after one collection: what it held, the
/// base, and the levels of the fortress's own designated buildings.
pub open spec fn spec_collected_amount(
    v: StoreView,
    fortress_id: i32,
    kind: ResourceKind,
    base: Option<i32>,
) -> int {
    v.fortress(fortress_id).spec_amount(kind) + spec_base(base) + spec_level_sum(
        v.buildings,
        Some(fortress_id),
        spec_designated_building(kind),
    )
}

/// Why a collection is refused, if it is. The first of these decides: a
/// negative base, no fortress of that id, a counter that would leave the
/// range the store can hold.
pub open spec fn spec_collect_refusal(
    v: StoreView,
    fortress_id: i32,
    kind: ResourceKind,
    base: Option<i32>,
) -> Option<EngineError> {
    if spec_base(base) < 0 {
        Some(EngineError::InvalidArgument)
    } else if !v.has_fortress(fortress_id) {
        Some(EngineError::FortressNotFound)
    } else if spec_collected_amount(v, fortress_id, kind, base) > i32::MAX {
        Some(EngineError::Internal)
    } else {
        None
    }
}

/// The tables after a collection: as they were where it is refused, else
/// with the one counter raised.
pub open spec fn spec_collect_next(
    v: StoreView,
    fortress_id: i32,
    kind: ResourceKind,
    base: Option<i32>,
) -> StoreView {
    if spec_collect_refusal(v, fortress_id, kind, base) is Some {
        v
    } else {
        v.with_fortress(
            v.fortress_row(fortress_id),
            spec_with_amount(
                v.fortress(fortress_id),
                kind,
                spec_collected_amount(v, fortress_id, kind, base),
            ),
        )
    }
}

/// Why an upgrade is refused, if it is. The first of these decides: a
/// malformed request, no building of that id, a token that does not match
/// the level, a building at the ceiling, an owner that is gone, an owner
/// short of funds.
pub open spec fn spec_upgrade_refusal_in(
    v: StoreView,
    building_id: i32,
    max_level: i32,
    costs: Costs,
    expected_level: Option<i32>,
) -> Option<EngineError> {
    if !spec_valid_request(max_level, costs) {
        Some(EngineError::InvalidArgument)
    } else if !v.has_building(building_id) {
        Some(EngineError::BuildingNotFound)
    } else {
        let building = v.building(building_id);
        let refusal = spec_level_refusal(building.level, expected_level, max_level);
        if refusal is Some {
            refusal
        } else if !v.has_fortress(building.fortress_id) {
            Some(EngineError::FortressNotFound)
        } else if !spec_affords(v.fortress(building.fortress_id), costs) {
            Some(EngineError::InsufficientResources)
        } else {
            None
        }
    }
}

/// The tables after an upgrade: as they were where it is refused, else with
/// the owner debited and the building one level higher.
pub open spec fn spec_upgrade_next(
    v: StoreView,
    building_id: i32,
    max_level: i32,
    costs: Costs,
    expected_level: Option<i32>,
) -> StoreView {
    if spec_upgrade_refusal_in(v, building_id, max_level, costs, expected_level) is Some {
        v
    } else {
        let building = v.building(building_id);
        StoreView {
            fortresses: v.fortresses.update(
                v.fortress_row(building.fortress_id),
                spec_debit(v.fortress(building.fortress_id), costs),
            ),
            buildings: v.buildings.update(v.building_row(building_id), spec_raised(building)),
        }
    }
}

/// The fortress with the counter of `kind` set to `amount`.
pub fn with_amount(fortress: &Fortress, kind: ResourceKind, amount: i32) -> (r: Fortress)
    ensures
        r == spec_with_amount(*fortress, kind, amount as int),
{
    let mut out = *fortress;
    match kind {
        ResourceKind::Gold => {
            out.gold = amount;
        },
        ResourceKind::Food => {
            out.food = amount;
        },
        ResourceKind::Wood => {
            out.wood = amount;
        },
        ResourceKind::Energy => {
            out.energy = amount;
        },
    }
    out
}

/// The update that sets the counter of `kind` to `amount` and leaves the
/// other three as they are.
pub open spec fn spec_update_of(kind: ResourceKind, amount: i32) -> UpdateFortress {
    match kind {
        ResourceKind::Gold => UpdateFortress {
            gold: Some(amount),
            food: None,
            wood: None,
            energy: None,
        },
        ResourceKind::Food => UpdateFortress {
            gold: None,
            food: Some(amount),
            wood: None,
            energy: None,
        },
        ResourceKind::Wood => UpdateFortress {
            gold: None,
            food: None,
            wood: Some(amount),
            energy: None,
        },
        ResourceKind::Energy => UpdateFortress {
            gold: None,
            food: None,
            wood: None,
            energy: Some(amount),
        },
    }
}

/// What one collection makes of a counter, given the fortress and the list
/// of its buildings as they were read: what it held, the base (1 where none
/// is given) and the bonus.
pub open spec fn spec_planned_amount(
    fortress: Fortress,
    buildings: Seq<Building>,
    kind: ResourceKind,
    base: Option<i32>,
) -> int {
    fortress.spec_amount(kind) + spec_base(base) + spec_bonus(
        buildings,
        spec_designated_building(kind),
    )
}

/// Decides one collection on a fortress and the list of its buildings as
/// they were read: the update that raises the one counter. A negative base
/// is an invalid argument; an amount that is no `i32` is reported as an
/// internal error.
pub fn collect_update(
    fortress: &Fortress,
    buildings: &[Building],
    kind: ResourceKind,
    base: Option<i32>,
) -> (r: Result<UpdateFortress, EngineError>)
    ensures
        spec_base(base) < 0 ==> r == Err::<UpdateFortress, EngineError>(
            EngineError::InvalidArgument,
        ),
        spec_base(base) >= 0 && !(i32::MIN <= spec_planned_amount(
            *fortress,
            buildings@,
            kind,
            base,
        ) <= i32::MAX) ==> r == Err::<UpdateFortress, EngineError>(EngineError::Internal),
        spec_base(base) >= 0 && i32::MIN <= spec_planned_amount(*fortress, buildings@, kind, base)
            <= i32::MAX ==> r == Ok::<UpdateFortress, EngineError>(
            spec_update_of(kind, spec_planned_amount(*fortress, buildings@, kind, base) as i32),
        ),
{
    let amount = match base {
        Some(amount) => amount,
        None => DEFAULT_BASE,
    };
    if amount < 0 {
        return Err(EngineError::InvalidArgument);
    }
    let bonus = wide_level_sum(buildings, None, designated_building(kind));
    let total: i128 = fortress.amount(kind) as i128 + amount as i128 + bonus;
    if total < -0x8000_0000 || total > 0x7fff_ffff {
        return Err(EngineError::Internal);
    }
    let amount = total as i32;
    Ok(
        match kind {
            ResourceKind::Gold => UpdateFortress {
                gold: Some(amount),
                food: None,
                wood: None,
                energy: None,
            },
            ResourceKind::Food => UpdateFortress {
                gold: None,
                food: Some(amount),
                wood: None,
                energy: None,
            },
            ResourceKind::Wood => UpdateFortress {
                gold: None,
                food: None,
                wood: Some(amount),
                energy: None,
            },
            ResourceKind::Energy => UpdateFortress {
                gold: None,
                food: None,
                wood: None,
                energy: Some(amount),
            },
        },
    )
}

impl Store {
    /// Adds to one counter of a fortress the base amount (1 where none is
    /// given) and the levels of the fortress's own buildings of the name
    /// designated for `kind`, and returns the fortress as it then stands.
    /// Where the collection is refused the tables stay as they were.
    pub fn collect_resource(&mut self, fortress_id: i32, kind: ResourceKind, base: Option<i32>) -> (r:
        Result<Fortress, EngineError>)
        requires
            old(self)@.wf(),
        ensures
            final(self)@.wf(),
            final(self)@ == spec_collect_next(old(self)@, fortress_id, kind, base),
            match spec_collect_refusal(old(self)@, fortress_id, kind, base) {
                Some(e) => r == Err::<Fortress, EngineError>(e) && final(self)@ == old(self)@,
                None => r == Ok::<Fortress, EngineError>(
                    spec_with_amount(
                        old(self)@.fortress(fortress_id),
                        kind,
                        spec_collected_amount(old(self)@, fortress_id, kind, base),
                    ),
                ),
            },
            r matches Ok(f) ==> f.spec_amount(kind) >= old(self)@.fortress(fortress_id).spec_amount(
                kind,
            ),
    {
        let amount = match base {
            Some(amount) => amount,
            None => DEFAULT_BASE,
        };
        if amount < 0 {
            return Err(EngineError::InvalidArgument);
        }
        let row = match self.find_fortress(fortress_id) {
            Some(row) => row,
            None => {
                return Err(EngineError::FortressNotFound);
            },
        };
        let before = self.fortresses[row];
        proof {
            lemma_level_sum_nonnegative(
                self@.buildings,
                Some(fortress_id),
                spec_designated_building(kind),
            );
        }
        let bonus = match level_sum(
            self.buildings.as_slice(),
            Some(fortress_id),
            designated_building(kind),
        ) {
            Some(bonus) => bonus,
            None => {
                return Err(EngineError::Internal);
            },
        };
        let total: i64 = before.amount(kind) as i64 + amount as i64 + bonus as i64;
        if total > 0x7fff_ffff {
            return Err(EngineError::Internal);
        }
        let after = with_amount(&before, kind, total as i32);
        self.fortresses[row] = after;
        proof {
            lemma_with_fortress_wf(old(self)@, row as int, after);
            assert(self@ == old(self)@.with_fortress(row as int, after));
        }
        Ok(after)
    }

    /// Raises a building by one level and takes the costs from its owner, or
    /// does neither. The upgrade is run statement by statement, as
    /// `run_upgrade` does; what comes of it is stated here as a whole.
    pub fn upgrade_building(
        &mut self,
        building_id: i32,
        max_level: i32,
        costs: &Costs,
        expected_level: Option<i32>,
    ) -> (r: Result<(Fortress, Building), EngineError>)
        requires
            old(self)@.wf(),
        ensures
            final(self)@.wf(),
            final(self)@ == spec_upgrade_next(
                old(self)@,
                building_id,
                max_level,
                *costs,
                expected_level,
            ),
            match spec_upgrade_refusal_in(
                old(self)@,
                building_id,
                max_level,
                *costs,
                expected_level,
            ) {
                Some(e) => r == Err::<(Fortress, Building), EngineError>(e) && final(self)@ == old(
                    self,
                )@,
                None => r == Ok::<(Fortress, Building), EngineError>(
                    (
                        spec_debit(
                            old(self)@.fortress(old(self)@.building(building_id).fortress_id),
                            *costs,
                        ),
                        spec_raised(old(self)@.building(building_id)),
                    ),
                ),
            },
    {
        let request = UpgradeRequest {
            building_id,
            max_level,
            costs: *costs,
            expected_level,
        };
        proof {
            lemma_run_is_the_transaction(request, self@);
        }
        self.run_upgrade(&request)
    }
}

} // verus!
