//! The integer side of the cost model: which level a request is priced at,
//! and how one cost figure is split over the four resources.

use vstd::prelude::*;
use crate::models::{Costs, EngineError};

verus! {

/// The level a cost is computed for: nothing is cheaper than level 1.
pub open spec fn spec_effective_level(level: int) -> int {
    if level < 1 { 1 } else { level }
}

/// `a` divided by a positive `d`, rounded towards zero.
pub open spec fn spec_share(a: int, d: int) -> int {
    if a >= 0 { a / d } else { -((-a) / d) }
}

/// The four shares of one cost figure: half in gold, all of it in food, a
/// fifth in wood and a tenth in energy, each rounded towards zero.
pub open spec fn spec_costs(cost: int) -> Costs {
    Costs {
        gold: spec_share(cost, 2) as i32,
        food: cost as i32,
        wood: spec_share(cost, 5) as i32,
        energy: spec_share(cost, 10) as i32,
    }
}

/// Whether a cost curve can be calibrated for this highest level: it needs
/// more than one level to rise over.
pub open spec fn spec_valid_level_max(level_max: i32) -> bool {
    level_max > 1
}

/// Accepts a highest level above 1 and reports any other as an invalid
/// argument, so that a configuration without a cost curve is turned down
/// before any request is priced with it.
pub fn validate_level_max(level_max: i32) -> (r: Result<(), EngineError>)
    ensures
        spec_valid_level_max(level_max) ==> r == Ok::<(), EngineError>(()),
        !spec_valid_level_max(level_max) ==> r == Err::<(), EngineError>(
            EngineError::InvalidArgument,
        ),
{
    if level_max > 1 {
        Ok(())
    } else {
        Err(EngineError::InvalidArgument)
    }
}

/// The level that the cost curve is read at: `level`, or 1 where `level` is
/// below 1.
pub fn effective_level(level: i32) -> (r: i32)
    ensures
        r == spec_effective_level(level as int),
        r >= 1,
{
    if level < 1 { 1 } else { level }
}

/// Splits the cost of one upgrade over the four resources.
pub fn get_costs(cost: i32) -> (r: Costs)
    ensures
        r == spec_costs(cost as int),
        r.gold == spec_share(cost as int, 2),
        r.food == cost,
        r.wood == spec_share(cost as int, 5),
        r.energy == spec_share(cost as int, 10),
        cost >= 0 ==> r.wf(),
{
    Costs { gold: cost / 2, food: cost, wood: cost / 5, energy: cost / 10 }
}

/// A higher cost figure never lowers any of the four shares.
pub proof fn lemma_costs_monotonic(a: int, b: int)
    requires
        i32::MIN <= a <= b <= i32::MAX,
    ensures
        spec_costs(a).gold <= spec_costs(b).gold,
        spec_costs(a).food <= spec_costs(b).food,
        spec_costs(a).wood <= spec_costs(b).wood,
        spec_costs(a).energy <= spec_costs(b).energy,
{
}

/// No share exceeds the cost figure it was taken from, so none exceeds a
/// ceiling that the figure respects.
pub proof fn lemma_costs_bounded(cost: int, cost_max: int)
    requires
        0 <= cost <= cost_max <= i32::MAX,
    ensures
        0 <= spec_costs(cost).gold <= cost_max,
        0 <= spec_costs(cost).food <= cost_max,
        0 <= spec_costs(cost).wood <= cost_max,
        0 <= spec_costs(cost).energy <= cost_max,
{
}

/// Raising the level never lowers the level a cost is computed for.
pub proof fn lemma_effective_level_monotonic(a: int, b: int)
    requires
        a <= b,
    ensures
        1 <= spec_effective_level(a) <= spec_effective_level(b),
        spec_effective_level(a) == spec_effective_level(spec_effective_level(a)),
{
}

} // verus!
