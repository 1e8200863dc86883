//! The bonus that a fortress's buildings add to each collection.

use vstd::prelude::*;
use crate::models::{Building, ResourceKind};

verus! {

/// The name of the one building that feeds the bonus of `kind`.
pub open spec fn spec_designated_building(kind: ResourceKind) -> Seq<char> {
    match kind {
        ResourceKind::Gold => "bank"@,
        ResourceKind::Food => "farm"@,
        ResourceKind::Wood => "sawmill"@,
        ResourceKind::Energy => "sanctuary"@,
    }
}

/// Whether a building counts towards a bonus: its name is `name` and, where
/// an owner is asked for, it belongs to that fortress.
pub open spec fn counts(building: Building, owner: Option<i32>, name: Seq<char>) -> bool {
    &&& building.name@ == name
    &&& (owner matches Some(id) ==> building.fortress_id == id)
}

/// The sum of the levels of the buildings that count.
pub open spec fn spec_level_sum(buildings: Seq<Building>, owner: Option<i32>, name: Seq<char>) -> int
    decreases buildings.len(),
{
    if buildings.len() == 0 {
        0
    } else {
        spec_level_sum(buildings.drop_last(), owner, name) + if counts(
            buildings.last(),
            owner,
            name,
        ) {
            buildings.last().level as int
        } else {
            0
        }
    }
}

/// The bonus that a list of buildings gives to the resource fed by the
/// building called `name`: the sum of the levels of the buildings of that name.
pub open spec fn spec_bonus(buildings: Seq<Building>, name: Seq<char>) -> int {
    spec_level_sum(buildings, None, name)
}

/// The name of the one building that feeds the bonus of `kind`.
pub fn designated_building(kind: ResourceKind) -> (r: &'static str)
    ensures
        r@ == spec_designated_building(kind),
{
    match kind {
        ResourceKind::Gold => "bank",
        ResourceKind::Food => "farm",
        ResourceKind::Wood => "sawmill",
        ResourceKind::Energy => "sanctuary",
    }
}

/// The sum of the levels of the buildings called `name` (of `owner` only,
/// where one is given), in a type wide enough for any list.
pub fn wide_level_sum(buildings: &[Building], owner: Option<i32>, name: &str) -> (r: i128)
    ensures
        r == spec_level_sum(buildings@, owner, name@),
        -0x8000_0000_0000_0000_0000_0000 <= r <= 0x8000_0000_0000_0000_0000_0000,
{
    let wanted = name.to_owned();
    let mut total: i128 = 0;
    let mut i: usize = 0;
    while i < buildings.len()
        invariant
            i <= buildings.len(),
            wanted@ == name@,
            total == spec_level_sum(buildings@.take(i as int), owner, name@),
            -(i as int) * 0x8000_0000 <= total <= (i as int) * 0x8000_0000,
        decreases buildings.len() - i,
    {
        let building = &buildings[i];
        let owned = match owner {
            Some(id) => building.fortress_id == id,
            None => true,
        };
        proof {
            assert(buildings@.take(i + 1).drop_last() == buildings@.take(i as int));
            assert(buildings@.take(i + 1).last() == buildings@[i as int]);
            assert((i as int) * 0x8000_0000 + 0x8000_0000 == (i + 1) * 0x8000_0000)
                by (nonlinear_arith);
            assert((i + 1) * 0x8000_0000 <= 0x1_0000_0000_0000_0000 * 0x8000_0000)
                by (nonlinear_arith)
                requires
                    i + 1 <= 0x1_0000_0000_0000_0000,
            ;
        }
        if owned && building.name == wanted {
            total = total + building.level as i128;
        }
        i = i + 1;
    }
    proof {
        assert(buildings@.take(i as int) == buildings@);
        assert((i as int) * 0x8000_0000 <= 0x1_0000_0000_0000_0000 * 0x8000_0000)
            by (nonlinear_arith)
            requires
                i <= 0x1_0000_0000_0000_0000,
        ;
    }
    total
}

/// The sum of the levels of the buildings called `name` (of `owner` only,
/// where one is given), or `None` where that sum is no `i32`.
pub fn level_sum(buildings: &[Building], owner: Option<i32>, name: &str) -> (r: Option<i32>)
    ensures
        r matches Some(sum) ==> sum == spec_level_sum(buildings@, owner, name@),
        r is Some <==> i32::MIN <= spec_level_sum(buildings@, owner, name@) <= i32::MAX,
{
    let total = wide_level_sum(buildings, owner, name);
    if total < -0x8000_0000 || total > 0x7fff_ffff {
        None
    } else {
        Some(total as i32)
    }
}

/// The bonus of the resource fed by the building called `name`, or `None`
/// where it is no `i32`.
pub fn checked_bonus(buildings: &[Building], name: &str) -> (r: Option<i32>)
    ensures
        r matches Some(bonus) ==> bonus == spec_bonus(buildings@, name@),
        r is Some <==> i32::MIN <= spec_bonus(buildings@, name@) <= i32::MAX,
{
    level_sum(buildings, None, name)
}

/// The bonus added to each collection of `kind`.
pub fn get_bonus(buildings: &[Building], kind: ResourceKind) -> (r: i32)
    requires
        i32::MIN <= spec_bonus(buildings@, spec_designated_building(kind)) <= i32::MAX,
    ensures
        r == spec_bonus(buildings@, spec_designated_building(kind)),
{
    wide_level_sum(buildings, None, designated_building(kind)) as i32
}

/// The bonus on gold: the sum of the levels of the banks.
pub fn get_gold_bonus(buildings: &[Building]) -> (r: i32)
    requires
        i32::MIN <= spec_bonus(buildings@, "bank"@) <= i32::MAX,
    ensures
        r == spec_bonus(buildings@, "bank"@),
{
    get_bonus(buildings, ResourceKind::Gold)
}

/// The bonus on food: the sum of the levels of the farms.
pub fn get_food_bonus(buildings: &[Building]) -> (r: i32)
    requires
        i32::MIN <= spec_bonus(buildings@, "farm"@) <= i32::MAX,
    ensures
        r == spec_bonus(buildings@, "farm"@),
{
    get_bonus(buildings, ResourceKind::Food)
}

/// The bonus on wood: the sum of the levels of the sawmills.
pub fn get_wood_bonus(buildings: &[Building]) -> (r: i32)
    requires
        i32::MIN <= spec_bonus(buildings@, "sawmill"@) <= i32::MAX,
    ensures
        r == spec_bonus(buildings@, "sawmill"@),
{
    get_bonus(buildings, ResourceKind::Wood)
}

/// The bonus on energy: the sum of the levels of the sanctuaries.
pub fn get_energy_bonus(buildings: &[Building]) -> (r: i32)
    requires
        i32::MIN <= spec_bonus(buildings@, "sanctuary"@) <= i32::MAX,
    ensures
        r == spec_bonus(buildings@, "sanctuary"@),
{
    get_bonus(buildings, ResourceKind::Energy)
}

/// No two kinds of resource are fed by a building of the same name, so a
/// building adds to the bonus of one kind at most.
pub proof fn lemma_designated_buildings_differ(a: ResourceKind, b: ResourceKind)
    requires
        a != b,
    ensures
        spec_designated_building(a) != spec_designated_building(b),
{
    reveal_strlit("bank");
    reveal_strlit("farm");
    reveal_strlit("sawmill");
    reveal_strlit("sanctuary");
    assert("bank"@[0] == 'b');
    assert("farm"@[0] == 'f');
    assert("sawmill"@[2] == 'w');
    assert("sanctuary"@[2] == 'n');
    assert("sawmill"@[0] == 's');
    assert("sanctuary"@[0] == 's');
}

/// An empty list of buildings gives no bonus.
pub proof fn lemma_bonus_empty(name: Seq<char>)
    ensures
        spec_bonus(Seq::<Building>::empty(), name) == 0,
{
}

/// One more building adds its level where it counts, and nothing otherwise.
pub proof fn lemma_level_sum_push(
    buildings: Seq<Building>,
    building: Building,
    owner: Option<i32>,
    name: Seq<char>,
)
    ensures
        counts(building, owner, name) ==> spec_level_sum(buildings.push(building), owner, name)
            == spec_level_sum(buildings, owner, name) + building.level,
        !counts(building, owner, name) ==> spec_level_sum(buildings.push(building), owner, name)
            == spec_level_sum(buildings, owner, name),
{
    assert(buildings.push(building).drop_last() == buildings);
}

/// Buildings whose levels are not negative give no negative bonus.
pub proof fn lemma_level_sum_nonnegative(
    buildings: Seq<Building>,
    owner: Option<i32>,
    name: Seq<char>,
)
    requires
        forall|i: int| 0 <= i < buildings.len() ==> buildings[i].level >= 0,
    ensures
        spec_level_sum(buildings, owner, name) >= 0,
    decreases buildings.len(),
{
    if buildings.len() > 0 {
        lemma_level_sum_nonnegative(buildings.drop_last(), owner, name);
    }
}

} // verus!
