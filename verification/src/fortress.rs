//! A fortress played alone: energy is spent to earn resources, and wood to
//! improve the buildings that decide how much each action brings in.

use vstd::prelude::*;

verus! {

/// A building of the solitary game.
#[derive(Clone, Debug, PartialEq, Eq)]
pub struct Building {
    pub name: String,
    pub level: i32,
}

/// A building under the key by which the fortress finds it.
#[derive(Clone, Debug, PartialEq, Eq)]
pub struct Slot {
    pub key: String,
    pub building: Building,
}

/// A fortress with its four counters and its buildings, each under a key
/// of its own.
#[derive(Clone, Debug, PartialEq, Eq)]
pub struct Fortress {
    pub gold: i32,
    pub food: i32,
    pub wood: i32,
    pub energy: i32,
    pub buildings: Vec<Slot>,
}

/// How an attempt to improve a building ended.
#[derive(Clone, Copy, Debug, PartialEq, Eq, Structural)]
pub enum Improvement {
    /// The wood was spent and the building is one level higher.
    Improved,
    /// The fortress holds less wood than twice the building's level.
    NotEnoughWood,
    /// No building stands under that key.
    NotFound,
}

/// Whether a building stands under `key`.
pub open spec fn has_key(slots: Seq<Slot>, key: Seq<char>) -> bool {
    exists|i: int| 0 <= i < slots.len() && slots[i].key@ == key
}

/// The row of the building under `key`, where there is one.
pub open spec fn key_row(slots: Seq<Slot>, key: Seq<char>) -> int {
    choose|i: int| 0 <= i < slots.len() && slots[i].key@ == key
}

/// The level of the building under `key`, where there is one.
pub open spec fn spec_level_of(slots: Seq<Slot>, key: Seq<char>) -> int {
    slots[key_row(slots, key)].building.level as int
}

/// No key occurs twice.
pub open spec fn keys_distinct(slots: Seq<Slot>) -> bool {
    forall|i: int, j: int| 0 <= i < j < slots.len() ==> slots[i].key@ != slots[j].key@
}

/// `base`, then each slot of `extra` in turn whose key is not yet taken.
pub open spec fn spec_merged(base: Seq<Slot>, extra: Seq<Slot>) -> Seq<Slot>
    decreases extra.len(),
{
    if extra.len() == 0 {
        base
    } else {
        let merged = spec_merged(base, extra.drop_last());
        if has_key(merged, extra.last().key@) {
            merged
        } else {
            merged.push(extra.last())
        }
    }
}

/// Whether `slots` are the three buildings a fortress starts with: a farm,
/// a sawmill and a sanctuary, each under its own name and at level 1.
pub open spec fn is_default_buildings(slots: Seq<Slot>) -> bool {
    &&& slots.len() == 3
    &&& slots[0].key@ == "farm"@
    &&& slots[1].key@ == "sawmill"@
    &&& slots[2].key@ == "sanctuary"@
    &&& forall|i: int|
        0 <= i < 3 ==> slots[i].building.name@ == slots[i].key@ && slots[i].building.level == 1
}

/// In slots with distinct keys the row of a key is the only row with it.
pub proof fn lemma_key_row_unique(slots: Seq<Slot>, key: Seq<char>, i: int)
    requires
        keys_distinct(slots),
        0 <= i < slots.len(),
        slots[i].key@ == key,
    ensures
        has_key(slots, key),
        key_row(slots, key) == i,
{
    let row = key_row(slots, key);
    assert(0 <= row < slots.len() && slots[row].key@ == key);
    if row < i {
        assert(slots[row].key@ != slots[i].key@);
    } else if i < row {
        assert(slots[i].key@ != slots[row].key@);
    }
}

/// Merging keeps distinct keys distinct, keeps every slot of `base` in its
/// row, and leaves a building under every key of `base` and of `extra`.
pub proof fn lemma_merged(base: Seq<Slot>, extra: Seq<Slot>)
    requires
        keys_distinct(base),
    ensures
        keys_distinct(spec_merged(base, extra)),
        base.len() <= spec_merged(base, extra).len(),
        forall|i: int| 0 <= i < base.len() ==> spec_merged(base, extra)[i] == base[i],
        forall|key: Seq<char>| has_key(base, key) ==> has_key(spec_merged(base, extra), key),
        forall|i: int| 0 <= i < extra.len() ==> has_key(spec_merged(base, extra), extra[i].key@),
        forall|key: Seq<char>|
            has_key(spec_merged(base, extra), key) ==> has_key(base, key) || has_key(extra, key),
    decreases extra.len(),
{
    let all = spec_merged(base, extra);
    if extra.len() == 0 {
        assert forall|key: Seq<char>| has_key(base, key) implies has_key(all, key) by {}
    } else {
        let rest = extra.drop_last();
        let last = extra.last();
        lemma_merged(base, rest);
        let merged = spec_merged(base, rest);
        assert forall|key: Seq<char>| has_key(base, key) implies has_key(all, key) by {
            let i = key_row(merged, key);
            assert(has_key(merged, key));
            assert(all[i].key@ == key);
        }
        assert forall|i: int| 0 <= i < extra.len() implies has_key(all, extra[i].key@) by {
            if i < rest.len() {
                assert(rest[i] == extra[i]);
                assert(has_key(merged, rest[i].key@));
                let row = key_row(merged, extra[i].key@);
                assert(all[row].key@ == extra[i].key@);
            } else {
                if has_key(merged, last.key@) {
                } else {
                    assert(all[merged.len() as int].key@ == last.key@);
                }
            }
        }
        assert forall|key: Seq<char>| has_key(all, key) implies has_key(base, key) || has_key(
            extra,
            key,
        ) by {
            let row = key_row(all, key);
            if row < merged.len() {
                assert(merged[row].key@ == key);
                assert(has_key(merged, key));
                if !has_key(base, key) {
                    let r = key_row(rest, key);
                    assert(extra[r].key@ == key);
                }
            } else {
                assert(extra[extra.len() - 1].key@ == key);
            }
        }
        assert(keys_distinct(all)) by {
            assert forall|i: int, j: int| 0 <= i < j < all.len() implies all[i].key@
                != all[j].key@ by {
                if j < merged.len() {
                    assert(merged[i].key@ != merged[j].key@);
                } else {
                    if all[i].key@ == all[j].key@ {
                        assert(merged[i].key@ == last.key@);
                        assert(has_key(merged, last.key@));
                    }
                }
            }
        }
    }
}

impl Building {
    /// A building of this name at level 1.
    pub fn from(name: &str) -> (r: Self)
        ensures
            r.name@ == name@,
            r.level == 1,
    {
        Building { name: name.to_owned(), level: 1 }
    }

    /// Raises the building by one level.
    pub fn improve(&mut self)
        requires
            old(self).level < i32::MAX,
        ensures
            final(self).level == old(self).level + 1,
            final(self).name == old(self).name,
    {
        self.level = self.level + 1;
    }

    /// The level of the building.
    pub fn level(&self) -> (r: i32)
        ensures
            r == self.level,
    {
        self.level
    }
}

/// The three buildings a fortress starts with.
pub fn default_buildings() -> (r: Vec<Slot>)
    ensures
        is_default_buildings(r@),
{
    let mut out: Vec<Slot> = Vec::new();
    out.push(Slot { key: "farm".to_owned(), building: Building::from("farm") });
    out.push(Slot { key: "sawmill".to_owned(), building: Building::from("sawmill") });
    out.push(Slot { key: "sanctuary".to_owned(), building: Building::from("sanctuary") });
    out
}

/// The row of the building under `key`.
pub fn find_key(slots: &Vec<Slot>, key: &str) -> (r: Option<usize>)
    ensures
        r is Some <==> has_key(slots@, key@),
        r matches Some(i) ==> i < slots@.len() && slots@[i as int].key@ == key@ && (keys_distinct(
            slots@,
        ) ==> i == key_row(slots@, key@)) && forall|k: int| 0 <= k < i ==> slots@[k].key@ != key@,
{
    let wanted = key.to_owned();
    let mut i: usize = 0;
    while i < slots.len()
        invariant
            i <= slots@.len(),
            wanted@ == key@,
            forall|k: int| 0 <= k < i ==> slots@[k].key@ != key@,
        decreases slots@.len() - i,
    {
        if slots[i].key == wanted {
            proof {
                if keys_distinct(slots@) {
                    lemma_key_row_unique(slots@, key@, i as int);
                }
            }
            return Some(i);
        }
        i = i + 1;
    }
    None
}

/// A slot with the same key and building.
pub fn copy_slot(slot: &Slot) -> (r: Slot)
    ensures
        r == *slot,
{
    Slot {
        key: slot.key.clone(),
        building: Building { name: slot.building.name.clone(), level: slot.building.level },
    }
}

/// Adds to `base` each slot of `extra` in turn whose key is not yet taken.
pub fn merge_slots(base: Vec<Slot>, extra: &Vec<Slot>) -> (r: Vec<Slot>)
    ensures
        r@ == spec_merged(base@, extra@),
{
    let ghost start = base@;
    let mut out = base;
    let mut i: usize = 0;
    while i < extra.len()
        invariant
            i <= extra@.len(),
            out@ == spec_merged(start, extra@.take(i as int)),
        decreases extra@.len() - i,
    {
        let slot = &extra[i];
        proof {
            assert(extra@.take(i + 1).drop_last() == extra@.take(i as int));
            assert(extra@.take(i + 1).last() == *slot);
        }
        if find_key(&out, slot.key.as_str()).is_none() {
            out.push(copy_slot(slot));
        }
        i = i + 1;
    }
    proof {
        assert(extra@.take(i as int) == extra@);
    }
    out
}

/// The slot with its building one level higher.
pub open spec fn spec_improved(slot: Slot) -> Slot {
    Slot {
        key: slot.key,
        building: Building { name: slot.building.name, level: (slot.building.level + 1) as i32 },
    }
}

impl Fortress {
    /// No key occurs twice, and a building stands under each of "farm",
    /// "sawmill" and "sanctuary".
    pub open spec fn wf(&self) -> bool {
        &&& keys_distinct(self.buildings@)
        &&& has_key(self.buildings@, "farm"@)
        &&& has_key(self.buildings@, "sawmill"@)
        &&& has_key(self.buildings@, "sanctuary"@)
    }

    /// The level of the building under `key`, where there is one.
    pub open spec fn spec_level(&self, key: Seq<char>) -> int {
        spec_level_of(self.buildings@, key)
    }

    /// A fortress that owns nothing but its three buildings.
    pub fn new() -> (r: Self)
        ensures
            r.wf(),
            r.gold == 0,
            r.food == 0,
            r.wood == 0,
            r.energy == 0,
            is_default_buildings(r.buildings@),
            r.spec_level("farm"@) == 1,
            r.spec_level("sawmill"@) == 1,
            r.spec_level("sanctuary"@) == 1,
    {
        let buildings = default_buildings();
        proof {
            lemma_defaults_wf(buildings@);
        }
        Fortress { gold: 0, food: 0, wood: 0, energy: 0, buildings }
    }

    /// A fortress with the given counters and buildings, as they come out
    /// of a save. Of two buildings under one key the first stays; each of
    /// the three buildings a fortress starts with is added where its key
    /// is missing.
    pub fn restore(gold: i32, food: i32, wood: i32, energy: i32, buildings: &Vec<Slot>) -> (r:
        Self)
        ensures
            r.wf(),
            r.gold == gold,
            r.food == food,
            r.wood == wood,
            r.energy == energy,
            exists|defaults: Seq<Slot>|
                is_default_buildings(defaults) && r.buildings@ == spec_merged(
                    spec_merged(Seq::<Slot>::empty(), buildings@),
                    defaults,
                ),
    {
        let saved = merge_slots(Vec::new(), buildings);
        let defaults = default_buildings();
        proof {
            lemma_merged(Seq::<Slot>::empty(), buildings@);
            lemma_merged(saved@, defaults@);
            assert(has_key(spec_merged(saved@, defaults@), defaults@[0].key@));
            assert(has_key(spec_merged(saved@, defaults@), defaults@[1].key@));
            assert(has_key(spec_merged(saved@, defaults@), defaults@[2].key@));
        }
        let all = merge_slots(saved, &defaults);
        Fortress { gold, food, wood, energy, buildings: all }
    }

    /// Whether the fortress is well formed: no key twice, and a building
    /// under each of "farm", "sawmill" and "sanctuary".
    pub fn is_well_formed(&self) -> (r: bool)
        ensures
            r == self.wf(),
    {
        let ghost slots = self.buildings@;
        let mut i: usize = 0;
        while i < self.buildings.len()
            invariant
                slots == self.buildings@,
                i <= slots.len(),
                forall|a: int, b: int| 0 <= a < b < i ==> slots[a].key@ != slots[b].key@,
            decreases slots.len() - i,
        {
            let mut j: usize = 0;
            while j < i
                invariant
                    slots == self.buildings@,
                    j <= i < slots.len(),
                    forall|a: int| 0 <= a < j ==> slots[a].key@ != slots[i as int].key@,
                decreases i - j,
            {
                if self.buildings[j].key == self.buildings[i].key {
                    proof {
                        assert(slots[j as int].key@ == slots[i as int].key@);
                    }
                    return false;
                }
                j = j + 1;
            }
            i = i + 1;
        }
        self.has_building("farm") && self.has_building("sawmill") && self.has_building(
            "sanctuary",
        )
    }

    /// Whether a building stands under `key`.
    pub fn has_building(&self, key: &str) -> (r: bool)
        ensures
            r == has_key(self.buildings@, key@),
    {
        find_key(&self.buildings, key).is_some()
    }

    /// The level of the building under `key`, if there is one.
    pub fn building_level(&self, key: &str) -> (r: Option<i32>)
        requires
            keys_distinct(self.buildings@),
        ensures
            r is Some <==> has_key(self.buildings@, key@),
            r matches Some(level) ==> level == self.spec_level(key@),
    {
        match find_key(&self.buildings, key) {
            Some(i) => Some(self.buildings[i].building.level()),
            None => None,
        }
    }

    /// The name of the building under `key`, if there is one.
    pub fn building_name(&self, key: &str) -> (r: Option<String>)
        requires
            keys_distinct(self.buildings@),
        ensures
            r is Some <==> has_key(self.buildings@, key@),
            r matches Some(name) ==> name == self.buildings@[key_row(
                self.buildings@,
                key@,
            )].building.name,
    {
        match find_key(&self.buildings, key) {
            Some(i) => Some(self.buildings[i].building.name.clone()),
            None => None,
        }
    }

    /// Spends `cost` energy where the fortress holds that much, and
    /// otherwise spends nothing and fails.
    pub fn use_energy(&mut self, cost: i32) -> (r: Result<(), ()>)
        requires
            old(self).energy - cost <= i32::MAX,
        ensures
            old(self).energy >= cost ==> r is Ok && *final(self) == (Fortress {
                energy: (old(self).energy - cost) as i32,
                ..*old(self)
            }),
            old(self).energy < cost ==> r is Err && *final(self) == *old(self),
    {
        if self.energy >= cost {
            self.energy = self.energy - cost;
            Ok(())
        } else {
            Err(())
        }
    }

    /// Spends `cost` wood where the fortress holds that much, and otherwise
    /// spends nothing and fails.
    pub fn use_wood(&mut self, cost: i32) -> (r: Result<(), ()>)
        requires
            old(self).wood - cost <= i32::MAX,
        ensures
            old(self).wood >= cost ==> r is Ok && *final(self) == (Fortress {
                wood: (old(self).wood - cost) as i32,
                ..*old(self)
            }),
            old(self).wood < cost ==> r is Err && *final(self) == *old(self),
    {
        if self.wood >= cost {
            self.wood = self.wood - cost;
            Ok(())
        } else {
            Err(())
        }
    }

    /// Spends one energy to earn one gold. Returns whether there was energy
    /// to spend; where there was none nothing changes.
    pub fn earn_gold(&mut self) -> (r: bool)
        requires
            old(self).energy >= 1 ==> old(self).gold < i32::MAX,
        ensures
            r == (old(self).energy >= 1),
            r ==> *final(self) == (Fortress {
                gold: (old(self).gold + 1) as i32,
                energy: (old(self).energy - 1) as i32,
                ..*old(self)
            }),
            !r ==> *final(self) == *old(self),
    {
        if self.use_energy(1).is_ok() {
            self.gold = self.gold + 1;
            true
        } else {
            false
        }
    }

    /// Spends one energy to gather as much food as the farm has levels.
    /// Returns whether there was energy to spend; where there was none
    /// nothing changes.
    pub fn gather_food(&mut self) -> (r: bool)
        requires
            old(self).wf(),
            old(self).energy >= 1 ==> i32::MIN <= old(self).food + old(self).spec_level("farm"@)
                <= i32::MAX,
        ensures
            r == (old(self).energy >= 1),
            r ==> *final(self) == (Fortress {
                food: (old(self).food + old(self).spec_level("farm"@)) as i32,
                energy: (old(self).energy - 1) as i32,
                ..*old(self)
            }),
            !r ==> *final(self) == *old(self),
    {
        if self.use_energy(1).is_ok() {
            let level = self.building_level("farm").unwrap();
            self.food = self.food + level;
            true
        } else {
            false
        }
    }

    /// Spends one energy to fell as much wood as the sawmill has levels.
    /// Returns whether there was energy to spend; where there was none
    /// nothing changes.
    pub fn fell_trees(&mut self) -> (r: bool)
        requires
            old(self).wf(),
            old(self).energy >= 1 ==> i32::MIN <= old(self).wood + old(self).spec_level(
                "sawmill"@,
            ) <= i32::MAX,
        ensures
            r == (old(self).energy >= 1),
            r ==> *final(self) == (Fortress {
                wood: (old(self).wood + old(self).spec_level("sawmill"@)) as i32,
                energy: (old(self).energy - 1) as i32,
                ..*old(self)
            }),
            !r ==> *final(self) == *old(self),
    {
        if self.use_energy(1).is_ok() {
            let level = self.building_level("sawmill").unwrap();
            self.wood = self.wood + level;
            true
        } else {
            false
        }
    }

    /// Collects as much energy as the sanctuary has levels.
    pub fn collect_energy(&mut self)
        requires
            old(self).wf(),
            i32::MIN <= old(self).energy + old(self).spec_level("sanctuary"@) <= i32::MAX,
        ensures
            *final(self) == (Fortress {
                energy: (old(self).energy + old(self).spec_level("sanctuary"@)) as i32,
                ..*old(self)
            }),
    {
        let level = self.building_level("sanctuary").unwrap();
        self.energy = self.energy + level;
    }

    /// Raises the building under `key` by one level for twice its level in
    /// wood. Where no building stands under `key`, or the wood does not
    /// reach, nothing changes.
    pub fn improve(&mut self, key: &str) -> (r: Improvement)
        requires
            old(self).wf(),
            has_key(old(self).buildings@, key@) ==> {
                let level = old(self).spec_level(key@);
                &&& i32::MIN <= 2 * level <= i32::MAX
                &&& old(self).wood >= 2 * level ==> level < i32::MAX && old(self).wood - 2 * level
                    <= i32::MAX
            },
        ensures
            final(self).wf(),
            !has_key(old(self).buildings@, key@) ==> r == Improvement::NotFound && *final(self)
                == *old(self),
            has_key(old(self).buildings@, key@) && old(self).wood < 2 * old(self).spec_level(key@)
                ==> r == Improvement::NotEnoughWood && *final(self) == *old(self),
            has_key(old(self).buildings@, key@) && old(self).wood >= 2 * old(self).spec_level(key@)
                ==> {
                let row = key_row(old(self).buildings@, key@);
                &&& r == Improvement::Improved
                &&& final(self).gold == old(self).gold
                &&& final(self).food == old(self).food
                &&& final(self).energy == old(self).energy
                &&& final(self).wood == old(self).wood - 2 * old(self).spec_level(key@)
                &&& final(self).buildings@ == old(self).buildings@.update(
                    row,
                    spec_improved(old(self).buildings@[row]),
                )
                &&& final(self).spec_level(key@) == old(self).spec_level(key@) + 1
            },
    {
        let row = match find_key(&self.buildings, key) {
            Some(row) => row,
            None => {
                return Improvement::NotFound;
            },
        };
        let level = self.buildings[row].building.level();
        if self.use_wood(level * 2).is_err() {
            return Improvement::NotEnoughWood;
        }
        let before = &self.buildings[row];
        let mut building = Building { name: before.building.name.clone(), level };
        building.improve();
        let after = Slot { key: before.key.clone(), building };
        self.buildings[row] = after;
        proof {
            lemma_update_keeps_keys(old(self).buildings@, row as int, self.buildings@[row as int]);
        }
        Improvement::Improved
    }
}

impl Default for Fortress {
    fn default() -> (r: Self)
        ensures
            r.wf(),
            r.gold == 0,
            r.food == 0,
            r.wood == 0,
            r.energy == 0,
            is_default_buildings(r.buildings@),
    {
        Fortress::new()
    }
}

/// The three buildings a fortress starts with stand under distinct keys.
pub proof fn lemma_defaults_wf(slots: Seq<Slot>)
    requires
        is_default_buildings(slots),
    ensures
        keys_distinct(slots),
        has_key(slots, "farm"@),
        has_key(slots, "sawmill"@),
        has_key(slots, "sanctuary"@),
        spec_level_of(slots, "farm"@) == 1,
        spec_level_of(slots, "sawmill"@) == 1,
        spec_level_of(slots, "sanctuary"@) == 1,
{
    reveal_strlit("farm");
    reveal_strlit("sawmill");
    reveal_strlit("sanctuary");
    assert("farm"@.len() == 4);
    assert("sawmill"@.len() == 7);
    assert("sanctuary"@.len() == 9);
    assert(slots[0].key@ == "farm"@);
    assert(slots[1].key@ == "sawmill"@);
    assert(slots[2].key@ == "sanctuary"@);
    assert(keys_distinct(slots));
    lemma_key_row_unique(slots, "farm"@, 0);
    lemma_key_row_unique(slots, "sawmill"@, 1);
    lemma_key_row_unique(slots, "sanctuary"@, 2);
}

/// Replacing a slot by one with the same key keeps the keys distinct,
/// keeps every key where it was, and moves no row.
pub proof fn lemma_update_keeps_keys(slots: Seq<Slot>, row: int, slot: Slot)
    requires
        keys_distinct(slots),
        0 <= row < slots.len(),
        slot.key@ == slots[row].key@,
    ensures
        keys_distinct(slots.update(row, slot)),
        forall|key: Seq<char>| has_key(slots.update(row, slot), key) == has_key(slots, key),
        forall|key: Seq<char>|
            has_key(slots, key) ==> key_row(slots.update(row, slot), key) == key_row(slots, key),
{
    let next = slots.update(row, slot);
    assert forall|i: int, j: int| 0 <= i < j < next.len() implies next[i].key@
        != next[j].key@ by {
        assert(slots[i].key@ != slots[j].key@);
    }
    assert forall|key: Seq<char>| has_key(next, key) == has_key(slots, key) by {
        if has_key(slots, key) {
            let i = key_row(slots, key);
            assert(next[i].key@ == key);
        }
        if has_key(next, key) {
            let i = key_row(next, key);
            assert(slots[i].key@ == key);
        }
    }
    assert forall|key: Seq<char>| has_key(slots, key) implies key_row(next, key) == key_row(
        slots,
        key,
    ) by {
        let i = key_row(slots, key);
        assert(next[i].key@ == key);
        lemma_key_row_unique(next, key, i);
    }
}

} // verus!
