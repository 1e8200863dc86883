//! New rows: the store gives each an id of its own, and a new fortress
//! comes with its four buildings.

use vstd::prelude::*;
use crate::models::{default_new_buildings, Building, EngineError, Fortress, NewBuilding, NewFortress};
use crate::store::{copy_building, Store, StoreView};

verus! {

impl StoreView {
    /// Whether `id` is the id that the next fortress gets: one above the
    /// highest in the table, and 1 where none is positive.
    pub open spec fn is_next_fortress_id(self, id: int) -> bool {
        &&& id >= 1
        &&& forall|i: int| 0 <= i < self.fortresses.len() ==> self.fortresses[i].id < id
        &&& id == 1 || exists|i: int|
            0 <= i < self.fortresses.len() && self.fortresses[i].id == id - 1
    }

    /// Whether `id` is the id that the next building gets: one above the
    /// highest in the table, and 1 where none is positive.
    pub open spec fn is_next_building_id(self, id: int) -> bool {
        &&& id >= 1
        &&& forall|i: int| 0 <= i < self.buildings.len() ==> self.buildings[i].id < id
        &&& id == 1 || exists|i: int|
            0 <= i < self.buildings.len() && self.buildings[i].id == id - 1
    }
}

/// The building that the store makes of a new one by giving it an id.
pub open spec fn spec_building_row(id: int, building: NewBuilding) -> Building {
    Building {
        id: id as i32,
        name: building.name,
        level: building.level,
        fortress_id: building.fortress_id,
    }
}

/// The fortress that the store makes of a new one by giving it an id.
pub open spec fn spec_fortress_row(id: int, fortress: NewFortress) -> Fortress {
    Fortress {
        id: id as i32,
        gold: fortress.gold,
        food: fortress.food,
        wood: fortress.wood,
        energy: fortress.energy,
    }
}

/// Why a new building is turned down, if it is. The first of these
/// decides: a negative level, an owner that is not in the table, no id left.
pub open spec fn spec_create_building_refusal(v: StoreView, building: NewBuilding) -> Option<
    EngineError,
> {
    if building.level < 0 {
        Some(EngineError::InvalidArgument)
    } else if !v.has_fortress(building.fortress_id) {
        Some(EngineError::FortressNotFound)
    } else if v.has_building(i32::MAX) {
        Some(EngineError::Internal)
    } else {
        None
    }
}

/// One more fortress leaves every owner where it was.
pub proof fn lemma_push_fortress_keeps_owners(v: StoreView, fortress: Fortress)
    ensures
        forall|id: i32|
            v.has_fortress(id) ==> (StoreView {
                fortresses: v.fortresses.push(fortress),
                buildings: v.buildings,
            }).has_fortress(id),
        (StoreView { fortresses: v.fortresses.push(fortress), buildings: v.buildings }).has_fortress(
            fortress.id,
        ),
        v.owners_present() ==> (StoreView {
            fortresses: v.fortresses.push(fortress),
            buildings: v.buildings,
        }).owners_present(),
{
    let w = StoreView { fortresses: v.fortresses.push(fortress), buildings: v.buildings };
    assert forall|id: i32| v.has_fortress(id) implies w.has_fortress(id) by {
        let k = v.fortress_row(id);
        assert(w.fortresses[k].id == id);
    }
    assert(w.fortresses[v.fortresses.len() as int].id == fortress.id);
    if v.owners_present() {
        assert forall|i: int| 0 <= i < w.buildings.len() implies w.has_fortress(
            w.buildings[i].fortress_id,
        ) by {
            assert(v.has_fortress(v.buildings[i].fortress_id));
        }
    }
}

/// One more building whose owner is in the table leaves every building
/// with its owner.
pub proof fn lemma_push_building_keeps_owners(v: StoreView, building: Building)
    requires
        v.has_fortress(building.fortress_id),
    ensures
        v.owners_present() ==> (StoreView {
            fortresses: v.fortresses,
            buildings: v.buildings.push(building),
        }).owners_present(),
{
    let w = StoreView { fortresses: v.fortresses, buildings: v.buildings.push(building) };
    if v.owners_present() {
        assert forall|i: int| 0 <= i < w.buildings.len() implies w.has_fortress(
            w.buildings[i].fortress_id,
        ) by {
            let owner = w.buildings[i].fortress_id;
            if i < v.buildings.len() {
                assert(v.buildings[i].fortress_id == owner);
            }
            assert(v.has_fortress(owner));
            let k = v.fortress_row(owner);
            assert(w.fortresses[k].id == owner);
        }
    }
}

/// Only one id can be the next.
pub proof fn lemma_next_fortress_id_unique(v: StoreView, a: int, b: int)
    requires
        v.is_next_fortress_id(a),
        v.is_next_fortress_id(b),
    ensures
        a == b,
{
}

/// Only one id can be the next.
pub proof fn lemma_next_building_id_unique(v: StoreView, a: int, b: int)
    requires
        v.is_next_building_id(a),
        v.is_next_building_id(b),
    ensures
        a == b,
{
}

impl Store {
    /// The id for the next fortress, or `None` where the highest id there
    /// is has been given out.
    pub fn next_fortress_id(&self) -> (r: Option<i32>)
        ensures
            r matches Some(id) ==> self@.is_next_fortress_id(id as int) && !self@.has_fortress(id),
            r is None <==> self@.has_fortress(i32::MAX),
    {
        let mut top: i32 = 0;
        let mut i: usize = 0;
        while i < self.fortresses.len()
            invariant
                i <= self.fortresses@.len(),
                top >= 0,
                forall|k: int| 0 <= k < i ==> self.fortresses@[k].id <= top,
                top == 0 || exists|k: int| 0 <= k < i && self.fortresses@[k].id == top,
            decreases self.fortresses@.len() - i,
        {
            if self.fortresses[i].id > top {
                top = self.fortresses[i].id;
            }
            i = i + 1;
        }
        proof {
            let v = self@;
            if top != 0 {
                let k = choose|k: int| 0 <= k < i && self.fortresses@[k].id == top;
                assert(v.fortresses[k].id == top);
            }
            if v.has_fortress(i32::MAX) {
                let k = v.fortress_row(i32::MAX);
                assert(v.fortresses[k].id <= top);
            }
            if top < i32::MAX && v.has_fortress((top + 1) as i32) {
                let k = v.fortress_row((top + 1) as i32);
                assert(v.fortresses[k].id <= top);
            }
            assert forall|k: int| 0 <= k < v.fortresses.len() implies v.fortresses[k].id < top + 1 by {
                assert(self.fortresses@[k].id <= top);
            }
        }
        if top == i32::MAX {
            None
        } else {
            Some(top + 1)
        }
    }

    /// The id for the next building, or `None` where the highest id there
    /// is has been given out.
    pub fn next_building_id(&self) -> (r: Option<i32>)
        ensures
            r matches Some(id) ==> self@.is_next_building_id(id as int) && !self@.has_building(id),
            r is None <==> self@.has_building(i32::MAX),
    {
        let mut top: i32 = 0;
        let mut i: usize = 0;
        while i < self.buildings.len()
            invariant
                i <= self.buildings@.len(),
                top >= 0,
                forall|k: int| 0 <= k < i ==> self.buildings@[k].id <= top,
                top == 0 || exists|k: int| 0 <= k < i && self.buildings@[k].id == top,
            decreases self.buildings@.len() - i,
        {
            if self.buildings[i].id > top {
                top = self.buildings[i].id;
            }
            i = i + 1;
        }
        proof {
            let v = self@;
            if top != 0 {
                let k = choose|k: int| 0 <= k < i && self.buildings@[k].id == top;
                assert(v.buildings[k].id == top);
            }
            if v.has_building(i32::MAX) {
                let k = v.building_row(i32::MAX);
                assert(v.buildings[k].id <= top);
            }
            if top < i32::MAX && v.has_building((top + 1) as i32) {
                let k = v.building_row((top + 1) as i32);
                assert(v.buildings[k].id <= top);
            }
            assert forall|k: int| 0 <= k < v.buildings.len() implies v.buildings[k].id < top + 1 by {
                assert(self.buildings@[k].id <= top);
            }
        }
        if top == i32::MAX {
            None
        } else {
            Some(top + 1)
        }
    }

    /// Adds a fortress under the next id and returns it. A negative
    /// counter is an invalid argument; where no id is left the store fails
    /// with an internal error. A failure leaves the tables as they were.
    pub fn create_fortress(&mut self, fortress: NewFortress) -> (r: Result<Fortress, EngineError>)
        requires
            old(self)@.wf(),
        ensures
            final(self)@.wf(),
            !spec_fortress_row(0, fortress).wf() ==> r == Err::<Fortress, EngineError>(
                EngineError::InvalidArgument,
            ),
            spec_fortress_row(0, fortress).wf() && old(self)@.has_fortress(i32::MAX) ==> r == Err::<
                Fortress,
                EngineError,
            >(EngineError::Internal),
            spec_fortress_row(0, fortress).wf() && !old(self)@.has_fortress(i32::MAX) ==> r is Ok,
            old(self)@.owners_present() ==> final(self)@.owners_present(),
            r is Err ==> final(self)@ == old(self)@,
            r matches Ok(row) ==> {
                &&& old(self)@.is_next_fortress_id(row.id as int)
                &&& row == spec_fortress_row(row.id as int, fortress)
                &&& final(self)@.fortresses == old(self)@.fortresses.push(row)
                &&& final(self)@.buildings == old(self)@.buildings
            },
    {
        if fortress.gold < 0 || fortress.food < 0 || fortress.wood < 0 || fortress.energy < 0 {
            return Err(EngineError::InvalidArgument);
        }
        let id = match self.next_fortress_id() {
            Some(id) => id,
            None => {
                return Err(EngineError::Internal);
            },
        };
        let row = Fortress {
            id,
            gold: fortress.gold,
            food: fortress.food,
            wood: fortress.wood,
            energy: fortress.energy,
        };
        proof {
            lemma_push_fortress_keeps_owners(self@, row);
        }
        match self.insert_fortress(row) {
            Ok(()) => Ok(row),
            Err(e) => Err(e),
        }
    }

    /// Adds a building under the next id and returns it. A negative level
    /// is an invalid argument; an owner that is not in the table is
    /// reported as not found; where no id is left the store fails with an
    /// internal error. A failure leaves the tables as they were.
    pub fn create_building(&mut self, building: &NewBuilding) -> (r: Result<Building, EngineError>)
        requires
            old(self)@.wf(),
        ensures
            final(self)@.wf(),
            old(self)@.owners_present() ==> final(self)@.owners_present(),
            match spec_create_building_refusal(old(self)@, *building) {
                Some(e) => r == Err::<Building, EngineError>(e),
                None => r is Ok,
            },
            r is Err ==> final(self)@ == old(self)@,
            r matches Ok(row) ==> {
                &&& old(self)@.is_next_building_id(row.id as int)
                &&& row == spec_building_row(row.id as int, *building)
                &&& final(self)@.fortresses == old(self)@.fortresses
                &&& final(self)@.buildings == old(self)@.buildings.push(row)
            },
    {
        if building.level < 0 {
            return Err(EngineError::InvalidArgument);
        }
        if self.find_fortress(building.fortress_id).is_none() {
            return Err(EngineError::FortressNotFound);
        }
        let id = match self.next_building_id() {
            Some(id) => id,
            None => {
                return Err(EngineError::Internal);
            },
        };
        let row = Building {
            id,
            name: building.name.clone(),
            level: building.level,
            fortress_id: building.fortress_id,
        };
        let out = copy_building(&row);
        match self.insert_building(row) {
            Ok(()) => {
                proof {
                    lemma_push_building_keeps_owners(old(self)@, out);
                }
                Ok(out)
            },
            Err(e) => Err(e),
        }
    }

    /// Founds a fortress: adds a fortress that owns nothing and, in this
    /// order, its bank, farm, sawmill and sanctuary at level 0, each under
    /// the next id. Where the ids do not reach for all five rows the store
    /// fails with an internal error and the tables stay as they were.
    pub fn found_fortress(&mut self) -> (r: Result<(Fortress, Vec<Building>), EngineError>)
        requires
            old(self)@.wf(),
        ensures
            final(self)@.wf(),
            old(self)@.owners_present() ==> final(self)@.owners_present(),
            r is Err ==> r == Err::<(Fortress, Vec<Building>), EngineError>(EngineError::Internal)
                && final(self)@ == old(self)@,
            r is Err <==> old(self)@.has_fortress(i32::MAX) || exists|i: int|
                0 <= i < old(self)@.buildings.len() && old(self)@.buildings[i].id > i32::MAX - 4,
            r matches Ok((fortress, buildings)) ==> {
                &&& old(self)@.is_next_fortress_id(fortress.id as int)
                &&& fortress == spec_fortress_row(
                    fortress.id as int,
                    NewFortress { gold: 0, food: 0, wood: 0, energy: 0 },
                )
                &&& buildings@.len() == 4
                &&& old(self)@.is_next_building_id(buildings@[0].id as int)
                &&& buildings@[0].name@ == "bank"@
                &&& buildings@[1].name@ == "farm"@
                &&& buildings@[2].name@ == "sawmill"@
                &&& buildings@[3].name@ == "sanctuary"@
                &&& forall|i: int|
                    0 <= i < 4 ==> buildings@[i].id == buildings@[0].id + i && buildings@[i].level
                        == 0 && buildings@[i].fortress_id == fortress.id
                &&& final(self)@.fortresses == old(self)@.fortresses.push(fortress)
                &&& final(self)@.buildings == old(self)@.buildings + buildings@
            },
    {
        let first = match self.next_building_id() {
            Some(id) => id,
            None => {
                return Err(EngineError::Internal);
            },
        };
        if first > i32::MAX - 3 {
            proof {
                let k = choose|k: int|
                    0 <= k < self@.buildings.len() && self@.buildings[k].id == first - 1;
                assert(self@.buildings[k].id > i32::MAX - 4);
            }
            return Err(EngineError::Internal);
        }
        let fortress = match self.create_fortress(NewFortress::new()) {
            Ok(fortress) => fortress,
            Err(e) => {
                return Err(EngineError::Internal);
            },
        };
        proof {
            lemma_push_fortress_keeps_owners(old(self)@, fortress);
        }
        let wanted = default_new_buildings(fortress.id);
        let mut made: Vec<Building> = Vec::new();
        let mut i: usize = 0;
        while i < 4
            invariant
                i <= 4,
                wanted@.len() == 4,
                wanted@[0].name@ == "bank"@,
                wanted@[1].name@ == "farm"@,
                wanted@[2].name@ == "sawmill"@,
                wanted@[3].name@ == "sanctuary"@,
                forall|k: int| 0 <= k < 4 ==> wanted@[k].level == 0 && wanted@[k].fortress_id
                    == fortress.id,
                1 <= first <= i32::MAX - 3,
                old(self)@.is_next_building_id(first as int),
                self@.wf(),
                self@.fortresses == old(self)@.fortresses.push(fortress),
                self@.has_fortress(fortress.id),
                old(self)@.owners_present() ==> self@.owners_present(),
                self@.buildings == old(self)@.buildings + made@,
                made@.len() == i,
                forall|k: int| 0 <= k < i ==> made@[k] == spec_building_row(first + k, wanted@[k]),
            decreases 4 - i,
        {
            let ghost before = self@;
            let created = self.create_building(&wanted[i]);
            proof {
                assert forall|k: int| 0 <= k < before.buildings.len() implies before.buildings[k].id
                    < first + i by {
                    if k < old(self)@.buildings.len() {
                        assert(before.buildings[k] == old(self)@.buildings[k]);
                    } else {
                        assert(before.buildings[k] == made@[k - old(self)@.buildings.len()]);
                    }
                }
                if i > 0 {
                    assert(before.buildings[old(self)@.buildings.len() + i - 1] == made@[i - 1]);
                }
                assert(before.is_next_building_id(first + i));
                if before.has_building(i32::MAX) {
                    let k = before.building_row(i32::MAX);
                    assert(before.buildings[k].id < first + i);
                }
                assert(created is Ok);
            }
            match created {
                Ok(row) => {
                    proof {
                        lemma_next_building_id_unique(before, row.id as int, first + i);
                    }
                    made.push(row);
                },
                Err(e) => {
                    // The ids were counted before the first row was
                    // written, so none of the four can be refused.
                    return Err(EngineError::Internal);
                },
            }
            i = i + 1;
            proof {
                assert(self@.buildings =~= old(self)@.buildings + made@);
            }
        }
        proof {
            assert forall|k: int| 0 <= k < old(self)@.buildings.len() implies !(old(
                self,
            )@.buildings[k].id > i32::MAX - 4) by {}
        }
        Ok((fortress, made))
    }
}

} // verus!
