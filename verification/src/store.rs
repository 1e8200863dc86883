//! The two tables held in memory, with the guarded updates that the
//! transactions are made of.

use vstd::prelude::*;
use crate::models::{Building, Costs, EngineError, Fortress};
use crate::upgrade::{affords, spec_affords, spec_debit};

verus! {

/// What the two tables hold, row by row.
pub struct StoreView {
    pub fortresses: Seq<Fortress>,
    pub buildings: Seq<Building>,
}

/// The fortresses and the buildings of a game.
///
/// Rows can be loaded as they are, each with the id it carries, or created
/// under the next id. A loaded building may name a fortress that is not in
/// the table; the transactions report such a building when they meet one.
pub struct Store {
    pub fortresses: Vec<Fortress>,
    pub buildings: Vec<Building>,
}

impl View for Store {
    type V = StoreView;

    open spec fn view(&self) -> StoreView {
        StoreView { fortresses: self.fortresses@, buildings: self.buildings@ }
    }
}

/// The building one level higher.
pub open spec fn spec_raised(building: Building) -> Building {
    Building {
        id: building.id,
        name: building.name,
        level: (building.level + 1) as i32,
        fortress_id: building.fortress_id,
    }
}

impl StoreView {
    /// No id occurs twice in a table, no counter is negative and no level is
    /// negative.
    pub open spec fn wf(self) -> bool {
        &&& forall|i: int, j: int|
            0 <= i < j < self.fortresses.len() ==> self.fortresses[i].id != self.fortresses[j].id
        &&& forall|i: int, j: int|
            0 <= i < j < self.buildings.len() ==> self.buildings[i].id != self.buildings[j].id
        &&& forall|i: int| 0 <= i < self.fortresses.len() ==> self.fortresses[i].wf()
        &&& forall|i: int| 0 <= i < self.buildings.len() ==> self.buildings[i].level >= 0
    }

    /// Whether a fortress has this id.
    pub open spec fn has_fortress(self, id: i32) -> bool {
        exists|i: int| 0 <= i < self.fortresses.len() && self.fortresses[i].id == id
    }

    /// The row of the fortress with this id, where there is one.
    pub open spec fn fortress_row(self, id: i32) -> int {
        choose|i: int| 0 <= i < self.fortresses.len() && self.fortresses[i].id == id
    }

    /// The fortress with this id, where there is one.
    pub open spec fn fortress(self, id: i32) -> Fortress {
        self.fortresses[self.fortress_row(id)]
    }

    /// Whether a building has this id.
    pub open spec fn has_building(self, id: i32) -> bool {
        exists|i: int| 0 <= i < self.buildings.len() && self.buildings[i].id == id
    }

    /// The row of the building with this id, where there is one.
    pub open spec fn building_row(self, id: i32) -> int {
        choose|i: int| 0 <= i < self.buildings.len() && self.buildings[i].id == id
    }

    /// The building with this id, where there is one.
    pub open spec fn building(self, id: i32) -> Building {
        self.buildings[self.building_row(id)]
    }

    /// Whether every building names a fortress that is in the table.
    pub open spec fn owners_present(self) -> bool {
        forall|i: int|
            0 <= i < self.buildings.len() ==> self.has_fortress(self.buildings[i].fortress_id)
    }

    /// The tables with one fortress replaced.
    pub open spec fn with_fortress(self, row: int, fortress: Fortress) -> StoreView {
        StoreView { fortresses: self.fortresses.update(row, fortress), buildings: self.buildings }
    }

    /// The tables with one building replaced.
    pub open spec fn with_building(self, row: int, building: Building) -> StoreView {
        StoreView { fortresses: self.fortresses, buildings: self.buildings.update(row, building) }
    }
}

/// In well-formed tables the row of an id is the only row that holds it.
pub proof fn lemma_fortress_row_unique(v: StoreView, id: i32, i: int)
    requires
        v.wf(),
        0 <= i < v.fortresses.len(),
        v.fortresses[i].id == id,
    ensures
        v.has_fortress(id),
        v.fortress_row(id) == i,
{
    let row = v.fortress_row(id);
    assert(0 <= row < v.fortresses.len() && v.fortresses[row].id == id);
    if row < i {
        assert(v.fortresses[row].id != v.fortresses[i].id);
    } else if i < row {
        assert(v.fortresses[i].id != v.fortresses[row].id);
    }
}

/// In well-formed tables the row of an id is the only row that holds it.
pub proof fn lemma_building_row_unique(v: StoreView, id: i32, i: int)
    requires
        v.wf(),
        0 <= i < v.buildings.len(),
        v.buildings[i].id == id,
    ensures
        v.has_building(id),
        v.building_row(id) == i,
{
    let row = v.building_row(id);
    assert(0 <= row < v.buildings.len() && v.buildings[row].id == id);
    if row < i {
        assert(v.buildings[row].id != v.buildings[i].id);
    } else if i < row {
        assert(v.buildings[i].id != v.buildings[row].id);
    }
}

/// Replacing a fortress by one of the same id with no negative counter
/// keeps the tables well formed.
pub proof fn lemma_with_fortress_wf(v: StoreView, row: int, fortress: Fortress)
    requires
        v.wf(),
        0 <= row < v.fortresses.len(),
        fortress.id == v.fortresses[row].id,
        fortress.wf(),
    ensures
        v.with_fortress(row, fortress).wf(),
        forall|id: i32| v.with_fortress(row, fortress).has_fortress(id) == v.has_fortress(id),
        forall|id: i32|
            v.has_fortress(id) ==> v.with_fortress(row, fortress).fortress_row(id)
                == v.fortress_row(id),
{
    let w = v.with_fortress(row, fortress);
    assert forall|i: int, j: int| 0 <= i < j < w.fortresses.len() implies w.fortresses[i].id
        != w.fortresses[j].id by {
        assert(v.fortresses[i].id != v.fortresses[j].id);
    }
    assert forall|i: int| 0 <= i < w.fortresses.len() implies w.fortresses[i].wf() by {
        if i != row {
            assert(v.fortresses[i].wf());
        }
    }
    assert(w.wf());
    assert forall|id: i32| w.has_fortress(id) == v.has_fortress(id) by {
        if v.has_fortress(id) {
            let i = v.fortress_row(id);
            assert(w.fortresses[i].id == id);
        }
        if w.has_fortress(id) {
            let i = w.fortress_row(id);
            assert(v.fortresses[i].id == id);
        }
    }
    assert forall|id: i32| v.has_fortress(id) implies w.fortress_row(id) == v.fortress_row(
        id,
    ) by {
        let i = v.fortress_row(id);
        assert(w.fortresses[i].id == id);
        lemma_fortress_row_unique(w, id, i);
    }
}

/// Replacing a building by one of the same id with no negative level keeps
/// the tables well formed.
pub proof fn lemma_with_building_wf(v: StoreView, row: int, building: Building)
    requires
        v.wf(),
        0 <= row < v.buildings.len(),
        building.id == v.buildings[row].id,
        building.level >= 0,
    ensures
        v.with_building(row, building).wf(),
        forall|id: i32| v.with_building(row, building).has_building(id) == v.has_building(id),
        forall|id: i32|
            v.has_building(id) ==> v.with_building(row, building).building_row(id)
                == v.building_row(id),
{
    let w = v.with_building(row, building);
    assert forall|i: int, j: int| 0 <= i < j < w.buildings.len() implies w.buildings[i].id
        != w.buildings[j].id by {
        assert(v.buildings[i].id != v.buildings[j].id);
    }
    assert forall|i: int| 0 <= i < w.buildings.len() implies w.buildings[i].level >= 0 by {
        if i != row {
            assert(v.buildings[i].level >= 0);
        }
    }
    assert(w.wf());
    assert forall|id: i32| w.has_building(id) == v.has_building(id) by {
        if v.has_building(id) {
            let i = v.building_row(id);
            assert(w.buildings[i].id == id);
        }
        if w.has_building(id) {
            let i = w.building_row(id);
            assert(v.buildings[i].id == id);
        }
    }
    assert forall|id: i32| v.has_building(id) implies w.building_row(id) == v.building_row(
        id,
    ) by {
        let i = v.building_row(id);
        assert(w.buildings[i].id == id);
        lemma_building_row_unique(w, id, i);
    }
}

/// A building with the same columns.
pub fn copy_building(building: &Building) -> (r: Building)
    ensures
        r == *building,
{
    Building {
        id: building.id,
        name: building.name.clone(),
        level: building.level,
        fortress_id: building.fortress_id,
    }
}

impl Store {
    /// Two empty tables.
    pub fn new() -> (r: Store)
        ensures
            r@.wf(),
            r@.fortresses.len() == 0,
            r@.buildings.len() == 0,
    {
        Store { fortresses: Vec::new(), buildings: Vec::new() }
    }

    /// Whether the tables are well formed: no id twice in a table, no
    /// negative counter, no negative level.
    pub fn is_well_formed(&self) -> (r: bool)
        ensures
            r == self@.wf(),
    {
        let ghost v = self@;
        let mut i: usize = 0;
        while i < self.fortresses.len()
            invariant
                v == self@,
                i <= v.fortresses.len(),
                forall|a: int, b: int| 0 <= a < b < i ==> v.fortresses[a].id != v.fortresses[b].id,
                forall|a: int| 0 <= a < i ==> v.fortresses[a].wf(),
            decreases v.fortresses.len() - i,
        {
            let fortress = self.fortresses[i];
            if fortress.gold < 0 || fortress.food < 0 || fortress.wood < 0 || fortress.energy < 0 {
                proof {
                    assert(!v.fortresses[i as int].wf());
                }
                return false;
            }
            let mut j: usize = 0;
            while j < i
                invariant
                    v == self@,
                    j <= i < v.fortresses.len(),
                    fortress == v.fortresses[i as int],
                    forall|a: int| 0 <= a < j ==> v.fortresses[a].id != fortress.id,
                decreases i - j,
            {
                if self.fortresses[j].id == fortress.id {
                    proof {
                        assert(v.fortresses[j as int].id == v.fortresses[i as int].id);
                    }
                    return false;
                }
                j = j + 1;
            }
            i = i + 1;
        }
        let mut i: usize = 0;
        while i < self.buildings.len()
            invariant
                v == self@,
                i <= v.buildings.len(),
                forall|a: int, b: int|
                    0 <= a < b < v.fortresses.len() ==> v.fortresses[a].id != v.fortresses[b].id,
                forall|a: int| 0 <= a < v.fortresses.len() ==> v.fortresses[a].wf(),
                forall|a: int, b: int| 0 <= a < b < i ==> v.buildings[a].id != v.buildings[b].id,
                forall|a: int| 0 <= a < i ==> v.buildings[a].level >= 0,
            decreases v.buildings.len() - i,
        {
            let id = self.buildings[i].id;
            if self.buildings[i].level < 0 {
                proof {
                    assert(!(v.buildings[i as int].level >= 0));
                }
                return false;
            }
            let mut j: usize = 0;
            while j < i
                invariant
                    v == self@,
                    j <= i < v.buildings.len(),
                    id == v.buildings[i as int].id,
                    forall|a: int| 0 <= a < j ==> v.buildings[a].id != id,
                decreases i - j,
            {
                if self.buildings[j].id == id {
                    proof {
                        assert(v.buildings[j as int].id == v.buildings[i as int].id);
                    }
                    return false;
                }
                j = j + 1;
            }
            i = i + 1;
        }
        true
    }

    /// The row of the fortress with this id.
    pub fn find_fortress(&self, id: i32) -> (r: Option<usize>)
        requires
            self@.wf(),
        ensures
            r is Some <==> self@.has_fortress(id),
            r matches Some(i) ==> i == self@.fortress_row(id) && i < self.fortresses@.len()
                && self.fortresses@[i as int].id == id,
    {
        let mut i: usize = 0;
        while i < self.fortresses.len()
            invariant
                i <= self.fortresses@.len(),
                self@.wf(),
                forall|k: int| 0 <= k < i ==> self.fortresses@[k].id != id,
            decreases self.fortresses@.len() - i,
        {
            if self.fortresses[i].id == id {
                proof {
                    lemma_fortress_row_unique(self@, id, i as int);
                }
                return Some(i);
            }
            i = i + 1;
        }
        None
    }

    /// The row of the building with this id.
    pub fn find_building(&self, id: i32) -> (r: Option<usize>)
        requires
            self@.wf(),
        ensures
            r is Some <==> self@.has_building(id),
            r matches Some(i) ==> i == self@.building_row(id) && i < self.buildings@.len()
                && self.buildings@[i as int].id == id,
    {
        let mut i: usize = 0;
        while i < self.buildings.len()
            invariant
                i <= self.buildings@.len(),
                self@.wf(),
                forall|k: int| 0 <= k < i ==> self.buildings@[k].id != id,
            decreases self.buildings@.len() - i,
        {
            if self.buildings[i].id == id {
                proof {
                    lemma_building_row_unique(self@, id, i as int);
                }
                return Some(i);
            }
            i = i + 1;
        }
        None
    }

    /// The fortress with this id, if there is one.
    pub fn get_fortress(&self, id: i32) -> (r: Option<Fortress>)
        requires
            self@.wf(),
        ensures
            r is Some <==> self@.has_fortress(id),
            r matches Some(f) ==> f == self@.fortress(id) && f.id == id && f.wf(),
    {
        match self.find_fortress(id) {
            Some(i) => Some(self.fortresses[i]),
            None => None,
        }
    }

    /// The building with this id, if there is one.
    pub fn get_building(&self, id: i32) -> (r: Option<Building>)
        requires
            self@.wf(),
        ensures
            r is Some <==> self@.has_building(id),
            r matches Some(b) ==> b == self@.building(id) && b.id == id && b.level >= 0,
    {
        match self.find_building(id) {
            Some(i) => Some(copy_building(&self.buildings[i])),
            None => None,
        }
    }

    /// Loads a fortress with the id it carries. A negative counter is an
    /// invalid argument; an id that the table already holds is refused as
    /// an internal error.
    pub fn insert_fortress(&mut self, fortress: Fortress) -> (r: Result<(), EngineError>)
        requires
            old(self)@.wf(),
        ensures
            final(self)@.wf(),
            !fortress.wf() ==> r == Err::<(), EngineError>(EngineError::InvalidArgument),
            fortress.wf() && old(self)@.has_fortress(fortress.id) ==> r == Err::<(), EngineError>(
                EngineError::Internal,
            ),
            fortress.wf() && !old(self)@.has_fortress(fortress.id) ==> r == Ok::<(), EngineError>(
                (),
            ),
            r is Err ==> final(self)@ == old(self)@,
            r is Ok ==> final(self)@ == (StoreView {
                fortresses: old(self)@.fortresses.push(fortress),
                buildings: old(self)@.buildings,
            }),
    {
        if fortress.gold < 0 || fortress.food < 0 || fortress.wood < 0 || fortress.energy < 0 {
            return Err(EngineError::InvalidArgument);
        }
        if self.find_fortress(fortress.id).is_some() {
            return Err(EngineError::Internal);
        }
        self.fortresses.push(fortress);
        Ok(())
    }

    /// Loads a building with the id it carries, whether or not its owner
    /// is in the table. A negative level is an invalid argument; an id that
    /// the table already holds is refused as an internal error.
    pub fn insert_building(&mut self, building: Building) -> (r: Result<(), EngineError>)
        requires
            old(self)@.wf(),
        ensures
            final(self)@.wf(),
            building.level < 0 ==> r == Err::<(), EngineError>(EngineError::InvalidArgument),
            building.level >= 0 && old(self)@.has_building(building.id) ==> r == Err::<
                (),
                EngineError,
            >(EngineError::Internal),
            building.level >= 0 && !old(self)@.has_building(building.id) ==> r == Ok::<
                (),
                EngineError,
            >(()),
            r is Err ==> final(self)@ == old(self)@,
            r is Ok ==> final(self)@ == (StoreView {
                fortresses: old(self)@.fortresses,
                buildings: old(self)@.buildings.push(building),
            }),
    {
        if building.level < 0 {
            return Err(EngineError::InvalidArgument);
        }
        if self.find_building(building.id).is_some() {
            return Err(EngineError::Internal);
        }
        self.buildings.push(building);
        proof {
            let before = old(self)@.buildings;
            let after = final(self)@.buildings;
            assert forall|i: int, j: int| 0 <= i < j < after.len() implies after[i].id
                != after[j].id by {
                if j < before.len() {
                    assert(before[i].id != before[j].id);
                } else {
                    assert(after[i] == before[i]);
                }
            }
            assert forall|i: int| 0 <= i < after.len() implies after[i].level >= 0 by {
                if i < before.len() {
                    assert(after[i] == before[i]);
                }
            }
        }
        Ok(())
    }

    /// Takes the costs from the fortress with this id, but only where every
    /// counter covers its cost. Returns the fortress as it then stands, or
    /// `None` where no row was touched: no such fortress, or too little in it.
    pub fn debit_fortress(&mut self, id: i32, costs: &Costs) -> (r: Option<Fortress>)
        requires
            old(self)@.wf(),
            costs.wf(),
        ensures
            final(self)@.wf(),
            r is Some <==> old(self)@.has_fortress(id) && spec_affords(
                old(self)@.fortress(id),
                *costs,
            ),
            r matches Some(f) ==> f == spec_debit(old(self)@.fortress(id), *costs) && final(self)@
                == old(self)@.with_fortress(old(self)@.fortress_row(id), f),
            r is None ==> final(self)@ == old(self)@,
    {
        match self.find_fortress(id) {
            None => None,
            Some(i) => {
                let before = self.fortresses[i];
                if !affords(&before, costs) {
                    return None;
                }
                let after = Fortress {
                    id: before.id,
                    gold: before.gold - costs.gold,
                    food: before.food - costs.food,
                    wood: before.wood - costs.wood,
                    energy: before.energy - costs.energy,
                };
                self.fortresses[i] = after;
                proof {
                    lemma_with_fortress_wf(old(self)@, i as int, after);
                    assert(self@ == old(self)@.with_fortress(i as int, after));
                }
                Some(after)
            },
        }
    }

    /// Puts a fortress back in the place of the row that has its id. Returns
    /// whether there was such a row.
    pub fn restore_fortress(&mut self, fortress: Fortress) -> (r: bool)
        requires
            old(self)@.wf(),
            fortress.wf(),
        ensures
            final(self)@.wf(),
            r == old(self)@.has_fortress(fortress.id),
            r ==> final(self)@ == old(self)@.with_fortress(
                old(self)@.fortress_row(fortress.id),
                fortress,
            ),
            !r ==> final(self)@ == old(self)@,
    {
        match self.find_fortress(fortress.id) {
            None => false,
            Some(i) => {
                self.fortresses[i] = fortress;
                proof {
                    lemma_with_fortress_wf(old(self)@, i as int, fortress);
                    assert(self@ == old(self)@.with_fortress(i as int, fortress));
                }
                true
            },
        }
    }

    /// Raises the building with this id by one level, but only where its
    /// level still is `expected_level`. Returns the building as it then
    /// stands, or `None` where no row was touched.
    pub fn increment_building(&mut self, id: i32, expected_level: i32) -> (r: Option<Building>)
        requires
            old(self)@.wf(),
            expected_level < i32::MAX,
        ensures
            final(self)@.wf(),
            r is Some <==> old(self)@.has_building(id) && old(self)@.building(id).level
                == expected_level,
            r matches Some(b) ==> b == spec_raised(old(self)@.building(id)) && final(self)@ == old(
                self,
            )@.with_building(old(self)@.building_row(id), b),
            r is None ==> final(self)@ == old(self)@,
    {
        match self.find_building(id) {
            None => None,
            Some(i) => {
                let before = &self.buildings[i];
                if before.level != expected_level {
                    return None;
                }
                let after = Building {
                    id: before.id,
                    name: before.name.clone(),
                    level: before.level + 1,
                    fortress_id: before.fortress_id,
                };
                let out = copy_building(&after);
                self.buildings[i] = after;
                proof {
                    lemma_with_building_wf(old(self)@, i as int, out);
                    assert(self@ == old(self)@.with_building(i as int, out));
                }
                Some(out)
            },
        }
    }
}

} // verus!
