//! Reading the tables: the buildings of a fortress, and fortresses
//! together with their buildings.

use vstd::prelude::*;
use crate::models::{Building, Fortress};
use crate::store::{copy_building, Store};

verus! {

/// The buildings of `buildings` that belong to the fortress `owner`, in
/// their order.
pub open spec fn spec_buildings_of(buildings: Seq<Building>, owner: i32) -> Seq<Building> {
    buildings.filter(|b: Building| b.fortress_id == owner)
}

impl Store {
    /// The buildings that belong to the fortress with this id, in the
    /// order of the table.
    pub fn buildings_of(&self, fortress_id: i32) -> (r: Vec<Building>)
        ensures
            r@ == spec_buildings_of(self@.buildings, fortress_id),
    {
        let ghost owned = |b: Building| b.fortress_id == fortress_id;
        let mut out: Vec<Building> = Vec::new();
        let mut i: usize = 0;
        while i < self.buildings.len()
            invariant
                i <= self.buildings@.len(),
                owned == |b: Building| b.fortress_id == fortress_id,
                out@ == self.buildings@.take(i as int).filter(owned),
            decreases self.buildings@.len() - i,
        {
            proof {
                reveal(Seq::filter);
                assert(self.buildings@.take(i + 1).drop_last() == self.buildings@.take(i as int));
                assert(self.buildings@.take(i + 1).last() == self.buildings@[i as int]);
            }
            if self.buildings[i].fortress_id == fortress_id {
                out.push(copy_building(&self.buildings[i]));
            }
            i = i + 1;
        }
        proof {
            assert(self.buildings@.take(i as int) == self.buildings@);
        }
        out
    }

    /// The fortress with this id together with its buildings, if there is
    /// such a fortress.
    pub fn fortress_with_buildings(&self, id: i32) -> (r: Option<(Fortress, Vec<Building>)>)
        requires
            self@.wf(),
        ensures
            r is Some <==> self@.has_fortress(id),
            r matches Some((fortress, buildings)) ==> fortress == self@.fortress(id) && buildings@
                == spec_buildings_of(self@.buildings, id),
    {
        match self.get_fortress(id) {
            Some(fortress) => Some((fortress, self.buildings_of(id))),
            None => None,
        }
    }

    /// Every fortress, in the order of the table, each with its buildings.
    pub fn all_fortresses_with_buildings(&self) -> (r: Vec<(Fortress, Vec<Building>)>)
        ensures
            r@.len() == self@.fortresses.len(),
            forall|i: int|
                0 <= i < r@.len() ==> r@[i].0 == self@.fortresses[i] && r@[i].1@
                    == spec_buildings_of(self@.buildings, self@.fortresses[i].id),
    {
        let mut out: Vec<(Fortress, Vec<Building>)> = Vec::new();
        let mut i: usize = 0;
        while i < self.fortresses.len()
            invariant
                i <= self.fortresses@.len(),
                out@.len() == i,
                forall|k: int|
                    0 <= k < i ==> out@[k].0 == self@.fortresses[k] && out@[k].1@
                        == spec_buildings_of(self@.buildings, self@.fortresses[k].id),
            decreases self.fortresses@.len() - i,
        {
            let fortress = self.fortresses[i];
            let buildings = self.buildings_of(fortress.id);
            out.push((fortress, buildings));
            i = i + 1;
        }
        out
    }
}

} // verus!
