//! Deleting a fortress, which takes its buildings with it.

use vstd::prelude::*;
use crate::models::Building;
use crate::store::{copy_building, Store, StoreView};

verus! {

/// The buildings that do not belong to the fortress `fortress_id`, in
/// their order.
pub open spec fn spec_buildings_kept(buildings: Seq<Building>, fortress_id: i32) -> Seq<Building> {
    buildings.filter(|b: Building| b.fortress_id != fortress_id)
}

/// The tables after the fortress `id` has been deleted: its buildings are
/// gone, and so is its row where there was one.
pub open spec fn spec_delete_next(v: StoreView, id: i32) -> StoreView {
    StoreView {
        fortresses: if v.has_fortress(id) {
            v.fortresses.remove(v.fortress_row(id))
        } else {
            v.fortresses
        },
        buildings: spec_buildings_kept(v.buildings, id),
    }
}

impl Store {
    /// Deletes the fortress with this id and every building that names it
    /// as its owner. Returns whether there was such a fortress; buildings
    /// that name it go even where there was none.
    pub fn delete_fortress(&mut self, id: i32) -> (r: bool)
        requires
            old(self)@.wf(),
        ensures
            final(self)@.wf(),
            old(self)@.owners_present() ==> final(self)@.owners_present(),
            r == old(self)@.has_fortress(id),
            final(self)@ == spec_delete_next(old(self)@, id),
            !final(self)@.has_fortress(id),
            forall|i: int|
                0 <= i < final(self)@.buildings.len() ==> final(self)@.buildings[i].fortress_id
                    != id,
    {
        let ghost v = self@;
        let ghost keep = |b: Building| b.fortress_id != id;
        let mut kept: Vec<Building> = Vec::new();
        let mut i: usize = 0;
        while i < self.buildings.len()
            invariant
                i <= v.buildings.len(),
                self@ == v,
                v.wf(),
                keep == |b: Building| b.fortress_id != id,
                kept@ == v.buildings.take(i as int).filter(keep),
                forall|a: int|
                    0 <= a < kept@.len() ==> kept@[a].fortress_id != id && kept@[a].level >= 0
                        && exists|k: int| 0 <= k < i && v.buildings[k].id == kept@[a].id,
                v.owners_present() ==> forall|a: int|
                    0 <= a < kept@.len() ==> v.has_fortress(kept@[a].fortress_id),
                forall|a: int, b: int| 0 <= a < b < kept@.len() ==> kept@[a].id != kept@[b].id,
            decreases v.buildings.len() - i,
        {
            proof {
                reveal(Seq::filter);
                assert(v.buildings.take(i + 1).drop_last() == v.buildings.take(i as int));
                assert(v.buildings.take(i + 1).last() == v.buildings[i as int]);
                assert(v.buildings[i as int].level >= 0);
            }
            if self.buildings[i].fortress_id != id {
                let ghost before = kept@;
                kept.push(copy_building(&self.buildings[i]));
                proof {
                    if v.owners_present() {
                        assert(v.has_fortress(v.buildings[i as int].fortress_id));
                        assert forall|a: int| 0 <= a < kept@.len() implies v.has_fortress(
                            kept@[a].fortress_id,
                        ) by {
                            if a < before.len() {
                                assert(kept@[a] == before[a]);
                            }
                        }
                    }
                    assert forall|a: int, b: int| 0 <= a < b < kept@.len() implies kept@[a].id
                        != kept@[b].id by {
                        if b == before.len() {
                            let k = choose|k: int| 0 <= k < i && v.buildings[k].id == before[a].id;
                            assert(v.buildings[k].id != v.buildings[i as int].id);
                        } else {
                            assert(before[a].id != before[b].id);
                        }
                    }
                    assert forall|a: int| 0 <= a < kept@.len() implies kept@[a].fortress_id != id
                        && kept@[a].level >= 0 && exists|k: int|
                        0 <= k < i + 1 && v.buildings[k].id == kept@[a].id by {
                        if a == before.len() {
                            assert(v.buildings[i as int].id == kept@[a].id);
                        } else {
                            let k = choose|k: int| 0 <= k < i && v.buildings[k].id == before[a].id;
                            assert(v.buildings[k].id == kept@[a].id);
                        }
                    }
                }
            }
            i = i + 1;
        }
        proof {
            assert(v.buildings.take(i as int) == v.buildings);
        }
        self.buildings = kept;
        proof {
            assert(self@.fortresses == v.fortresses);
            assert forall|a: int, b: int| 0 <= a < b < self@.fortresses.len() implies self@.fortresses[a].id
                != self@.fortresses[b].id by {
                assert(v.fortresses[a].id != v.fortresses[b].id);
            }
            assert forall|a: int| 0 <= a < self@.fortresses.len() implies self@.fortresses[a].wf() by {
                assert(v.fortresses[a].wf());
            }
            assert(self@.wf());
            assert(self@.has_fortress(id) == v.has_fortress(id));
            assert(self@.fortress_row(id) == v.fortress_row(id));
        }
        match self.find_fortress(id) {
            Some(row) => {
                self.fortresses.remove(row);
                proof {
                    let before = v.fortresses;
                    let now = self@.fortresses;
                    assert(now == before.remove(row as int));
                    assert forall|a: int, b: int| 0 <= a < b < now.len() implies now[a].id
                        != now[b].id by {
                        let x = if a < row { a } else { a + 1 };
                        let y = if b < row { b } else { b + 1 };
                        assert(now[a] == before[x]);
                        assert(now[b] == before[y]);
                        assert(before[x].id != before[y].id);
                    }
                    assert forall|a: int| 0 <= a < now.len() implies now[a].wf() && now[a].id
                        != id by {
                        let x = if a < row { a } else { a + 1 };
                        assert(now[a] == before[x]);
                        assert(before[x].wf());
                        if x < row {
                            assert(before[x].id != before[row as int].id);
                        } else {
                            assert(before[row as int].id != before[x].id);
                        }
                    }
                    if self@.has_fortress(id) {
                        let k = self@.fortress_row(id);
                        assert(now[k].id != id);
                    }
                    if v.owners_present() {
                        assert forall|a: int| 0 <= a < self@.buildings.len() implies self@.has_fortress(
                            self@.buildings[a].fortress_id,
                        ) by {
                            let owner = self@.buildings[a].fortress_id;
                            assert(v.has_fortress(owner));
                            let k = v.fortress_row(owner);
                            assert(before[k].id == owner);
                            let x = if k < row { k } else { k - 1 };
                            assert(now[x] == before[k]);
                            assert(now[x].id == owner);
                        }
                    }
                }
                true
            },
            None => {
                proof {
                    if v.owners_present() {
                        assert forall|a: int| 0 <= a < self@.buildings.len() implies self@.has_fortress(
                            self@.buildings[a].fortress_id,
                        ) by {
                            assert(v.has_fortress(self@.buildings[a].fortress_id));
                        }
                    }
                }
                false
            },
        }
    }
}

} // verus!
