//! What holds of every run of the transactions.

use vstd::prelude::*;
use crate::bonus::{
    lemma_level_sum_nonnegative, lemma_level_sum_push, spec_bonus, spec_designated_building,
    spec_level_sum,
};
use crate::machine::{
    spec_perform, spec_upgrade_step, StoreAction, StoreReply, UpgradeRequest, UpgradeState,
};
use crate::models::{Building, Costs, EngineError, Fortress, ResourceKind};
use crate::queries::spec_buildings_of;
use crate::store::{lemma_with_building_wf, lemma_with_fortress_wf, spec_raised, StoreView};
use crate::transaction::{
    spec_collect_next, spec_collect_refusal, spec_collected_amount, spec_upgrade_next,
    spec_upgrade_refusal_in, spec_with_amount,
};
use crate::transaction::spec_planned_amount;
use crate::upgrade::{spec_affords, spec_debit, spec_upgrade_refusal, spec_valid_request};

verus! {

/// The tables after a run of upgrade attempts on one building, made one
/// after the other with the same ceiling and costs, each with its own token.
pub open spec fn spec_state_after(
    v: StoreView,
    building_id: i32,
    max_level: i32,
    costs: Costs,
    tokens: Seq<Option<i32>>,
) -> StoreView
    decreases tokens.len(),
{
    if tokens.len() == 0 {
        v
    } else {
        spec_upgrade_next(
            spec_state_after(v, building_id, max_level, costs, tokens.drop_last()),
            building_id,
            max_level,
            costs,
            tokens.last(),
        )
    }
}

/// How attempt `i` of such a run ends: `None` where it goes through.
pub open spec fn spec_outcome_at(
    v: StoreView,
    building_id: i32,
    max_level: i32,
    costs: Costs,
    tokens: Seq<Option<i32>>,
    i: int,
) -> Option<EngineError> {
    spec_upgrade_refusal_in(
        spec_state_after(v, building_id, max_level, costs, tokens.take(i)),
        building_id,
        max_level,
        costs,
        tokens[i],
    )
}

/// An upgrade that is refused, for whatever reason, leaves every fortress
/// and every building as it was.
pub proof fn lemma_refused_upgrade_changes_nothing(
    v: StoreView,
    building_id: i32,
    max_level: i32,
    costs: Costs,
    expected_level: Option<i32>,
)
    requires
        spec_upgrade_refusal_in(v, building_id, max_level, costs, expected_level) is Some,
    ensures
        spec_upgrade_next(v, building_id, max_level, costs, expected_level) == v,
{
}

/// An upgrade that goes through debits the owner by exactly the costs and
/// raises exactly the one building by exactly one level; every other row of
/// both tables stays as it was.
pub proof fn lemma_upgrade_debits_and_raises_together(
    v: StoreView,
    building_id: i32,
    max_level: i32,
    costs: Costs,
    expected_level: Option<i32>,
)
    requires
        v.wf(),
        spec_upgrade_refusal_in(v, building_id, max_level, costs, expected_level) is None,
    ensures
        ({
            let next = spec_upgrade_next(v, building_id, max_level, costs, expected_level);
            let owner = v.building(building_id).fortress_id;
            &&& next.wf()
            &&& next.has_building(building_id)
            &&& next.building(building_id) == spec_raised(v.building(building_id))
            &&& next.building(building_id).level == v.building(building_id).level + 1
            &&& next.building(building_id).level <= max_level
            &&& next.has_fortress(owner)
            &&& next.fortress(owner) == spec_debit(v.fortress(owner), costs)
            &&& next.fortresses.len() == v.fortresses.len()
            &&& next.buildings.len() == v.buildings.len()
            &&& forall|i: int|
                0 <= i < v.fortresses.len() && i != v.fortress_row(owner) ==> next.fortresses[i]
                    == v.fortresses[i]
            &&& forall|i: int|
                0 <= i < v.buildings.len() && i != v.building_row(building_id)
                    ==> next.buildings[i] == v.buildings[i]
        }),
{
    let building = v.building(building_id);
    let owner = building.fortress_id;
    let brow = v.building_row(building_id);
    let frow = v.fortress_row(owner);
    assert(0 <= brow < v.buildings.len() && v.buildings[brow].id == building_id);
    assert(0 <= frow < v.fortresses.len() && v.fortresses[frow].id == owner);
    assert(v.fortresses[frow].wf());
    assert(v.buildings[brow].level >= 0);
    let debited = spec_debit(v.fortress(owner), costs);
    let raised = spec_raised(building);
    let mid = v.with_fortress(frow, debited);
    lemma_with_fortress_wf(v, frow, debited);
    lemma_with_building_wf(mid, brow, raised);
    let next = spec_upgrade_next(v, building_id, max_level, costs, expected_level);
    assert(next == mid.with_building(brow, raised));
    assert(mid.has_building(building_id));
    assert(mid.building_row(building_id) == brow);
    assert(v.has_fortress(owner));
    assert(next.fortresses == mid.fortresses);
    assert(next.has_fortress(owner) == mid.has_fortress(owner));
    assert(next.fortress_row(owner) == mid.fortress_row(owner));
}

/// No upgrade, refused or not, lowers the level of any building, nor lifts
/// one above the ceiling that was at or below it before.
pub proof fn lemma_upgrade_respects_ceiling(
    v: StoreView,
    building_id: i32,
    max_level: i32,
    costs: Costs,
    expected_level: Option<i32>,
)
    requires
        v.wf(),
    ensures
        ({
            let next = spec_upgrade_next(v, building_id, max_level, costs, expected_level);
            &&& next.buildings.len() == v.buildings.len()
            &&& forall|i: int|
                0 <= i < v.buildings.len() ==> next.buildings[i].level >= v.buildings[i].level
            &&& forall|i: int|
                0 <= i < v.buildings.len() && v.buildings[i].level <= max_level
                    ==> next.buildings[i].level <= max_level
        }),
{
    if spec_upgrade_refusal_in(v, building_id, max_level, costs, expected_level) is None {
        lemma_upgrade_debits_and_raises_together(
            v,
            building_id,
            max_level,
            costs,
            expected_level,
        );
        let brow = v.building_row(building_id);
        assert(0 <= brow < v.buildings.len() && v.buildings[brow].id == building_id);
    }
}

/// A token is good for one upgrade: once an upgrade has gone through with
/// the token of a level, every further upgrade of that building with the
/// same token is refused as a lost race, whatever the owner holds.
pub proof fn lemma_token_wins_once(
    v: StoreView,
    building_id: i32,
    max_level: i32,
    costs: Costs,
    level: i32,
)
    requires
        v.wf(),
        spec_upgrade_refusal_in(v, building_id, max_level, costs, Some(level)) is None,
    ensures
        spec_upgrade_refusal_in(
            spec_upgrade_next(v, building_id, max_level, costs, Some(level)),
            building_id,
            max_level,
            costs,
            Some(level),
        ) == Some(EngineError::ConcurrentUpdate),
{
    lemma_upgrade_debits_and_raises_together(v, building_id, max_level, costs, Some(level));
}

/// A raise that finds the building at another level than the one that was
/// read touches nothing, and the upgrade then ends in a rollback as a lost
/// race.
pub proof fn lemma_changed_level_loses_the_race(
    v: StoreView,
    request: UpgradeRequest,
    fortress: Fortress,
    level: i32,
)
    requires
        !v.has_building(request.building_id) || v.building(request.building_id).level != level,
    ensures
        spec_perform(
            v,
            StoreAction::IncrementBuilding { id: request.building_id, expected_level: level },
        ) == (v, StoreReply::Incremented(None)),
        spec_upgrade_step(
            request,
            UpgradeState::Incrementing { fortress },
            StoreReply::Incremented(None),
        ) == (UpgradeState::Done, StoreAction::Rollback { error: EngineError::ConcurrentUpdate }),
{
}

/// Where a fortress can pay for one upgrade of a building and not for two,
/// and any number of attempts at that upgrade are made one after the other,
/// each with no token or with the level the building had at the start: the
/// first goes through, every later one is refused, with a lost race where
/// it carries a token and with insufficient resources where it carries
/// none, and the tables end as the first attempt left them. Attempts
/// without a token are admitted only where the building stays below the
/// ceiling after the one upgrade.
pub proof fn lemma_exactly_one_upgrade_succeeds(
    v: StoreView,
    building_id: i32,
    max_level: i32,
    costs: Costs,
    tokens: Seq<Option<i32>>,
)
    requires
        v.wf(),
        spec_valid_request(max_level, costs),
        v.has_building(building_id),
        v.building(building_id).level < max_level,
        v.has_fortress(v.building(building_id).fortress_id),
        spec_affords(v.fortress(v.building(building_id).fortress_id), costs),
        !spec_affords(
            spec_debit(v.fortress(v.building(building_id).fortress_id), costs),
            costs,
        ),
        tokens.len() >= 1,
        forall|i: int|
            0 <= i < tokens.len() ==> tokens[i] is None || tokens[i] == Some(
                v.building(building_id).level,
            ),
        v.building(building_id).level + 1 < max_level || forall|i: int|
            0 <= i < tokens.len() ==> tokens[i] is Some,
    ensures
        spec_outcome_at(v, building_id, max_level, costs, tokens, 0) is None,
        forall|i: int|
            1 <= i < tokens.len() ==> spec_outcome_at(v, building_id, max_level, costs, tokens, i)
                == if tokens[i] is Some {
                Some(EngineError::ConcurrentUpdate)
            } else {
                Some(EngineError::InsufficientResources)
            },
        spec_state_after(v, building_id, max_level, costs, tokens) == spec_upgrade_next(
            v,
            building_id,
            max_level,
            costs,
            tokens[0],
        ),
{
    assert(tokens.take(0).len() == 0);
    assert(spec_state_after(v, building_id, max_level, costs, tokens.take(0)) == v);
    assert forall|i: int| 1 <= i < tokens.len() implies spec_outcome_at(
        v,
        building_id,
        max_level,
        costs,
        tokens,
        i,
    ) == if tokens[i] is Some {
        Some(EngineError::ConcurrentUpdate)
    } else {
        Some(EngineError::InsufficientResources)
    } by {
        lemma_state_after_first_success(v, building_id, max_level, costs, tokens, i);
    }
    lemma_state_after_first_success(v, building_id, max_level, costs, tokens, tokens.len() as int);
    assert(tokens.take(tokens.len() as int) == tokens);
}

/// In the run of the law above, the tables after the first `k` attempts,
/// for any `k` of at least one, are those that the first attempt left, and
/// a further attempt is then refused.
proof fn lemma_state_after_first_success(
    v: StoreView,
    building_id: i32,
    max_level: i32,
    costs: Costs,
    tokens: Seq<Option<i32>>,
    k: int,
)
    requires
        v.wf(),
        spec_valid_request(max_level, costs),
        v.has_building(building_id),
        v.building(building_id).level < max_level,
        v.has_fortress(v.building(building_id).fortress_id),
        spec_affords(v.fortress(v.building(building_id).fortress_id), costs),
        !spec_affords(
            spec_debit(v.fortress(v.building(building_id).fortress_id), costs),
            costs,
        ),
        1 <= k <= tokens.len(),
        forall|i: int|
            0 <= i < tokens.len() ==> tokens[i] is None || tokens[i] == Some(
                v.building(building_id).level,
            ),
        v.building(building_id).level + 1 < max_level || forall|i: int|
            0 <= i < tokens.len() ==> tokens[i] is Some,
    ensures
        spec_state_after(v, building_id, max_level, costs, tokens.take(k)) == spec_upgrade_next(
            v,
            building_id,
            max_level,
            costs,
            tokens[0],
        ),
        k < tokens.len() ==> spec_outcome_at(v, building_id, max_level, costs, tokens, k)
            == if tokens[k] is Some {
            Some(EngineError::ConcurrentUpdate)
        } else {
            Some(EngineError::InsufficientResources)
        },
    decreases k,
{
    let first = spec_upgrade_next(v, building_id, max_level, costs, tokens[0]);
    let prefix = tokens.take(k);
    assert(prefix.drop_last() == tokens.take(k - 1));
    assert(prefix.last() == tokens[k - 1]);
    assert(spec_upgrade_refusal_in(v, building_id, max_level, costs, tokens[0]) is None);
    lemma_upgrade_debits_and_raises_together(v, building_id, max_level, costs, tokens[0]);
    if k == 1 {
        assert(tokens.take(0).len() == 0);
        assert(spec_state_after(v, building_id, max_level, costs, tokens.take(0)) == v);
    } else {
        lemma_state_after_first_success(v, building_id, max_level, costs, tokens, k - 1);
        assert(spec_outcome_at(v, building_id, max_level, costs, tokens, k - 1) is Some);
    }
    assert(spec_state_after(v, building_id, max_level, costs, prefix) == first);
    if k < tokens.len() {
        assert(first.building(building_id).fortress_id == v.building(building_id).fortress_id);
    }
}

/// A collection that is refused leaves the tables as they were; one that
/// goes through changes one counter of one fortress and nothing else, and
/// that counter does not go down.
pub proof fn lemma_collect_raises_one_counter(
    v: StoreView,
    fortress_id: i32,
    kind: ResourceKind,
    base: Option<i32>,
)
    requires
        v.wf(),
    ensures
        ({
            let next = spec_collect_next(v, fortress_id, kind, base);
            &&& next.wf()
            &&& next.buildings == v.buildings
            &&& next.fortresses.len() == v.fortresses.len()
            &&& spec_collect_refusal(v, fortress_id, kind, base) is Some ==> next == v
            &&& spec_collect_refusal(v, fortress_id, kind, base) is None ==> {
                &&& next.has_fortress(fortress_id)
                &&& next.fortress(fortress_id) == spec_with_amount(
                    v.fortress(fortress_id),
                    kind,
                    spec_collected_amount(v, fortress_id, kind, base),
                )
                &&& next.fortress(fortress_id).spec_amount(kind) == spec_collected_amount(
                    v,
                    fortress_id,
                    kind,
                    base,
                )
                &&& next.fortress(fortress_id).spec_amount(kind) >= v.fortress(
                    fortress_id,
                ).spec_amount(kind)
                &&& forall|other: ResourceKind|
                    other != kind ==> next.fortress(fortress_id).spec_amount(other) == v.fortress(
                        fortress_id,
                    ).spec_amount(other)
                &&& forall|i: int|
                    0 <= i < v.fortresses.len() && i != v.fortress_row(fortress_id)
                        ==> next.fortresses[i] == v.fortresses[i]
            }
        }),
{
    if spec_collect_refusal(v, fortress_id, kind, base) is None {
        let row = v.fortress_row(fortress_id);
        assert(0 <= row < v.fortresses.len() && v.fortresses[row].id == fortress_id);
        assert(v.fortresses[row].wf());
        lemma_level_sum_nonnegative(
            v.buildings,
            Some(fortress_id),
            spec_designated_building(kind),
        );
        let after = spec_with_amount(
            v.fortress(fortress_id),
            kind,
            spec_collected_amount(v, fortress_id, kind, base),
        );
        lemma_with_fortress_wf(v, row, after);
    }
}

/// Neither transaction parts a building from its owner: where every
/// building named a fortress of the table before, every building does so
/// afterwards.
pub proof fn lemma_transactions_keep_owners(
    v: StoreView,
    building_id: i32,
    max_level: i32,
    costs: Costs,
    expected_level: Option<i32>,
    fortress_id: i32,
    kind: ResourceKind,
    base: Option<i32>,
)
    requires
        v.wf(),
        v.owners_present(),
    ensures
        spec_upgrade_next(v, building_id, max_level, costs, expected_level).owners_present(),
        spec_collect_next(v, fortress_id, kind, base).owners_present(),
{
    let upgraded = spec_upgrade_next(v, building_id, max_level, costs, expected_level);
    if spec_upgrade_refusal_in(v, building_id, max_level, costs, expected_level) is None {
        lemma_upgrade_debits_and_raises_together(
            v,
            building_id,
            max_level,
            costs,
            expected_level,
        );
        let owner = v.building(building_id).fortress_id;
        let frow = v.fortress_row(owner);
        let brow = v.building_row(building_id);
        assert(0 <= frow < v.fortresses.len() && v.fortresses[frow].id == owner);
        assert(0 <= brow < v.buildings.len() && v.buildings[brow].id == building_id);
        assert forall|i: int| 0 <= i < upgraded.buildings.len() implies upgraded.has_fortress(
            upgraded.buildings[i].fortress_id,
        ) by {
            let named = upgraded.buildings[i].fortress_id;
            assert(v.buildings[i].fortress_id == named);
            assert(v.has_fortress(named));
            let k = v.fortress_row(named);
            assert(upgraded.fortresses[k].id == named);
        }
    }
    let collected = spec_collect_next(v, fortress_id, kind, base);
    lemma_collect_raises_one_counter(v, fortress_id, kind, base);
    if spec_collect_refusal(v, fortress_id, kind, base) is None {
        let row = v.fortress_row(fortress_id);
        assert(0 <= row < v.fortresses.len() && v.fortresses[row].id == fortress_id);
        assert forall|i: int| 0 <= i < collected.buildings.len() implies collected.has_fortress(
            collected.buildings[i].fortress_id,
        ) by {
            let named = collected.buildings[i].fortress_id;
            assert(v.has_fortress(named));
            let k = v.fortress_row(named);
            assert(collected.fortresses[k].id == named);
        }
    }
}

/// Summing over the table while looking at the owner gives what the bonus
/// gives on the owner's own list.
pub proof fn lemma_owned_sum_is_bonus_of_own_list(
    buildings: Seq<Building>,
    owner: i32,
    name: Seq<char>,
)
    ensures
        spec_level_sum(buildings, Some(owner), name) == spec_bonus(
            spec_buildings_of(buildings, owner),
            name,
        ),
    decreases buildings.len(),
{
    reveal(Seq::filter);
    if buildings.len() > 0 {
        let rest = buildings.drop_last();
        let last = buildings.last();
        lemma_owned_sum_is_bonus_of_own_list(rest, owner, name);
        if last.fortress_id == owner {
            lemma_level_sum_push(spec_buildings_of(rest, owner), last, None, name);
        }
    }
}

/// Deciding a collection on a fortress and its own buildings as they were
/// read gives the amount that the collection in the tables gives.
pub proof fn lemma_planned_collection_is_the_transaction(
    v: StoreView,
    fortress_id: i32,
    kind: ResourceKind,
    base: Option<i32>,
)
    ensures
        spec_planned_amount(
            v.fortress(fortress_id),
            spec_buildings_of(v.buildings, fortress_id),
            kind,
            base,
        ) == spec_collected_amount(v, fortress_id, kind, base),
{
    lemma_owned_sum_is_bonus_of_own_list(
        v.buildings,
        fortress_id,
        spec_designated_building(kind),
    );
}

/// Deciding an upgrade on a building and its owner as they were read, with
/// no token, refuses exactly where the upgrade in the tables refuses, and
/// for the same reason.
pub proof fn lemma_planned_upgrade_is_the_transaction(
    v: StoreView,
    building_id: i32,
    max_level: i32,
    costs: Costs,
)
    requires
        v.wf(),
        v.has_building(building_id),
        v.has_fortress(v.building(building_id).fortress_id),
    ensures
        spec_upgrade_refusal(
            v.fortress(v.building(building_id).fortress_id),
            v.building(building_id),
            costs,
            max_level,
        ) == spec_upgrade_refusal_in(v, building_id, max_level, costs, None),
{
    let owner = v.building(building_id).fortress_id;
    let row = v.fortress_row(owner);
    assert(0 <= row < v.fortresses.len() && v.fortresses[row].id == owner);
}

} // verus!
