use rusty::bonus::{
    checked_bonus, designated_building, get_bonus, get_energy_bonus, get_food_bonus,
    get_gold_bonus, get_wood_bonus, level_sum, wide_level_sum,
};
use rusty::models::{
    default_new_buildings, Building, EngineError, Fortress, NewBuilding, NewFortress, ResourceKind,
};

fn building(id: i32, name: &str, level: i32, fortress_id: i32) -> Building {
    Building { id, name: String::from(name), level, fortress_id }
}

fn village() -> Vec<Building> {
    vec![
        building(1, "bank", 3, 1),
        building(2, "farm", 5, 1),
        building(3, "sawmill", 7, 1),
        building(4, "sanctuary", 11, 1),
        building(5, "bank", 13, 2),
        building(6, "tavern", 100, 1),
        building(7, "Bank", 1000, 1),
    ]
}

#[test]
fn designated_building_of_each_kind() {
    assert_eq!(designated_building(ResourceKind::Gold), "bank");
    assert_eq!(designated_building(ResourceKind::Food), "farm");
    assert_eq!(designated_building(ResourceKind::Wood), "sawmill");
    assert_eq!(designated_building(ResourceKind::Energy), "sanctuary");
}

#[test]
fn empty_list_gives_no_bonus() {
    let none: Vec<Building> = vec![];
    assert_eq!(get_gold_bonus(&none), 0);
    assert_eq!(get_food_bonus(&none), 0);
    assert_eq!(get_wood_bonus(&none), 0);
    assert_eq!(get_energy_bonus(&none), 0);
    assert_eq!(checked_bonus(&none, "bank"), Some(0));
}

#[test]
fn bonus_sums_levels_of_the_designated_building() {
    let buildings = village();
    assert_eq!(get_gold_bonus(&buildings), 16);
    assert_eq!(get_food_bonus(&buildings), 5);
    assert_eq!(get_wood_bonus(&buildings), 7);
    assert_eq!(get_energy_bonus(&buildings), 11);
    assert_eq!(get_bonus(&buildings, ResourceKind::Gold), 16);
    assert_eq!(get_bonus(&buildings, ResourceKind::Food), 5);
    assert_eq!(get_bonus(&buildings, ResourceKind::Wood), 7);
    assert_eq!(get_bonus(&buildings, ResourceKind::Energy), 11);
}

#[test]
fn other_names_contribute_nothing() {
    let buildings = vec![building(1, "tavern", 9, 1), building(2, "", 4, 1)];
    assert_eq!(get_gold_bonus(&buildings), 0);
    assert_eq!(get_food_bonus(&buildings), 0);
    assert_eq!(get_wood_bonus(&buildings), 0);
    assert_eq!(get_energy_bonus(&buildings), 0);
    assert_eq!(checked_bonus(&buildings, "tavern"), Some(9));
}

#[test]
fn level_sum_can_be_held_to_one_owner() {
    let buildings = village();
    assert_eq!(level_sum(&buildings, None, "bank"), Some(16));
    assert_eq!(level_sum(&buildings, Some(1), "bank"), Some(3));
    assert_eq!(level_sum(&buildings, Some(2), "bank"), Some(13));
    assert_eq!(level_sum(&buildings, Some(3), "bank"), Some(0));
    assert_eq!(wide_level_sum(&buildings, Some(1), "sanctuary"), 11);
}

#[test]
fn bonus_outside_the_range_is_reported() {
    let buildings = vec![building(1, "bank", i32::MAX, 1), building(2, "bank", 1, 1)];
    assert_eq!(checked_bonus(&buildings, "bank"), None);
    assert_eq!(wide_level_sum(&buildings, None, "bank"), 2147483648);
    let buildings = vec![building(1, "bank", i32::MAX, 1), building(2, "bank", 0, 1)];
    assert_eq!(checked_bonus(&buildings, "bank"), Some(i32::MAX));
    let buildings = vec![building(1, "bank", i32::MIN, 1), building(2, "bank", -1, 1)];
    assert_eq!(checked_bonus(&buildings, "bank"), None);
}

#[test]
fn new_fortress_owns_nothing() {
    let fresh = NewFortress::new();
    assert_eq!(fresh, NewFortress { gold: 0, food: 0, wood: 0, energy: 0 });
    assert_eq!(NewFortress::default(), fresh);
}

#[test]
fn new_building_starts_at_level_zero() {
    let fresh = NewBuilding::new(String::from("farm"), 12);
    assert_eq!(fresh, NewBuilding { name: String::from("farm"), level: 0, fortress_id: 12 });
}

#[test]
fn every_fortress_starts_with_four_buildings() {
    let buildings = default_new_buildings(5);
    let names: Vec<&str> = buildings.iter().map(|b| b.name.as_str()).collect();
    assert_eq!(names, vec!["bank", "farm", "sawmill", "sanctuary"]);
    for b in &buildings {
        assert_eq!(b.level, 0);
        assert_eq!(b.fortress_id, 5);
    }
}

#[test]
fn amount_selects_the_counter() {
    let fortress = Fortress { id: 1, gold: 2, food: 3, wood: 4, energy: 5 };
    assert_eq!(fortress.amount(ResourceKind::Gold), 2);
    assert_eq!(fortress.amount(ResourceKind::Food), 3);
    assert_eq!(fortress.amount(ResourceKind::Wood), 4);
    assert_eq!(fortress.amount(ResourceKind::Energy), 5);
}

#[test]
fn kinds_go_by_their_names() {
    assert_eq!(ResourceKind::Gold.name(), "gold");
    assert_eq!(ResourceKind::Food.name(), "food");
    assert_eq!(ResourceKind::Wood.name(), "wood");
    assert_eq!(ResourceKind::Energy.name(), "energy");
    assert_eq!(ResourceKind::from_name("gold"), Ok(ResourceKind::Gold));
    assert_eq!(ResourceKind::from_name("food"), Ok(ResourceKind::Food));
    assert_eq!(ResourceKind::from_name("wood"), Ok(ResourceKind::Wood));
    assert_eq!(ResourceKind::from_name("energy"), Ok(ResourceKind::Energy));
    assert_eq!(ResourceKind::from_name(""), Err(EngineError::InvalidArgument));
    assert_eq!(ResourceKind::from_name("Gold"), Err(EngineError::InvalidArgument));
    assert_eq!(ResourceKind::from_name("stone"), Err(EngineError::InvalidArgument));
}
