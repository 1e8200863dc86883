use rusty::fortress::{
    copy_slot, default_buildings, find_key, merge_slots, Building, Fortress, Improvement, Slot,
};

fn slot(key: &str, name: &str, level: i32) -> Slot {
    Slot { key: String::from(key), building: Building { name: String::from(name), level } }
}

#[test]
fn test_new() {
    let fortress = Fortress::new();

    println!("{:?}", fortress);
}

#[test]
fn test_earn_without_energy() {
    let mut fortress = Fortress::new();

    assert_eq!(fortress.gold, 0);
    assert_eq!(fortress.food, 0);
    assert_eq!(fortress.wood, 0);
    assert_eq!(fortress.energy, 0);
    fortress.earn_gold();
    fortress.gather_food();
    fortress.fell_trees();
    assert_eq!(fortress.gold, 0);
    assert_eq!(fortress.food, 0);
    assert_eq!(fortress.wood, 0);
    assert_eq!(fortress.energy, 0);
}

#[test]
fn test_earn_with_energy() {
    let mut fortress = Fortress::new();

    assert_eq!(fortress.energy, 0);
    fortress.collect_energy();
    fortress.collect_energy();
    fortress.collect_energy();
    assert_eq!(fortress.energy, 3);
    fortress.earn_gold();
    fortress.gather_food();
    fortress.fell_trees();
    assert_eq!(fortress.gold, 1);
    assert_eq!(fortress.food, 1);
    assert_eq!(fortress.wood, 1);
    assert_eq!(fortress.energy, 0);
}

#[test]
fn test_improve_farm() {
    let mut fortress = Fortress::new();

    assert_eq!(fortress.building_level("farm"), Some(1));
    fortress.improve("farm");
    assert_eq!(fortress.building_level("farm"), Some(1));
    fortress.wood = 3;
    fortress.improve("farm");
    assert_eq!(fortress.wood, 1);
    assert_eq!(fortress.building_level("farm"), Some(2));
    fortress.improve("farm");
    assert_eq!(fortress.wood, 1);
    assert_eq!(fortress.building_level("farm"), Some(2));
    fortress.wood = 4;
    fortress.improve("farm");
    assert_eq!(fortress.wood, 0);
    assert_eq!(fortress.building_level("farm"), Some(3));
}

#[test]
fn test_improve_sawmill() {
    let mut fortress = Fortress::new();

    assert_eq!(fortress.building_level("sawmill"), Some(1));
    fortress.improve("sawmill");
    assert_eq!(fortress.building_level("sawmill"), Some(1));
    fortress.wood = 3;
    fortress.improve("sawmill");
    assert_eq!(fortress.wood, 1);
    assert_eq!(fortress.building_level("sawmill"), Some(2));
    fortress.improve("sawmill");
    assert_eq!(fortress.wood, 1);
    assert_eq!(fortress.building_level("sawmill"), Some(2));
    fortress.wood = 4;
    fortress.improve("sawmill");
    assert_eq!(fortress.wood, 0);
    assert_eq!(fortress.building_level("sawmill"), Some(3));
}

#[test]
fn test_improve_sanctuary() {
    let mut fortress = Fortress::new();

    assert_eq!(fortress.building_level("sanctuary"), Some(1));
    fortress.improve("sanctuary");
    assert_eq!(fortress.building_level("sanctuary"), Some(1));
    fortress.wood = 3;
    fortress.improve("sanctuary");
    assert_eq!(fortress.wood, 1);
    assert_eq!(fortress.building_level("sanctuary"), Some(2));
    fortress.improve("sanctuary");
    assert_eq!(fortress.wood, 1);
    assert_eq!(fortress.building_level("sanctuary"), Some(2));
    fortress.wood = 4;
    fortress.improve("sanctuary");
    assert_eq!(fortress.wood, 0);
    assert_eq!(fortress.building_level("sanctuary"), Some(3));
}

#[test]
fn test_improve_unknown() {
    let mut fortress = Fortress::new();

    assert!(!fortress.has_building("unknown"));
    fortress.improve("unknown");
    assert!(!fortress.has_building("unknown"));
    fortress.wood = 3;
    fortress.improve("unknown");
    assert_eq!(fortress.wood, 3);
    assert!(!fortress.has_building("unknown"));
    fortress.improve("unknown");
    assert_eq!(fortress.wood, 3);
    assert!(!fortress.has_building("unknown"));
    fortress.wood = 4;
    fortress.improve("unknown");
    assert_eq!(fortress.wood, 4);
    assert!(!fortress.has_building("unknown"));
}

#[test]
fn restore_keeps_a_complete_save() {
    let saved = vec![
        slot("farm", "super farm", 1),
        slot("sanctuary", "super sanctuary", 2),
        slot("sawmill", "super sawmill", 3),
    ];
    let fortress = Fortress::restore(6, 5, 7, 4, &saved);
    assert_eq!(fortress.gold, 6);
    assert_eq!(fortress.food, 5);
    assert_eq!(fortress.wood, 7);
    assert_eq!(fortress.energy, 4);
    assert_eq!(fortress.building_name("farm"), Some(String::from("super farm")));
    assert_eq!(fortress.building_level("farm"), Some(1));
    assert_eq!(fortress.building_name("sanctuary"), Some(String::from("super sanctuary")));
    assert_eq!(fortress.building_level("sanctuary"), Some(2));
    assert_eq!(fortress.building_name("sawmill"), Some(String::from("super sawmill")));
    assert_eq!(fortress.building_level("sawmill"), Some(3));
    assert_eq!(fortress.buildings, saved);
}

#[test]
fn restore_completes_a_save_with_one_building() {
    let saved = vec![slot("farm", "super farm", 42)];
    let fortress = Fortress::restore(1, 2, 3, 4, &saved);
    assert_eq!(fortress.gold, 1);
    assert_eq!(fortress.food, 2);
    assert_eq!(fortress.wood, 3);
    assert_eq!(fortress.energy, 4);
    assert_eq!(fortress.building_name("farm"), Some(String::from("super farm")));
    assert_eq!(fortress.building_level("farm"), Some(42));
    assert_eq!(fortress.building_name("sanctuary"), Some(String::from("sanctuary")));
    assert_eq!(fortress.building_level("sanctuary"), Some(1));
    assert_eq!(fortress.building_name("sawmill"), Some(String::from("sawmill")));
    assert_eq!(fortress.building_level("sawmill"), Some(1));
    assert_eq!(fortress.buildings.len(), 3);
}

#[test]
fn restore_completes_a_save_without_buildings() {
    let fortress = Fortress::restore(1, 2, 3, 4, &vec![]);
    assert_eq!(fortress.gold, 1);
    assert_eq!(fortress.food, 2);
    assert_eq!(fortress.wood, 3);
    assert_eq!(fortress.energy, 4);
    assert_eq!(fortress.building_name("farm"), Some(String::from("farm")));
    assert_eq!(fortress.building_level("farm"), Some(1));
    assert_eq!(fortress.building_name("sanctuary"), Some(String::from("sanctuary")));
    assert_eq!(fortress.building_level("sanctuary"), Some(1));
    assert_eq!(fortress.building_name("sawmill"), Some(String::from("sawmill")));
    assert_eq!(fortress.building_level("sawmill"), Some(1));
    assert_eq!(fortress.buildings, default_buildings());
}

#[test]
fn restore_keeps_the_first_of_two_buildings_under_one_key() {
    let saved = vec![slot("tower", "old tower", 3), slot("tower", "new tower", 9)];
    let fortress = Fortress::restore(0, 0, 0, 0, &saved);
    assert_eq!(fortress.building_level("tower"), Some(3));
    assert_eq!(fortress.building_name("tower"), Some(String::from("old tower")));
    assert_eq!(fortress.buildings.len(), 4);
}

#[test]
fn default_buildings_are_three_at_level_one() {
    assert_eq!(
        default_buildings(),
        vec![
            slot("farm", "farm", 1),
            slot("sawmill", "sawmill", 1),
            slot("sanctuary", "sanctuary", 1)
        ]
    );
}

#[test]
fn building_starts_at_level_one_and_improves_by_one() {
    let mut building = Building::from("farm");
    assert_eq!(building.name, "farm");
    assert_eq!(building.level(), 1);
    building.improve();
    assert_eq!(building.level(), 2);
    assert_eq!(building.name, "farm");
}

#[test]
fn actions_report_whether_they_went_through() {
    let mut fortress = Fortress::new();
    assert!(!fortress.earn_gold());
    assert!(!fortress.gather_food());
    assert!(!fortress.fell_trees());
    assert_eq!(fortress.improve("farm"), Improvement::NotEnoughWood);
    assert_eq!(fortress.improve("mill"), Improvement::NotFound);
    fortress.energy = 3;
    fortress.wood = 2;
    assert_eq!(fortress.improve("farm"), Improvement::Improved);
    assert_eq!(fortress.improve("sawmill"), Improvement::NotEnoughWood);
    assert!(fortress.gather_food());
    assert_eq!(fortress.food, 2);
    assert!(fortress.fell_trees());
    assert_eq!(fortress.wood, 1);
    assert!(fortress.earn_gold());
    assert_eq!(fortress.gold, 1);
    assert_eq!(fortress.energy, 0);
    assert!(!fortress.earn_gold());
    assert_eq!(fortress.gold, 1);
}

#[test]
fn energy_and_wood_are_spent_only_where_they_reach() {
    let mut fortress = Fortress::new();
    fortress.energy = 5;
    fortress.wood = 5;
    assert_eq!(fortress.use_energy(6), Err(()));
    assert_eq!(fortress.energy, 5);
    assert_eq!(fortress.use_energy(5), Ok(()));
    assert_eq!(fortress.energy, 0);
    assert_eq!(fortress.use_wood(6), Err(()));
    assert_eq!(fortress.wood, 5);
    assert_eq!(fortress.use_wood(2), Ok(()));
    assert_eq!(fortress.wood, 3);
}

#[test]
fn slots_are_found_and_merged_by_key() {
    let base = vec![slot("a", "first", 1), slot("b", "second", 2)];
    assert_eq!(find_key(&base, "a"), Some(0));
    assert_eq!(find_key(&base, "b"), Some(1));
    assert_eq!(find_key(&base, "c"), None);
    let extra = vec![slot("b", "other", 7), slot("c", "third", 3), slot("c", "fourth", 4)];
    let merged = merge_slots(base, &extra);
    assert_eq!(
        merged,
        vec![slot("a", "first", 1), slot("b", "second", 2), slot("c", "third", 3)]
    );
    assert_eq!(copy_slot(&extra[0]), slot("b", "other", 7));
}

#[test]
fn default_fortress_is_a_new_one() {
    assert_eq!(Fortress::default(), Fortress::new());
}

#[test]
fn well_formedness_is_decided() {
    let mut fortress = Fortress::new();
    assert!(fortress.is_well_formed());
    fortress.buildings.push(slot("tower", "tower", 1));
    assert!(fortress.is_well_formed());
    fortress.buildings.push(slot("farm", "other farm", 1));
    assert!(!fortress.is_well_formed());
    fortress.buildings.pop();
    fortress.buildings.remove(1);
    assert!(!fortress.is_well_formed());
    assert!(Fortress::restore(0, 0, 0, 0, &fortress.buildings).is_well_formed());
}
