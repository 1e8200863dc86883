use rusty::cost::{effective_level, get_costs, validate_level_max};
use rusty::models::{Costs, EngineError};

fn upgrade_cost(level: i32, base: i32, factor: f64) -> f64 {
    f64::from(base) * factor.powf(f64::from(effective_level(level) - 1))
}

fn optimize_factor(level_max: i32, base: i32, cost_max: i32) -> f64 {
    (f64::from(cost_max) / f64::from(base)).powf(1.0 / (f64::from(level_max) - 1.0))
}

#[test]
fn lib_test_optimize_factor() {
    const BASE: i32 = 10;
    let cost_max: i32 = i32::MAX;
    let levels: Vec<i32> = vec![10, 50, 100, 200, 1000];

    for level in levels {
        assert_eq!(validate_level_max(level), Ok(()));
        let factor = optimize_factor(level, BASE, cost_max);
        println!("level max: {level}, base: {BASE}, factor: {factor}");
        assert!(factor >= 1.0);
    }
}

#[test]
fn lib_test_upgrade_cost() {
    const BASE: i32 = 10;
    const FACTOR: f64 = 1.1012;
    let result = upgrade_cost(0, BASE, FACTOR) as i32;
    assert_eq!(result, 10);
    let result = upgrade_cost(1, BASE, FACTOR) as i32;
    assert_eq!(result, 10);
    let result = upgrade_cost(2, BASE, FACTOR) as i32;
    assert_eq!(result, 11);
    let result = upgrade_cost(3, BASE, FACTOR) as i32;
    assert_eq!(result, 12);
    let result = upgrade_cost(4, BASE, FACTOR) as i32;
    assert_eq!(result, 13);
    let result = upgrade_cost(5, BASE, FACTOR) as i32;
    assert_eq!(result, 14);
    let result = upgrade_cost(50, BASE, FACTOR) as i32;
    assert_eq!(result, 1125);
    let result = upgrade_cost(100, BASE, FACTOR) as i32;
    assert_eq!(result, 139557);
    let result = upgrade_cost(150, BASE, FACTOR) as i32;
    assert_eq!(result, 17300721);
    let result = upgrade_cost(200, BASE, FACTOR) as i32;
    assert_eq!(result, 2144738468);
}

#[test]
fn lib_test_upgrade_cost_overflow() {
    const BASE: i32 = 10;
    const FACTOR: f64 = 1.1012;
    let result = upgrade_cost(250, BASE, FACTOR) as i32;
    assert_eq!(result, i32::MAX);
    let result = upgrade_cost(1000, BASE, FACTOR) as i32;
    assert_eq!(result, i32::MAX);
    let result = upgrade_cost(i32::MAX, BASE, FACTOR) as i32;
    assert_eq!(result, i32::MAX);
}

#[test]
fn lib_test_level_slice() {
    const BASE: i32 = 10;
    let cost_max: i32 = i32::MAX;
    let levels: Vec<i32> = vec![10, 50, 100, 200, 1000];

    for level in levels {
        let factor = optimize_factor(level, BASE, cost_max);
        let result_min = upgrade_cost(1, BASE, factor) as i32;
        let result_max = upgrade_cost(level, BASE, factor) as i32;
        println!("{}: {} -> {}: {}", 1, result_min, level, result_max);
        assert!(BASE <= result_min && result_min <= cost_max);
        assert!(BASE <= result_max && result_max <= cost_max);
        assert!(result_min <= result_max);
    }
}

#[test]
fn effective_level_starts_at_one() {
    assert_eq!(effective_level(i32::MIN), 1);
    assert_eq!(effective_level(-5), 1);
    assert_eq!(effective_level(0), 1);
    assert_eq!(effective_level(1), 1);
    assert_eq!(effective_level(2), 2);
    assert_eq!(effective_level(i32::MAX), i32::MAX);
}

#[test]
fn costs_are_split_by_truncating_division() {
    assert_eq!(get_costs(10), Costs { gold: 5, food: 10, wood: 2, energy: 1 });
    assert_eq!(get_costs(11), Costs { gold: 5, food: 11, wood: 2, energy: 1 });
    assert_eq!(get_costs(1125), Costs { gold: 562, food: 1125, wood: 225, energy: 112 });
    assert_eq!(get_costs(0), Costs { gold: 0, food: 0, wood: 0, energy: 0 });
    assert_eq!(get_costs(9), Costs { gold: 4, food: 9, wood: 1, energy: 0 });
    assert_eq!(
        get_costs(i32::MAX),
        Costs { gold: 1073741823, food: 2147483647, wood: 429496729, energy: 214748364 }
    );
    assert_eq!(get_costs(-9), Costs { gold: -4, food: -9, wood: -1, energy: 0 });
}

#[test]
fn costs_follow_the_curve_upwards() {
    const BASE: i32 = 10;
    const FACTOR: f64 = 1.1012;
    let mut previous = get_costs(upgrade_cost(1, BASE, FACTOR) as i32);
    for level in 2..300 {
        let cost = upgrade_cost(level, BASE, FACTOR) as i32;
        let next = get_costs(cost);
        assert!(previous.gold <= next.gold);
        assert!(previous.food <= next.food);
        assert!(previous.wood <= next.wood);
        assert!(previous.energy <= next.energy);
        assert!(next.food <= i32::MAX);
        previous = next;
    }
}

#[test]
fn level_max_must_exceed_one() {
    assert_eq!(validate_level_max(2), Ok(()));
    assert_eq!(validate_level_max(20), Ok(()));
    assert_eq!(validate_level_max(1), Err(EngineError::InvalidArgument));
    assert_eq!(validate_level_max(0), Err(EngineError::InvalidArgument));
    assert_eq!(validate_level_max(-4), Err(EngineError::InvalidArgument));
}
