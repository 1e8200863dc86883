use rusty::models::{Building, Costs, EngineError, Fortress};
use rusty::upgrade::{
    affords, check_level, classify_missed_debit, upgrade_building, validate_request,
};

fn fortress(id: i32, gold: i32) -> Fortress {
    Fortress { id, gold, food: 0, wood: 0, energy: 0 }
}

fn building(level: i32, fortress_id: i32) -> Building {
    Building { id: 0, name: String::from(""), level, fortress_id }
}

fn gold_only(gold: i32) -> Costs {
    Costs { gold, food: 0, wood: 0, energy: 0 }
}

#[test]
fn lib_test_upgrade_building() {
    let fortress = Fortress { id: 0, gold: 0, food: 0, wood: 0, energy: 0 };
    let building = Building { id: 0, name: String::from(""), level: 1, fortress_id: 0 };
    let costs = Costs { gold: 0, food: 0, wood: 0, energy: 0 };
    let result = upgrade_building(&fortress, &building, &costs, 200);
    assert!(result.is_ok());
    if let Ok((update_fortress, update_building)) = result {
        assert_eq!(update_fortress.gold, Some(0));
        assert_eq!(update_fortress.food, Some(0));
        assert_eq!(update_fortress.wood, Some(0));
        assert_eq!(update_fortress.energy, Some(0));
        assert_eq!(update_building.level, Some(building.level + 1));
    }
}

#[test]
fn lib_test_upgrade_building_error() {
    {
        let fortress = Fortress { id: 0, gold: 10, food: 0, wood: 0, energy: 0 };
        let building = Building { id: 0, name: String::from(""), level: 1, fortress_id: 0 };
        let costs = Costs { gold: 11, food: 0, wood: 0, energy: 0 };
        let result = upgrade_building(&fortress, &building, &costs, 200);
        assert!(result.is_err());
        if let Err(msg) = result {
            println!("error: {}", msg.message());
        }
    }
    {
        let fortress = Fortress { id: 0, gold: 10, food: 0, wood: 0, energy: 0 };
        let building = Building { id: 0, name: String::from(""), level: 200, fortress_id: 0 };
        let costs = Costs { gold: 5, food: 0, wood: 0, energy: 0 };
        let result = upgrade_building(&fortress, &building, &costs, 200);
        assert!(result.is_err());
        if let Err(msg) = result {
            println!("error: {}", msg.message());
        }
    }
    {
        let fortress = Fortress { id: 1, gold: 10, food: 0, wood: 0, energy: 0 };
        let building = Building { id: 0, name: String::from(""), level: 1, fortress_id: 0 };
        let costs = Costs { gold: 5, food: 0, wood: 0, energy: 0 };
        let result = upgrade_building(&fortress, &building, &costs, 200);
        assert!(result.is_err());
        if let Err(msg) = result {
            println!("error: {}", msg.message());
        }
    }
}

#[test]
fn service_test_upgrade_building() {
    let fortress = Fortress { id: 0, gold: 0, food: 0, wood: 0, energy: 0 };
    let building = Building { id: 0, name: String::from(""), level: 1, fortress_id: 0 };
    let costs = Costs { gold: 0, food: 0, wood: 0, energy: 0 };
    let result = upgrade_building(&fortress, &building, &costs, 200);
    assert!(result.is_ok());
    if let Ok((update_fortress, update_building)) = result {
        assert_eq!(update_fortress.gold, Some(0));
        assert_eq!(update_fortress.food, Some(0));
        assert_eq!(update_fortress.wood, Some(0));
        assert_eq!(update_fortress.energy, Some(0));
        assert_eq!(update_building.level, Some(building.level + 1));
    }
}

#[test]
fn service_test_upgrade_building_error() {
    {
        let fortress = Fortress { id: 0, gold: 10, food: 0, wood: 0, energy: 0 };
        let building = Building { id: 0, name: String::from(""), level: 1, fortress_id: 0 };
        let costs = Costs { gold: 11, food: 0, wood: 0, energy: 0 };
        let result = upgrade_building(&fortress, &building, &costs, 200);
        assert!(result.is_err());
        if let Err(msg) = result {
            println!("error: {}", msg.message());
        }
    }
    {
        let fortress = Fortress { id: 0, gold: 10, food: 0, wood: 0, energy: 0 };
        let building = Building { id: 0, name: String::from(""), level: 200, fortress_id: 0 };
        let costs = Costs { gold: 5, food: 0, wood: 0, energy: 0 };
        let result = upgrade_building(&fortress, &building, &costs, 200);
        assert!(result.is_err());
        if let Err(msg) = result {
            println!("error: {}", msg.message());
        }
    }
    {
        let fortress = Fortress { id: 1, gold: 10, food: 0, wood: 0, energy: 0 };
        let building = Building { id: 0, name: String::from(""), level: 1, fortress_id: 0 };
        let costs = Costs { gold: 5, food: 0, wood: 0, energy: 0 };
        let result = upgrade_building(&fortress, &building, &costs, 200);
        assert!(result.is_err());
        if let Err(msg) = result {
            println!("error: {}", msg.message());
        }
    }
}

#[test]
fn upgrade_reports_insufficient_resources() {
    let result = upgrade_building(&fortress(0, 10), &building(1, 0), &gold_only(11), 200);
    assert_eq!(result, Err(EngineError::InsufficientResources));
}

#[test]
fn upgrade_reports_max_level() {
    let result = upgrade_building(&fortress(0, 10), &building(200, 0), &gold_only(5), 200);
    assert_eq!(result, Err(EngineError::MaxLevel));
}

#[test]
fn upgrade_rejects_foreign_fortress() {
    let result = upgrade_building(&fortress(1, 10), &building(1, 0), &gold_only(5), 200);
    assert_eq!(result, Err(EngineError::FortressMismatch));
    let result = upgrade_building(&fortress(0, 10), &building(1, 7), &gold_only(5), 200);
    assert_eq!(result, Err(EngineError::FortressMismatch));
}

#[test]
fn upgrade_rejects_malformed_request() {
    let result = upgrade_building(&fortress(0, 10), &building(1, 0), &gold_only(-1), 200);
    assert_eq!(result, Err(EngineError::InvalidArgument));
    let result = upgrade_building(&fortress(0, 10), &building(1, 0), &gold_only(1), 0);
    assert_eq!(result, Err(EngineError::InvalidArgument));
    let result = upgrade_building(&fortress(0, 10), &building(1, 0), &gold_only(1), -3);
    assert_eq!(result, Err(EngineError::InvalidArgument));
}

#[test]
fn upgrade_debits_every_resource() {
    let fortress = Fortress { id: 4, gold: 10, food: 20, wood: 30, energy: 40 };
    let building = Building { id: 9, name: String::from("farm"), level: 19, fortress_id: 4 };
    let costs = Costs { gold: 1, food: 20, wood: 3, energy: 4 };
    let (update_fortress, update_building) =
        upgrade_building(&fortress, &building, &costs, 20).unwrap();
    assert_eq!(update_fortress.gold, Some(9));
    assert_eq!(update_fortress.food, Some(0));
    assert_eq!(update_fortress.wood, Some(27));
    assert_eq!(update_fortress.energy, Some(36));
    assert_eq!(update_building.level, Some(20));
    assert_eq!(update_building.name, None);
    assert_eq!(update_building.fortress_id, None);
}

#[test]
fn affords_compares_each_counter() {
    let fortress = Fortress { id: 0, gold: 1, food: 2, wood: 3, energy: 4 };
    assert!(affords(&fortress, &Costs { gold: 1, food: 2, wood: 3, energy: 4 }));
    assert!(!affords(&fortress, &Costs { gold: 2, food: 0, wood: 0, energy: 0 }));
    assert!(!affords(&fortress, &Costs { gold: 0, food: 3, wood: 0, energy: 0 }));
    assert!(!affords(&fortress, &Costs { gold: 0, food: 0, wood: 4, energy: 0 }));
    assert!(!affords(&fortress, &Costs { gold: 0, food: 0, wood: 0, energy: 5 }));
}

#[test]
fn request_validation() {
    assert_eq!(validate_request(20, &gold_only(0)), Ok(()));
    assert_eq!(validate_request(1, &gold_only(7)), Ok(()));
    assert_eq!(validate_request(0, &gold_only(0)), Err(EngineError::InvalidArgument));
    assert_eq!(
        validate_request(20, &Costs { gold: 0, food: 0, wood: 0, energy: -1 }),
        Err(EngineError::InvalidArgument)
    );
}

#[test]
fn level_checks_token_before_ceiling() {
    assert_eq!(check_level(3, None, 20), Ok(()));
    assert_eq!(check_level(3, Some(3), 20), Ok(()));
    assert_eq!(check_level(3, Some(2), 20), Err(EngineError::ConcurrentUpdate));
    assert_eq!(check_level(20, None, 20), Err(EngineError::MaxLevel));
    assert_eq!(check_level(21, Some(21), 20), Err(EngineError::MaxLevel));
    assert_eq!(check_level(20, Some(19), 20), Err(EngineError::ConcurrentUpdate));
}

#[test]
fn missed_debit_is_told_apart() {
    assert_eq!(classify_missed_debit(true), EngineError::InsufficientResources);
    assert_eq!(classify_missed_debit(false), EngineError::FortressNotFound);
}

#[test]
fn error_messages_and_retry() {
    assert_eq!(EngineError::FortressMismatch.message(), "fortress id mismatch");
    assert_eq!(EngineError::MaxLevel.message(), "building level is too high");
    assert_eq!(EngineError::InsufficientResources.message(), "insufficient resources");
    assert_eq!(EngineError::BuildingNotFound.message(), "building not found");
    assert_eq!(EngineError::FortressNotFound.message(), "fortress not found");
    assert_eq!(EngineError::ConcurrentUpdate.message(), "concurrent update");
    assert_eq!(EngineError::InvalidArgument.message(), "invalid argument");
    assert_eq!(EngineError::Internal.message(), "internal error");
    assert!(EngineError::ConcurrentUpdate.is_retryable());
    assert!(EngineError::InsufficientResources.is_retryable());
    assert!(!EngineError::MaxLevel.is_retryable());
    assert!(!EngineError::BuildingNotFound.is_retryable());
    assert!(!EngineError::FortressNotFound.is_retryable());
    assert!(!EngineError::FortressMismatch.is_retryable());
    assert!(!EngineError::InvalidArgument.is_retryable());
    assert!(!EngineError::Internal.is_retryable());
}
