use rbxsync::commands::{check_for_duplicates, validate};
use rbxsync::config::{
    BadgeConfig, DeveloperProductConfig, GamePassConfig, RbxSyncConfig, UniverseConfig,
};
use rbxsync::errors::SyncError;

fn universe() -> UniverseConfig {
    UniverseConfig {
        id: 1,
        name: None,
        description: None,
        genre: None,
        playable_devices: None,
        max_players: None,
        private_server_cost: None,
    }
}

fn pass(name: &str) -> GamePassConfig {
    GamePassConfig {
        name: name.to_string(),
        description: None,
        price: None,
        icon: None,
        is_for_sale: None,
    }
}

fn product(name: &str) -> DeveloperProductConfig {
    DeveloperProductConfig {
        name: name.to_string(),
        description: None,
        price: 10,
        icon: None,
        is_active: None,
    }
}

fn badge(name: &str) -> BadgeConfig {
    BadgeConfig {
        name: name.to_string(),
        description: None,
        icon: None,
        is_enabled: None,
    }
}

fn config(
    passes: Vec<GamePassConfig>,
    products: Vec<DeveloperProductConfig>,
    badges: Vec<BadgeConfig>,
) -> RbxSyncConfig {
    RbxSyncConfig {
        assets_dir: "assets".to_string(),
        creator: None,
        universe: universe(),
        game_passes: passes,
        developer_products: products,
        badges,
        places: Vec::new(),
        badge_payment_source: None,
    }
}

#[test]
fn names_differing_only_by_case_are_rejected() {
    let names = vec!["VIP".to_string(), "vip".to_string()];
    let r = check_for_duplicates(&names, "game pass");
    assert!(r.is_err());
}

#[test]
fn distinct_names_are_accepted() {
    let names = vec!["VIP".to_string(), "Starter".to_string(), "Mega Pack".to_string()];
    assert!(check_for_duplicates(&names, "game pass").is_ok());
}

#[test]
fn empty_name_list_is_accepted() {
    let names: Vec<String> = Vec::new();
    assert!(check_for_duplicates(&names, "badge").is_ok());
}

#[test]
fn every_repeat_is_listed_once() {
    let names = vec!["A".to_string(), "a".to_string(), "A".to_string()];
    match check_for_duplicates(&names, "badge") {
        Err(SyncError::DuplicateNames {
            resource_type,
            duplicates,
        }) => {
            assert_eq!(resource_type, "badge");
            assert_eq!(duplicates, vec!["a".to_string(), "A".to_string()]);
        }
        other => panic!("expected a duplicate-name rejection, got {:?}", other),
    }
}

#[test]
fn duplicate_error_message_names_the_kind_and_the_names() {
    let names = vec!["VIP".to_string(), "vip".to_string()];
    let e = check_for_duplicates(&names, "game pass").unwrap_err();
    assert_eq!(
        e.message(),
        "Duplicate game pass names found (names must be unique, case-insensitive): [\"vip\"]"
    );
}

#[test]
fn validate_accepts_distinct_names_within_each_kind() {
    let c = config(
        vec![pass("VIP"), pass("Starter")],
        vec![product("Coins")],
        vec![badge("Winner")],
    );
    assert!(validate(&c).is_ok());
}

#[test]
fn validate_allows_the_same_name_in_different_kinds() {
    let c = config(vec![pass("VIP")], vec![product("VIP")], vec![badge("VIP")]);
    assert!(validate(&c).is_ok());
}

#[test]
fn validate_reports_the_first_offending_kind() {
    let c = config(
        vec![pass("VIP"), pass("vip")],
        vec![product("Coins"), product("coins")],
        vec![badge("Winner")],
    );
    match validate(&c) {
        Err(SyncError::DuplicateNames { resource_type, .. }) => {
            assert_eq!(resource_type, "game pass");
        }
        other => panic!("expected a duplicate-name rejection, got {:?}", other),
    }
}

#[test]
fn validate_checks_developer_products() {
    let c = config(
        vec![pass("VIP")],
        vec![product("Coins"), product("COINS")],
        vec![badge("Winner")],
    );
    match validate(&c) {
        Err(SyncError::DuplicateNames { resource_type, .. }) => {
            assert_eq!(resource_type, "developer product");
        }
        other => panic!("expected a duplicate-name rejection, got {:?}", other),
    }
}

#[test]
fn validate_checks_badges() {
    let c = config(
        vec![pass("VIP")],
        vec![product("Coins")],
        vec![badge("Winner"), badge("wInNeR")],
    );
    match validate(&c) {
        Err(SyncError::DuplicateNames { resource_type, .. }) => {
            assert_eq!(resource_type, "badge");
        }
        other => panic!("expected a duplicate-name rejection, got {:?}", other),
    }
}
