use rbxsync::state::{ResourceState, SyncState};

fn entry(name: &str) -> ResourceState {
    ResourceState {
        name: name.to_string(),
        description: None,
        price: None,
        is_for_sale: None,
        is_enabled: None,
        icon_hash: None,
        icon_asset_id: None,
    }
}

fn empty_state() -> SyncState {
    SyncState::default()
}

#[test]
fn a_missing_ledger_is_all_empty() {
    let s = empty_state();
    assert!(s.universe.is_none());
    assert!(s.game_passes.is_empty());
    assert!(s.developer_products.is_empty());
    assert!(s.badges.is_empty());
}

#[test]
fn find_matches_names_case_insensitively() {
    let mut s = empty_state();
    s.game_passes.push((42, entry("VIP Pass")));
    let hit = s.find_game_pass_by_name("vip pass");
    assert!(hit.is_some());
    let (id, e) = hit.unwrap();
    assert_eq!(id, 42);
    assert_eq!(e.name, "VIP Pass");
}

#[test]
fn find_misses_absent_names() {
    let mut s = empty_state();
    s.game_passes.push((42, entry("VIP Pass")));
    assert!(s.find_game_pass_by_name("Starter").is_none());
}

#[test]
fn each_kind_searches_its_own_map() {
    let mut s = empty_state();
    s.developer_products.push((7, entry("Coins")));
    assert!(s.find_game_pass_by_name("Coins").is_none());
    assert!(s.find_badge_by_name("Coins").is_none());
    assert!(s.find_developer_product_by_name("coins").is_some());
}

#[test]
fn update_replaces_an_entry_wholesale() {
    let mut s = empty_state();
    s.update_game_pass(
        5,
        "VIP".to_string(),
        Some("old".to_string()),
        Some(10),
        Some(true),
        Some("hash-one".to_string()),
        Some(100),
    );
    s.update_game_pass(5, "VIP".to_string(), None, Some(25), None, None, None);
    assert_eq!(s.game_passes.len(), 1);
    let (id, e) = (&s.game_passes[0].0, &s.game_passes[0].1);
    assert_eq!(*id, 5);
    assert_eq!(e.price, Some(25));
    assert!(e.description.is_none());
    assert!(e.icon_hash.is_none());
    assert!(e.icon_asset_id.is_none());
}

#[test]
fn update_appends_a_new_id_and_keeps_others() {
    let mut s = empty_state();
    s.update_developer_product(1, "Coins".to_string(), None, Some(10), None, None, None);
    s.update_developer_product(2, "Gems".to_string(), None, Some(20), None, None, None);
    assert_eq!(s.developer_products.len(), 2);
    assert_eq!(s.developer_products[0].0, 1);
    assert_eq!(s.developer_products[1].0, 2);
    assert_eq!(s.developer_products[1].1.price, Some(20));
}

#[test]
fn badge_update_stores_no_price_and_no_sale_flag() {
    let mut s = empty_state();
    s.update_badge(
        9,
        "Winner".to_string(),
        Some("first".to_string()),
        Some(true),
        Some("h".to_string()),
        None,
    );
    let e = &s.badges[0].1;
    assert!(e.price.is_none());
    assert!(e.is_for_sale.is_none());
    assert_eq!(e.is_enabled, Some(true));
    assert_eq!(e.icon_hash.as_deref(), Some("h"));
    assert!(e.icon_asset_id.is_none());
}

#[test]
fn update_universe_replaces_the_singleton() {
    let mut s = empty_state();
    s.update_universe(Some("My Game".to_string()), None, None, None, None, None);
    s.update_universe(
        Some("My Game".to_string()),
        Some("Now with badges".to_string()),
        None,
        None,
        Some(20),
        Some("50".to_string()),
    );
    let u = s.universe.as_ref().unwrap();
    assert_eq!(u.name.as_deref(), Some("My Game"));
    assert_eq!(u.description.as_deref(), Some("Now with badges"));
    assert_eq!(u.max_players, Some(20));
    assert_eq!(u.private_server_cost.as_deref(), Some("50"));
}

#[test]
fn the_ledger_file_sits_beside_the_project() {
    assert_eq!(SyncState::get_state_path("."), "./rbxsync-lock.yml");
    assert_eq!(
        SyncState::get_state_path("/srv/game"),
        "/srv/game/rbxsync-lock.yml"
    );
}
