use rbxsync::config::{BadgeConfig, DeveloperProductConfig, GamePassConfig};
use rbxsync::errors::{Kind, SyncError};
use rbxsync::hashing::content_hash;
use rbxsync::reconcile::{
    badge_create_body, badge_create_error, commit_badge, commit_developer_product,
    commit_game_pass, game_pass_create_body, game_pass_patch_body, payment_source_type_id,
    plan_badge, plan_developer_product, plan_game_pass, require_created_id, Action, ChangedField,
    IconPlan,
};
use rbxsync::remote::RemoteEntry;
use rbxsync::state::SyncState;

fn vip_pass() -> GamePassConfig {
    GamePassConfig {
        name: "VIP".to_string(),
        description: None,
        price: Some(100),
        icon: Some("vip.png".to_string()),
        is_for_sale: None,
    }
}

fn no_remote() -> Vec<RemoteEntry> {
    Vec::new()
}

#[test]
fn first_run_creates_a_declared_pass_with_its_icon() {
    let pass = vip_pass();
    let state = SyncState::default();
    let icon_bytes: Vec<u8> = b"fake png bytes".to_vec();
    let hash = content_hash(&icon_bytes);

    let plan = plan_game_pass(&pass, &state, &no_remote(), Some(hash.clone()), true, false)
        .expect("planning must succeed with a creator configured");
    assert_eq!(plan.action, Action::Create);
    assert_eq!(plan.icon, IconPlan::Upload);
    assert_eq!(plan.changes, vec![ChangedField::Icon]);

    // The gateway returns an asset id for the upload and an id for the create.
    let uploaded_asset: u64 = 777;
    let body = game_pass_create_body(&pass, Some(uploaded_asset));
    assert_eq!(body.name, "VIP");
    assert_eq!(body.price, 100);
    assert_eq!(body.description, "");
    assert_eq!(body.icon_asset_id, Some(uploaded_asset));

    let created_id = require_created_id(Kind::GamePass, Some(4242)).unwrap();
    let mut state = state;
    commit_game_pass(
        &mut state,
        created_id,
        &pass,
        Some(hash.clone()),
        Some(uploaded_asset),
    );

    assert_eq!(state.game_passes.len(), 1);
    let (id, e) = (&state.game_passes[0].0, &state.game_passes[0].1);
    assert_eq!(*id, 4242);
    assert_eq!(e.name, "VIP");
    assert_eq!(e.price, Some(100));
    assert_eq!(e.icon_hash.as_ref(), Some(&hash));
    assert_eq!(e.icon_asset_id, Some(uploaded_asset));
}

#[test]
fn identical_second_run_skips_without_any_call() {
    let pass = vip_pass();
    let mut state = SyncState::default();
    let icon_bytes: Vec<u8> = b"fake png bytes".to_vec();
    let hash = content_hash(&icon_bytes);
    commit_game_pass(&mut state, 4242, &pass, Some(hash.clone()), Some(777));

    // Unchanged declaration, unchanged bytes: the very same hash comes back.
    let hash_again = content_hash(&icon_bytes);
    let plan = plan_game_pass(&pass, &state, &no_remote(), Some(hash_again), true, false)
        .expect("planning must succeed");
    assert_eq!(plan.action, Action::Skip { id: 4242 });
    assert!(plan.changes.is_empty());
    assert_eq!(plan.icon, IconPlan::Reuse { asset_id: 777 });
}

#[test]
fn case_only_rename_updates_the_ledgered_id() {
    let mut state = SyncState::default();
    let original = GamePassConfig {
        name: "VIP".to_string(),
        description: None,
        price: Some(100),
        icon: None,
        is_for_sale: None,
    };
    commit_game_pass(&mut state, 4242, &original, None, None);

    let renamed = GamePassConfig {
        name: "vip".to_string(),
        ..original
    };
    let plan = plan_game_pass(&renamed, &state, &no_remote(), None, true, false).unwrap();
    assert_eq!(plan.action, Action::Update { id: 4242 });
    assert!(plan.changes.contains(&ChangedField::Name));
}

#[test]
fn a_same_named_listing_entry_is_adopted_not_recreated() {
    let state = SyncState::default();
    let pass = GamePassConfig {
        name: "VIP".to_string(),
        description: None,
        price: Some(100),
        icon: None,
        is_for_sale: None,
    };
    let remote = vec![RemoteEntry {
        name: "vip".to_string(),
        id: 9001,
    }];
    let plan = plan_game_pass(&pass, &state, &remote, None, true, false).unwrap();
    // Adopted: the listing's id is used; nothing was ledgered, so no field
    // diffs exist and the entry is left as it stands.
    assert_eq!(plan.action, Action::Skip { id: 9001 });
}

#[test]
fn dry_run_plans_no_create_and_no_update() {
    let state = SyncState::default();
    let pass = vip_pass();
    let icon_bytes: Vec<u8> = b"fake png bytes".to_vec();
    let hash = content_hash(&icon_bytes);

    let plan = plan_game_pass(&pass, &state, &no_remote(), Some(hash), false, true).unwrap();
    assert_eq!(plan.action, Action::CreateIntent);

    let mut ledgered = SyncState::default();
    commit_game_pass(&mut ledgered, 1, &pass, None, None);
    let other_bytes: Vec<u8> = b"different bytes".to_vec();
    let plan = plan_game_pass(
        &pass,
        &ledgered,
        &no_remote(),
        Some(content_hash(&other_bytes)),
        false,
        true,
    )
    .unwrap();
    assert_eq!(plan.action, Action::UpdateIntent { id: 1 });
}

#[test]
fn a_byte_identical_icon_is_reused_whatever_its_filename() {
    let mut state = SyncState::default();
    let pass = vip_pass();
    let bytes: Vec<u8> = b"pixels".to_vec();
    commit_game_pass(&mut state, 1, &pass, Some(content_hash(&bytes)), Some(555));

    // The same bytes under another name still hash the same.
    let renamed_icon = GamePassConfig {
        icon: Some("vip-renamed.png".to_string()),
        ..vip_pass()
    };
    let plan = plan_game_pass(
        &renamed_icon,
        &state,
        &no_remote(),
        Some(content_hash(&bytes)),
        true,
        false,
    )
    .unwrap();
    assert_eq!(plan.icon, IconPlan::Reuse { asset_id: 555 });
    assert_eq!(plan.action, Action::Skip { id: 1 });
}

#[test]
fn a_single_changed_byte_forces_one_reupload() {
    let mut state = SyncState::default();
    let pass = vip_pass();
    let bytes: Vec<u8> = b"pixels".to_vec();
    commit_game_pass(&mut state, 1, &pass, Some(content_hash(&bytes)), Some(555));

    let mut changed = bytes.clone();
    changed[0] ^= 1;
    let plan = plan_game_pass(
        &pass,
        &state,
        &no_remote(),
        Some(content_hash(&changed)),
        true,
        false,
    )
    .unwrap();
    assert_eq!(plan.icon, IconPlan::Upload);
    assert_eq!(plan.changes, vec![ChangedField::Icon]);
    assert_eq!(plan.action, Action::Update { id: 1 });
}

#[test]
fn an_upload_without_a_creator_is_refused_before_any_call() {
    let state = SyncState::default();
    let pass = vip_pass();
    let bytes: Vec<u8> = b"pixels".to_vec();
    let r = plan_game_pass(&pass, &state, &no_remote(), Some(content_hash(&bytes)), false, false);
    assert!(matches!(r, Err(SyncError::MissingCreator)));
}

#[test]
fn dry_run_pretends_the_upload_and_needs_no_creator() {
    let state = SyncState::default();
    let pass = vip_pass();
    let bytes: Vec<u8> = b"pixels".to_vec();
    let r = plan_game_pass(&pass, &state, &no_remote(), Some(content_hash(&bytes)), false, true);
    assert!(r.is_ok());
}

#[test]
fn product_price_changes_are_detected() {
    let mut state = SyncState::default();
    let coins = DeveloperProductConfig {
        name: "Coins".to_string(),
        description: Some("A pile".to_string()),
        price: 10,
        icon: None,
        is_active: None,
    };
    commit_developer_product(&mut state, 3, &coins, None, None);

    let repriced = DeveloperProductConfig { price: 25, ..coins };
    let plan = plan_developer_product(&repriced, &state, &no_remote(), None, true, false).unwrap();
    assert_eq!(plan.action, Action::Update { id: 3 });
    assert_eq!(plan.changes, vec![ChangedField::Price]);
}

#[test]
fn product_active_flag_changes_are_detected() {
    let mut state = SyncState::default();
    let coins = DeveloperProductConfig {
        name: "Coins".to_string(),
        description: None,
        price: 10,
        icon: None,
        is_active: Some(true),
    };
    commit_developer_product(&mut state, 3, &coins, None, None);
    assert_eq!(state.developer_products[0].1.is_enabled, Some(true));

    let plan = plan_developer_product(&coins, &state, &no_remote(), None, true, false).unwrap();
    assert_eq!(plan.action, Action::Skip { id: 3 });

    let deactivated = DeveloperProductConfig {
        is_active: Some(false),
        ..coins
    };
    let plan = plan_developer_product(&deactivated, &state, &no_remote(), None, true, false)
        .unwrap();
    assert_eq!(plan.action, Action::Update { id: 3 });
    assert_eq!(plan.changes, vec![ChangedField::IsEnabled]);
}

#[test]
fn badge_enabled_flag_changes_are_detected() {
    let mut state = SyncState::default();
    let winner = BadgeConfig {
        name: "Winner".to_string(),
        description: None,
        icon: None,
        is_enabled: Some(true),
    };
    commit_badge(&mut state, 8, &winner, None);

    let disabled = BadgeConfig {
        is_enabled: Some(false),
        ..winner
    };
    let plan = plan_badge(&disabled, &state, &no_remote(), None, false).unwrap();
    assert_eq!(plan.action, Action::Update { id: 8 });
    assert_eq!(plan.changes, vec![ChangedField::IsEnabled]);
}

#[test]
fn badge_icon_changes_by_hash_refresh_the_image() {
    let mut state = SyncState::default();
    let winner = BadgeConfig {
        name: "Winner".to_string(),
        description: None,
        icon: Some("winner.png".to_string()),
        is_enabled: None,
    };
    let bytes: Vec<u8> = b"gold".to_vec();
    commit_badge(&mut state, 8, &winner, Some(content_hash(&bytes)));

    let same = plan_badge(&winner, &state, &no_remote(), Some(content_hash(&bytes)), false)
        .unwrap();
    assert_eq!(same.icon, IconPlan::Unchanged);
    assert_eq!(same.action, Action::Skip { id: 8 });

    let other: Vec<u8> = b"silver".to_vec();
    let changed = plan_badge(&winner, &state, &no_remote(), Some(content_hash(&other)), false)
        .unwrap();
    assert_eq!(changed.icon, IconPlan::Refresh);
    assert_eq!(changed.changes, vec![ChangedField::Icon]);
}

#[test]
fn a_create_response_without_an_id_is_an_error() {
    let e = require_created_id(Kind::GamePass, None).unwrap_err();
    assert_eq!(e.message(), "Created game pass has no ID");
    let e = require_created_id(Kind::DeveloperProduct, None).unwrap_err();
    assert_eq!(e.message(), "Created product has no ID");
    let e = require_created_id(Kind::Badge, None).unwrap_err();
    assert_eq!(e.message(), "Created badge has no ID");
}

#[test]
fn the_payment_source_rejection_is_recognized() {
    let raw = "API request failed: 403 - Payment source is invalid.".to_string();
    assert!(matches!(
        badge_create_error(&raw),
        SyncError::BadgePaymentSourceRequired
    ));
    let coded = "{\"errors\":[{\"code\":16}]}".to_string();
    assert!(matches!(
        badge_create_error(&coded),
        SyncError::BadgePaymentSourceRequired
    ));
    let other = "API request failed: 500 - oops".to_string();
    match badge_create_error(&other) {
        SyncError::Remote { message } => assert_eq!(message, other),
        e => panic!("expected a pass-through, got {:?}", e),
    }
}

#[test]
fn payment_sources_map_to_their_wire_codes() {
    assert_eq!(payment_source_type_id(&"user".to_string()), "1");
    assert_eq!(payment_source_type_id(&"User".to_string()), "1");
    assert_eq!(payment_source_type_id(&"GROUP".to_string()), "2");
    assert_eq!(payment_source_type_id(&"anything".to_string()), "1");
}

#[test]
fn badge_create_body_carries_the_payment_code() {
    let winner = BadgeConfig {
        name: "Winner".to_string(),
        description: None,
        icon: None,
        is_enabled: None,
    };
    let b = badge_create_body(&winner, &Some("group".to_string()));
    assert_eq!(b.name, "Winner");
    assert_eq!(b.description, "");
    assert_eq!(b.payment_source_type.as_deref(), Some("2"));
    let b = badge_create_body(&winner, &None);
    assert!(b.payment_source_type.is_none());
}

#[test]
fn patch_bodies_send_only_declared_fields() {
    let pass = GamePassConfig {
        name: "VIP".to_string(),
        description: Some("The best".to_string()),
        price: None,
        icon: None,
        is_for_sale: Some(true),
    };
    let b = game_pass_patch_body(&pass);
    assert_eq!(b.name, "VIP");
    assert_eq!(b.description.as_deref(), Some("The best"));
    assert!(b.price.is_none());
    assert_eq!(b.is_for_sale, Some(true));
    assert!(b.is_enabled.is_none());
}
