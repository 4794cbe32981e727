use rbxsync::asset::{
    csrf_decision, mime_for_extension, parse_asset_id, poll_step, upload_outcome, CsrfDecision,
    OperationErrorInfo, OperationStatus, PollStep, UploadHandle, MAX_POLL_ATTEMPTS,
    POLL_INTERVAL_SECS,
};
use rbxsync::errors::SyncError;
use rbxsync::export::{export_lua, export_output_path, ExportRecord};
use rbxsync::remote::{
    degrade_listing_failure, find_remote_by_name, normalize_remote_records, resolve_id, IdValue,
    RemoteEntry, RemoteRecord,
};

#[test]
fn a_numeric_id_field_wins_over_a_textual_one() {
    let cands = vec![
        IdValue::Text("111".to_string()),
        IdValue::Num(222),
    ];
    assert_eq!(resolve_id(&cands), Some(222));
}

#[test]
fn a_textual_id_is_parsed_when_no_numeric_one_exists() {
    let cands = vec![
        IdValue::Text("not a number".to_string()),
        IdValue::Text("333".to_string()),
    ];
    assert_eq!(resolve_id(&cands), Some(333));
    let none: Vec<IdValue> = Vec::new();
    assert_eq!(resolve_id(&none), None);
    let bad = vec![IdValue::Text("abc".to_string())];
    assert_eq!(resolve_id(&bad), None);
}

#[test]
fn listings_normalize_to_named_ids_only() {
    let records = vec![
        RemoteRecord {
            name: Some("VIP".to_string()),
            id_candidates: vec![IdValue::Num(1)],
        },
        RemoteRecord {
            name: None,
            id_candidates: vec![IdValue::Num(2)],
        },
        RemoteRecord {
            name: Some("Ghost".to_string()),
            id_candidates: vec![IdValue::Text("nope".to_string())],
        },
        RemoteRecord {
            name: Some("Starter".to_string()),
            id_candidates: vec![IdValue::Text("4".to_string())],
        },
    ];
    let entries = normalize_remote_records(&records);
    assert_eq!(entries.len(), 2);
    assert_eq!(entries[0].name, "VIP");
    assert_eq!(entries[0].id, 1);
    assert_eq!(entries[1].name, "Starter");
    assert_eq!(entries[1].id, 4);
}

#[test]
fn remote_lookup_is_case_insensitive_and_the_last_entry_wins() {
    let entries = vec![
        RemoteEntry { name: "VIP".to_string(), id: 1 },
        RemoteEntry { name: "vip".to_string(), id: 2 },
    ];
    assert_eq!(find_remote_by_name(&entries, "Vip"), Some(2));
    assert_eq!(find_remote_by_name(&entries, "other"), None);
}

#[test]
fn a_failed_listing_is_deliberately_empty_on_a_dry_run_only() {
    // The degrade is the intended preview behaviour, not an error swallow:
    // a dry run proceeds on an empty listing, a live run aborts.
    let failed: Result<Vec<RemoteRecord>, String> = Err("403 forbidden".to_string());
    match degrade_listing_failure(failed.clone(), true) {
        Ok(records) => assert!(records.is_empty()),
        Err(e) => panic!("a dry run must degrade, got {:?}", e),
    }
    match degrade_listing_failure(failed, false) {
        Err(message) => assert_eq!(message, "403 forbidden"),
        Ok(_) => panic!("a live run must keep the failure"),
    }
    let fetched: Result<Vec<RemoteRecord>, String> = Ok(vec![RemoteRecord {
        name: Some("VIP".to_string()),
        id_candidates: vec![IdValue::Num(1)],
    }]);
    let passed = degrade_listing_failure(fetched, true).unwrap();
    assert_eq!(passed.len(), 1);
    assert_eq!(passed[0].name.as_deref(), Some("VIP"));
}

#[test]
fn an_already_done_upload_yields_its_asset_id() {
    let status = OperationStatus {
        path: None,
        done: Some(true),
        asset_id: Some("777".to_string()),
        error: None,
    };
    match upload_outcome(&status) {
        Ok(UploadHandle::Ready { asset_id }) => assert_eq!(asset_id, "777"),
        other => panic!("expected a ready handle, got {:?}", other),
    }
}

#[test]
fn a_pending_upload_yields_its_operation_path() {
    let status = OperationStatus {
        path: Some("operations/xyz".to_string()),
        done: Some(false),
        asset_id: None,
        error: None,
    };
    match upload_outcome(&status) {
        Ok(UploadHandle::Pending { path }) => assert_eq!(path, "operations/xyz"),
        other => panic!("expected a pending handle, got {:?}", other),
    }
}

#[test]
fn an_upload_response_without_a_path_is_an_error() {
    let status = OperationStatus {
        path: None,
        done: None,
        asset_id: None,
        error: None,
    };
    let e = upload_outcome(&status).unwrap_err();
    assert_eq!(e.message(), "Operation response missing 'path' field");
}

#[test]
fn polling_completes_fails_or_continues() {
    let pending = OperationStatus {
        path: None,
        done: Some(false),
        asset_id: None,
        error: None,
    };
    assert!(matches!(poll_step(&pending), PollStep::Continue));

    let done = OperationStatus {
        path: None,
        done: Some(true),
        asset_id: Some("99".to_string()),
        error: None,
    };
    match poll_step(&done) {
        PollStep::Complete { asset_id } => assert_eq!(asset_id, "99"),
        other => panic!("expected completion, got {:?}", other),
    }

    let done_without_id = OperationStatus {
        path: None,
        done: Some(true),
        asset_id: None,
        error: None,
    };
    match poll_step(&done_without_id) {
        PollStep::Failed { error } => {
            assert_eq!(error.message(), "Operation completed but no asset ID found")
        }
        other => panic!("expected a failure, got {:?}", other),
    }
}

#[test]
fn a_reported_operation_error_surfaces_its_message() {
    let failed = OperationStatus {
        path: None,
        done: None,
        asset_id: None,
        error: Some(OperationErrorInfo {
            message: Some("moderation rejected the image".to_string()),
        }),
    };
    match poll_step(&failed) {
        PollStep::Failed { error } => assert_eq!(
            error.message(),
            "Asset operation failed: moderation rejected the image"
        ),
        other => panic!("expected a failure, got {:?}", other),
    }

    let silent = OperationStatus {
        path: None,
        done: None,
        asset_id: None,
        error: Some(OperationErrorInfo { message: None }),
    };
    match poll_step(&silent) {
        PollStep::Failed { error } => {
            assert_eq!(error.message(), "Asset operation failed: Unknown error")
        }
        other => panic!("expected a failure, got {:?}", other),
    }
}

#[test]
fn polling_limits_are_fixed() {
    assert_eq!(MAX_POLL_ATTEMPTS, 30);
    assert_eq!(POLL_INTERVAL_SECS, 2);
    assert_eq!(
        SyncError::AssetOperationTimedOut.message(),
        "Operation polling timed out after 30 attempts"
    );
}

#[test]
fn asset_ids_parse_from_decimal_text() {
    assert_eq!(parse_asset_id(&"777".to_string()).unwrap(), 777);
    let e = parse_asset_id(&"abc".to_string()).unwrap_err();
    assert_eq!(e.message(), "invalid asset id: 'abc'");
}

#[test]
fn icon_extensions_map_to_mime_types() {
    assert_eq!(mime_for_extension(&"png".to_string()), "image/png");
    assert_eq!(mime_for_extension(&"jpg".to_string()), "image/jpeg");
    assert_eq!(mime_for_extension(&"jpeg".to_string()), "image/jpeg");
    assert_eq!(mime_for_extension(&"bmp".to_string()), "image/bmp");
    assert_eq!(mime_for_extension(&"tga".to_string()), "image/tga");
    assert_eq!(mime_for_extension(&"gif".to_string()), "image/png");
}

#[test]
fn a_forbidden_answer_with_a_token_is_retried_exactly_once() {
    match csrf_decision(403, &Some("tok".to_string()), false) {
        CsrfDecision::RetryWithToken { token } => assert_eq!(token, "tok"),
        other => panic!("expected a retry, got {:?}", other),
    }
    assert!(matches!(
        csrf_decision(403, &Some("tok".to_string()), true),
        CsrfDecision::Done
    ));
    assert!(matches!(csrf_decision(403, &None, false), CsrfDecision::Done));
    assert!(matches!(
        csrf_decision(200, &Some("tok".to_string()), false),
        CsrfDecision::Done
    ));
    assert!(matches!(csrf_decision(500, &None, false), CsrfDecision::Done));
}

#[test]
fn the_export_renders_the_three_sections() {
    let passes = vec![ExportRecord {
        name: Some("VIP".to_string()),
        id: Some(1),
        price: Some(100),
    }];
    let products = vec![ExportRecord {
        name: Some("Coins".to_string()),
        id: Some(2),
        price: None,
    }];
    let badges = vec![ExportRecord {
        name: Some("Winner".to_string()),
        id: Some(3),
        // A badge price is never printed, even if a listing carried one.
        price: Some(999),
    }];
    let lua = export_lua(&passes, &products, &badges);
    let expected = "return {\n  game_passes = {\n    {\n      name = \"VIP\",\n      id = 1,\n      price = 100,\n    },\n  },\n  developer_products = {\n    {\n      name = \"Coins\",\n      id = 2,\n    },\n  },\n  badges = {\n    {\n      name = \"Winner\",\n      id = 3,\n    },\n  },\n}\n";
    assert_eq!(lua, expected);
}

#[test]
fn the_export_path_defaults_by_format() {
    assert_eq!(export_output_path(None, false), "config.luau");
    assert_eq!(export_output_path(None, true), "config.lua");
    assert_eq!(
        export_output_path(Some("out.luau".to_string()), true),
        "out.luau"
    );
}
