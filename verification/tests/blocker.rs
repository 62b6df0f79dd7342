use keetanetwork_anchor_client::blocker::{
    account_status_json, AccountStatus, AssetMovementBlocker, ADDITIONAL_KYC_NEEDED,
    KYC_SHARE_NEEDED, OPERATION_NOT_SUPPORTED, USER_ACTION_NEEDED,
};
use keetanetwork_anchor_client::json::Json;
use keetanetwork_anchor_client::table::NameTable;

fn read(text: &str) -> Json {
    Json::from_slice(text.as_bytes()).unwrap()
}

fn coded_entry(code: &str, data: &str) -> Json {
    read(&format!(r#"{{"code":"{}","name":"n","error":"e","data":{}}}"#, code, data))
}

#[test]
fn a_kyc_share_blocker_rehydrates_its_principals_and_attributes() {
    let entry = read(&format!(
        r#"{{
            "ok": false,
            "name": "KeetaAssetMovementAnchorKYCShareNeededError",
            "code": "{}",
            "data": {{
                "tosFlow": null,
                "neededAttributes": ["fullName", "dateOfBirth"],
                "shareWithPrincipals": ["keeta_principal"],
                "acceptedIssuers": [[{{ "name": "issuer", "value": "keeta_ca" }}]]
            }},
            "error": "share needed"
        }}"#,
        KYC_SHARE_NEEDED
    ));

    let blocker = AssetMovementBlocker::from_transport(&entry);
    assert_eq!(
        blocker,
        AssetMovementBlocker::KycShareNeeded {
            tos_flow: None,
            needed_attributes: Some(vec!["fullName".to_string(), "dateOfBirth".to_string()]),
            share_with_principals: vec!["keeta_principal".to_string()],
            accepted_issuers: read(r#"[[{ "name": "issuer", "value": "keeta_ca" }]]"#),
        }
    );
}

#[test]
fn an_operation_not_supported_blocker_reads_asset_and_rail() {
    let entry =
        coded_entry(OPERATION_NOT_SUPPORTED, r#"{ "forAsset": "USD", "forRail": "KEETA_SEND" }"#);

    let blocker = AssetMovementBlocker::from_transport(&entry);
    assert_eq!(
        blocker,
        AssetMovementBlocker::OperationNotSupported {
            for_asset: Some(read(r#""USD""#)),
            for_rail: Some("KEETA_SEND".to_string()),
        }
    );
}

#[test]
fn an_unknown_error_is_kept_verbatim() {
    let entry = read(r#"{ "name": "SomeError", "code": "SOMETHING_ELSE", "error": "boom" }"#);
    let blocker = AssetMovementBlocker::from_transport(&entry);
    assert_eq!(
        blocker,
        AssetMovementBlocker::Other {
            name: "SomeError".to_string(),
            code: Some("SOMETHING_ELSE".to_string()),
            message: "boom".to_string(),
        }
    );
}

#[test]
fn missing_data_leaves_a_share_blocker_empty() {
    let entry = read(&format!(r#"{{"code":"{}"}}"#, KYC_SHARE_NEEDED));
    assert_eq!(
        AssetMovementBlocker::from_transport(&entry),
        AssetMovementBlocker::KycShareNeeded {
            tos_flow: None,
            needed_attributes: None,
            share_with_principals: Vec::new(),
            accepted_issuers: Json::Null,
        }
    );
}

#[test]
fn only_strings_count_among_names() {
    let entry = coded_entry(
        KYC_SHARE_NEEDED,
        r#"{"tosFlow":{"u":1},"neededAttributes":["a",1,null,"b"],"shareWithPrincipals":[["x"],"p"]}"#,
    );
    assert_eq!(
        AssetMovementBlocker::from_transport(&entry),
        AssetMovementBlocker::KycShareNeeded {
            tos_flow: Some(read(r#"{"u":1}"#)),
            needed_attributes: Some(vec!["a".to_string(), "b".to_string()]),
            share_with_principals: vec!["p".to_string()],
            accepted_issuers: Json::Null,
        }
    );
}

#[test]
fn fields_of_another_shape_are_absent() {
    let entry = coded_entry(KYC_SHARE_NEEDED, r#"{"neededAttributes":"a","shareWithPrincipals":"p"}"#);
    match AssetMovementBlocker::from_transport(&entry) {
        AssetMovementBlocker::KycShareNeeded { needed_attributes, share_with_principals, .. } => {
            assert_eq!(needed_attributes, None);
            assert!(share_with_principals.is_empty());
        }
        other => panic!("{:?}", other),
    }
    let entry = coded_entry(OPERATION_NOT_SUPPORTED, r#"{"forAsset":null,"forRail":5}"#);
    assert_eq!(
        AssetMovementBlocker::from_transport(&entry),
        AssetMovementBlocker::OperationNotSupported { for_asset: None, for_rail: None }
    );
    let entry = coded_entry(USER_ACTION_NEEDED, r#"{"actionsNeeded":{}}"#);
    assert_eq!(
        AssetMovementBlocker::from_transport(&entry),
        AssetMovementBlocker::UserActionNeeded { actions_needed: Vec::new() }
    );
    let entry = coded_entry(ADDITIONAL_KYC_NEEDED, "[]");
    assert_eq!(
        AssetMovementBlocker::from_transport(&entry),
        AssetMovementBlocker::AdditionalKycNeeded { to_complete_flow: None }
    );
}

#[test]
fn an_error_that_says_nothing_is_empty() {
    for text in ["{}", "[]", "null", r#"{"code":7,"name":1,"error":[]}"#] {
        assert_eq!(
            AssetMovementBlocker::from_transport(&read(text)),
            AssetMovementBlocker::Other {
                name: String::new(),
                code: None,
                message: String::new(),
            }
        );
    }
}

#[test]
fn of_two_members_with_one_name_the_later_counts() {
    let entry = read(r#"{"code":"A","code":"B"}"#);
    assert_eq!(entry.get("code").and_then(Json::as_str), Some("B"));
    let made = Json::Object(NameTable::from_entries(vec![
        ("code".to_string(), Json::String("A".to_string())),
        ("code".to_string(), Json::String("B".to_string())),
    ]));
    assert_eq!(made.get("code").and_then(Json::as_str), Some("B"));
    assert_eq!(made.to_text().unwrap(), r#"{"code":"B"}"#);
}

#[test]
fn known_codes_are_recognized_and_kept() {
    let codes =
        [KYC_SHARE_NEEDED, ADDITIONAL_KYC_NEEDED, OPERATION_NOT_SUPPORTED, USER_ACTION_NEEDED];
    for code in codes {
        let blocker = AssetMovementBlocker::from_transport(&coded_entry(code, "{}"));
        assert!(blocker.is_recognized());
        assert_eq!(blocker.static_transport_code(), Some(code));
    }
    let other = AssetMovementBlocker::from_transport(&coded_entry("KEETA_ANCHOR", "{}"));
    assert!(!other.is_recognized());
    assert_eq!(other.static_transport_code(), None);
}

#[test]
fn each_blocker_has_its_own_json() {
    let share = AssetMovementBlocker::KycShareNeeded {
        tos_flow: None,
        needed_attributes: Some(vec!["a".to_string()]),
        share_with_principals: vec!["p".to_string()],
        accepted_issuers: read("[]"),
    };
    assert_eq!(
        share.to_json(),
        read(
            r#"{"type":"kycShareNeeded","tosFlow":null,"neededAttributes":["a"],"shareWithPrincipals":["p"],"acceptedIssuers":[]}"#
        )
    );
    let flow = AssetMovementBlocker::AdditionalKycNeeded { to_complete_flow: Some(read("{}")) };
    assert_eq!(flow.to_json(), read(r#"{"type":"additionalKycNeeded","toCompleteFlow":{}}"#));
    let rail = AssetMovementBlocker::OperationNotSupported {
        for_asset: Some(read("3")),
        for_rail: Some("R".to_string()),
    };
    assert_eq!(
        rail.to_json(),
        read(r#"{"type":"operationNotSupported","forAsset":3,"forRail":"R"}"#)
    );
    let action = AssetMovementBlocker::UserActionNeeded { actions_needed: vec![read("true")] };
    assert_eq!(action.to_json(), read(r#"{"type":"userActionNeeded","actionsNeeded":[true]}"#));
    let other = AssetMovementBlocker::Other {
        name: "N".to_string(),
        code: None,
        message: "m".to_string(),
    };
    assert_eq!(
        other.to_json(),
        read(r#"{"type":"other","name":"N","code":null,"message":"m"}"#)
    );
}

#[test]
fn absent_and_null_flows_have_one_json() {
    let absent = AssetMovementBlocker::AdditionalKycNeeded { to_complete_flow: None };
    let null = AssetMovementBlocker::AdditionalKycNeeded { to_complete_flow: Some(Json::Null) };
    assert_eq!(absent.to_json(), null.to_json());
    let entry = coded_entry(ADDITIONAL_KYC_NEEDED, r#"{"toCompleteFlow":null}"#);
    assert_eq!(AssetMovementBlocker::from_transport(&entry), absent);
}

#[test]
fn an_account_status_lists_its_blockers() {
    assert_eq!(account_status_json(&AccountStatus::Ready), read(r#"{"actionRequired":false}"#));
    let blocked = AccountStatus::ActionRequired {
        blockers: vec![
            AssetMovementBlocker::AdditionalKycNeeded { to_complete_flow: None },
            AssetMovementBlocker::UserActionNeeded { actions_needed: Vec::new() },
        ],
    };
    assert_eq!(
        account_status_json(&blocked),
        read(
            r#"{"actionRequired":true,"blockers":[{"type":"additionalKycNeeded","toCompleteFlow":null},{"type":"userActionNeeded","actionsNeeded":[]}]}"#
        )
    );
}

#[test]
fn a_recognized_blocker_comes_back_from_its_json() {
    let blockers = vec![
        AssetMovementBlocker::KycShareNeeded {
            tos_flow: Some(read("{}")),
            needed_attributes: Some(vec!["a".to_string(), "b".to_string()]),
            share_with_principals: vec!["p".to_string()],
            accepted_issuers: read("[[]]"),
        },
        AssetMovementBlocker::AdditionalKycNeeded { to_complete_flow: Some(read("1")) },
        AssetMovementBlocker::OperationNotSupported {
            for_asset: None,
            for_rail: Some("R".to_string()),
        },
        AssetMovementBlocker::UserActionNeeded { actions_needed: vec![read("null"), read("2")] },
    ];
    for blocker in blockers {
        let code = blocker.static_transport_code().unwrap();
        let data = blocker.to_json().to_text().unwrap();
        assert_eq!(AssetMovementBlocker::from_transport(&coded_entry(code, &data)), blocker);
    }
}
