use keetanetwork_anchor_client::coded::CodedError;
use keetanetwork_anchor_client::error::AnchorClientError;
use keetanetwork_anchor_client::json::Json;
use keetanetwork_anchor_client::provider::{
    accepts, encode_provider, encode_providers, filter_providers, parse_provider,
    AssetMovementProvider, AuthDto, EndpointAuth, EndpointDto, OperationEndpoint, ProviderDto,
    ProviderFilter,
};
use keetanetwork_anchor_client::session::{
    account_status, await_options, lookup, provider_one, providers, providers_for_transfer,
    with_session, AwaitOptions,
};
use keetanetwork_anchor_client::blocker::AccountStatus;
use keetanetwork_anchor_client::table::NameTable;

fn provider(id: &str, account: Option<&str>) -> AssetMovementProvider {
    AssetMovementProvider {
        id: id.to_string(),
        operations: NameTable::new()
            .insert(
                "simulateTransfer".to_string(),
                OperationEndpoint {
                    url: "https://a.test/{id}".to_string(),
                    auth: EndpointAuth::Required,
                },
            )
            .insert(
                "getStatus".to_string(),
                OperationEndpoint { url: "https://a.test/s".to_string(), auth: EndpointAuth::NoAuth },
            ),
        supported_assets: vec![Json::String("USD".to_string())],
        location_metadata: None,
        legal: Some(Json::Null),
        account: account.map(str::to_string),
    }
}

fn document(id: &str, account: Option<&str>) -> ProviderDto {
    ProviderDto {
        id: id.to_string(),
        operations: NameTable::new()
            .insert(
                "getStatus".to_string(),
                EndpointDto { url: "https://a.test/s".to_string(), auth: AuthDto::NoAuth },
            )
            .insert(
                "simulateTransfer".to_string(),
                EndpointDto { url: "https://a.test/{id}".to_string(), auth: AuthDto::Required },
            ),
        supported_assets: vec![Json::String("USD".to_string())],
        location_metadata: None,
        legal: Some(Json::Null),
        account: account.map(str::to_string),
    }
}

fn ids(providers: &[ProviderDto]) -> Vec<&str> {
    providers.iter().map(|provider| provider.id.as_str()).collect()
}

fn three() -> Vec<AssetMovementProvider> {
    vec![provider("a", Some("k1")), provider("b", None), provider("c", Some("k1"))]
}

fn missing() -> CodedError {
    CodedError::new("INVALID_HANDLE", "unknown asset-movement-client handle")
}

#[test]
fn a_provider_and_its_document_say_the_same() {
    assert_eq!(ProviderDto::from(provider("a", Some("k"))), document("a", Some("k")));
    assert_eq!(AssetMovementProvider::from(document("a", None)), provider("a", None));
    assert_eq!(parse_provider(Ok(document("z", None))), Ok(provider("z", None)));
}

#[test]
fn a_provider_survives_the_round_trip() {
    let back = AssetMovementProvider::from(ProviderDto::from(provider("a", Some("k"))));
    assert_eq!(back, provider("a", Some("k")));
    let again = ProviderDto::from(AssetMovementProvider::from(document("b", None)));
    assert_eq!(again, document("b", None));
}

#[test]
fn authentication_keeps_its_meaning() {
    let pairs = [
        (EndpointAuth::NoAuth, AuthDto::NoAuth),
        (EndpointAuth::Optional, AuthDto::Optional),
        (EndpointAuth::Required, AuthDto::Required),
    ];
    for (auth, dto) in pairs {
        assert_eq!(AuthDto::from(auth), dto);
        assert_eq!(EndpointAuth::from(dto), auth);
    }
}

#[test]
fn an_unreadable_provider_is_an_invalid_input() {
    let reason = serde_json::from_slice::<serde_json::Value>(b"").unwrap_err();
    let message = reason.to_string();
    let error = parse_provider(Err(reason)).unwrap_err();
    assert_eq!(error, CodedError { code: "INVALID_INPUT".to_string(), message });
}

#[test]
fn a_filter_narrows_by_id_and_account() {
    let by_id = ProviderFilter::by_id("a".to_string());
    assert!(accepts(&by_id, &provider("a", None)));
    assert!(!accepts(&by_id, &provider("aa", None)));
    let by_account = ProviderFilter::by_account("k1".to_string());
    assert!(accepts(&by_account, &provider("x", Some("k1"))));
    assert!(!accepts(&by_account, &provider("x", Some("k2"))));
    assert!(!accepts(&by_account, &provider("x", None)));
    let both = ProviderFilter { id: Some("a".to_string()), account: Some("k1".to_string()) };
    assert!(accepts(&both, &provider("a", Some("k1"))));
    assert!(!accepts(&both, &provider("b", Some("k1"))));
    assert!(!accepts(&both, &provider("a", None)));
}

#[test]
fn filtering_keeps_the_passing_in_order_and_no_more_the_second_time() {
    let filter = ProviderFilter::by_account("k1".to_string());
    let once = filter_providers(three(), &filter);
    assert_eq!(once, vec![provider("a", Some("k1")), provider("c", Some("k1"))]);
    let twice = filter_providers(filter_providers(three(), &filter), &filter);
    assert_eq!(twice, once);
    assert_eq!(filter_providers(three(), &ProviderFilter::default()), three());
}

#[test]
fn providers_are_encoded_one_by_one() {
    assert_eq!(ids(&encode_providers(three())), ["a", "b", "c"]);
    assert_eq!(encode_providers(Vec::new()), Vec::new());
    assert_eq!(encode_provider(Some(provider("a", None))), Some(document("a", None)));
    assert_eq!(encode_provider(None), None);
}

#[test]
fn discovery_answers_with_the_matching_providers() {
    let all = providers(Ok(Ok(three())), &ProviderFilter::default()).unwrap();
    assert_eq!(ids(&all), ["a", "b", "c"]);
    let signed = providers(Ok(Ok(three())), &ProviderFilter::by_account("k1".to_string())).unwrap();
    assert_eq!(ids(&signed), ["a", "c"]);
    assert_eq!(ids(&providers_for_transfer(Ok(Ok(three()))).unwrap()), ["a", "b", "c"]);
}

#[test]
fn one_provider_is_the_first_that_matches() {
    let first = provider_one(Ok(Ok(three())), &ProviderFilter::by_account("k1".to_string()));
    assert_eq!(first, Ok(Some(document("a", Some("k1")))));
    let none = provider_one(Ok(Ok(three())), &ProviderFilter::by_id("z".to_string()));
    assert_eq!(none, Ok(None));
}

#[test]
fn failures_on_the_way_to_providers_are_coded() {
    let filter = ProviderFilter::default();
    let service = || Ok(Err(AnchorClientError::Service { status: 500 }));
    let told = CodedError::new("SERVICE", "anchor request failed (status 500)");
    assert_eq!(providers(service(), &filter).unwrap_err(), told);
    assert_eq!(providers(Err(missing()), &filter).unwrap_err(), missing());
    assert_eq!(provider_one(service(), &filter).unwrap_err(), told);
    assert_eq!(provider_one(Err(missing()), &filter).unwrap_err(), missing());
    assert_eq!(providers_for_transfer(service()).unwrap_err(), told);
    assert_eq!(providers_for_transfer(Err(missing())).unwrap_err(), missing());
}

#[test]
fn a_lookup_filters_what_was_found() {
    let found = lookup(Ok(three()), &ProviderFilter::by_id("b".to_string())).unwrap();
    assert_eq!(found, vec![provider("b", None)]);
    let failed = lookup(Err(AnchorClientError::Service { status: 500 }), &ProviderFilter::default());
    assert!(matches!(failed, Err(AnchorClientError::Service { status: 500 })));
}

#[test]
fn a_session_call_settles() {
    assert_eq!(with_session(Ok(Ok(4u8))), Ok(4u8));
    assert_eq!(with_session::<u8>(Err(missing())), Err(missing()));
    assert_eq!(
        with_session::<u8>(Ok(Err(AnchorClientError::UnsupportedOperation { operation: "x" }))),
        Err(CodedError::new(
            "UNSUPPORTED_OPERATION",
            "provider does not advertise the `x` operation"
        ))
    );
}

#[test]
fn an_account_status_is_answered_in_json() {
    assert_eq!(
        account_status(Ok(Ok(AccountStatus::Ready))),
        Ok(br#"{"actionRequired":false}"#.to_vec())
    );
    let blocked = AccountStatus::ActionRequired { blockers: Vec::new() };
    assert_eq!(
        account_status(Ok(Ok(blocked))),
        Ok(br#"{"actionRequired":true,"blockers":[]}"#.to_vec())
    );
    assert_eq!(account_status(Err(missing())), Err(missing()));
    let failed = account_status(Ok(Err(AnchorClientError::Service { status: 401 })));
    assert_eq!(failed.unwrap_err().code, "SERVICE");
}

#[test]
fn positive_bounds_override_their_defaults() {
    let defaults = AwaitOptions { interval_ms: 1_000, timeout_ms: 60_000 };
    let options =
        |interval_ms, timeout_ms| AwaitOptions { interval_ms, timeout_ms };
    assert_eq!(await_options(0, 0, defaults), defaults);
    assert_eq!(await_options(-1, i32::MIN, defaults), defaults);
    assert_eq!(await_options(1, 0, defaults), options(1, 60_000));
    assert_eq!(await_options(0, 5, defaults), options(1_000, 5));
    assert_eq!(await_options(i32::MAX, 7, defaults), options(2_147_483_647, 7));
}
