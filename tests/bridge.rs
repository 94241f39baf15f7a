use tauri_plugin_iap::{
    complete, init, Command, Error, GetProductDetailsRequest, GetProductDetailsResponse, Iap,
    LaunchPurchaseFlowRequest, LaunchPurchaseFlowResponse, NativeCall, NativeMethod, PingRequest,
    PingResponse, Platform, PricingPhase, PricingPhases, ProductDetails, Purchase,
    QueryPurchasesRequest, QueryPurchasesResponse, SubscriptionOfferDetails,
};

// A plugin that echoes a ping, as the native side does.
fn echo(call: &NativeCall) -> Result<PingResponse, String> {
    match call {
        NativeCall::Ping(req) => Ok(PingResponse { value: req.value.clone() }),
        _ => Err("not a ping".to_string()),
    }
}

fn sample_product() -> ProductDetails {
    ProductDetails {
        description: "Monthly access".to_string(),
        name: "Pro".to_string(),
        product_id: "pro_monthly".to_string(),
        product_type: "subs".to_string(),
        title: "Pro (App)".to_string(),
        subscription_offer_details: Some(vec![SubscriptionOfferDetails {
            base_plan_id: "monthly".to_string(),
            installment_plan_details: None,
            offer_id: None,
            offer_tags: vec![],
            offer_token: "tok".to_string(),
            pricing_phases: PricingPhases {
                pricing_phase_list: vec![PricingPhase {
                    billing_cycle_count: 0,
                    billing_period: "P1M".to_string(),
                    formatted_price: "$4.99".to_string(),
                    price_amount_micros: 4_990_000,
                    price_currency_code: "USD".to_string(),
                    recurrence_mode: 1,
                }],
            },
        }]),
    }
}

#[test]
fn ping_echoes_value() {
    let iap = Iap::registered(Platform::Android);
    let call = iap.ping(PingRequest { value: Some("abc".to_string()) }).unwrap();
    assert_eq!(call.method(), NativeMethod::Ping);
    let resp = complete(echo(&call)).unwrap();
    assert_eq!(resp.value, Some("abc".to_string()));
}

#[test]
fn ping_without_value_echoes_none() {
    let iap = Iap::registered(Platform::Ios);
    let call = iap.ping(PingRequest { value: None }).unwrap();
    let resp = complete(echo(&call)).unwrap();
    assert_eq!(resp.value, None);
}

#[test]
fn launch_purchase_flow_codes_are_not_errors() {
    let iap = Iap::registered(Platform::Android);
    for code in [0, 6] {
        let req = LaunchPurchaseFlowRequest {
            product_id: "pro_monthly".to_string(),
            offer_token: "tok".to_string(),
        };
        let call = iap.launch_purchase_flow(req.clone()).unwrap();
        assert_eq!(call, NativeCall::LaunchPurchaseFlow(req));
        assert_eq!(call.method(), NativeMethod::LaunchPurchaseFlow);
        let resp = complete(Ok::<_, String>(LaunchPurchaseFlowResponse { response_code: code }));
        assert_eq!(resp, Ok(LaunchPurchaseFlowResponse { response_code: code }));
    }
}

#[test]
fn unavailable_plugin_fails_every_operation() {
    let iap = Iap::unavailable();
    assert_eq!(iap.platform(), None);
    let r = iap.get_product_details(GetProductDetailsRequest { product_id: "x".to_string() });
    assert_eq!(r, Err(Error::NativeUnavailable));
    let r = iap.launch_purchase_flow(LaunchPurchaseFlowRequest::default());
    assert_eq!(r, Err(Error::NativeUnavailable));
    let r = iap.query_purchases(QueryPurchasesRequest {});
    assert_eq!(r, Err(Error::NativeUnavailable));
    let r = iap.ping(PingRequest { value: Some("abc".to_string()) });
    assert_eq!(r, Err(Error::NativeUnavailable));
}

#[test]
fn shared_handle_serves_two_callers_independently() {
    let iap = Iap::registered(Platform::Android);
    let query = iap.query_purchases(QueryPurchasesRequest {}).unwrap();
    let details = iap
        .get_product_details(GetProductDetailsRequest { product_id: "pro_monthly".to_string() })
        .unwrap();
    // the first call is unchanged by the second
    assert_eq!(query, NativeCall::QueryPurchases(QueryPurchasesRequest {}));
    assert_eq!(
        details,
        NativeCall::GetProductDetails(GetProductDetailsRequest { product_id: "pro_monthly".to_string() })
    );
    assert_eq!(query.method().name(), "queryPurchases");
    assert_eq!(details.method().name(), "getProductDetails");
    let purchases = complete(Ok::<_, String>(QueryPurchasesResponse {
        purchases: vec![Purchase { order_id: "GPA.1".to_string(), quantity: 1, ..Default::default() }],
    }))
    .unwrap();
    let products = complete(Ok::<_, String>(GetProductDetailsResponse {
        product_details: vec![sample_product()],
    }))
    .unwrap();
    assert_eq!(purchases.purchases.len(), 1);
    assert_eq!(purchases.purchases[0].order_id, "GPA.1");
    assert_eq!(products.product_details, vec![sample_product()]);
    assert_eq!(iap.platform(), Some(Platform::Android));
}

#[test]
fn product_details_pass_through_unchanged() {
    let reply = GetProductDetailsResponse { product_details: vec![sample_product()] };
    let resp = complete(Ok::<_, String>(reply.clone())).unwrap();
    assert_eq!(resp, reply);
    let offer = &resp.product_details[0].subscription_offer_details.as_ref().unwrap()[0];
    assert!(offer.offer_tags.is_empty());
    assert_eq!(offer.pricing_phases.pricing_phase_list[0].price_amount_micros, 4_990_000);
}

#[test]
fn empty_product_list_is_success() {
    let resp = complete(Ok::<_, String>(GetProductDetailsResponse::default())).unwrap();
    assert!(resp.product_details.is_empty());
}

#[test]
fn native_failure_is_passed_on() {
    let r = complete::<GetProductDetailsResponse>(Err("billing unavailable".to_string()));
    assert_eq!(r, Err(Error::NativeFailed("billing unavailable".to_string())));
}

#[test]
fn init_registers_platform() {
    let iap = init(Platform::Ios, Ok(())).unwrap();
    assert_eq!(iap.platform(), Some(Platform::Ios));
    assert!(iap.ping(PingRequest { value: None }).is_ok());
}

#[test]
fn init_passes_registration_failure_on() {
    let r = init(Platform::Android, Err("no plugin class".to_string()));
    assert!(matches!(r, Err(Error::NativeFailed(ref m)) if m == "no plugin class"));
}

#[test]
fn native_method_names() {
    assert_eq!(NativeMethod::GetProductDetails.name(), "getProductDetails");
    assert_eq!(NativeMethod::LaunchPurchaseFlow.name(), "launchPurchaseFlow");
    assert_eq!(NativeMethod::QueryPurchases.name(), "queryPurchases");
    assert_eq!(NativeMethod::Ping.name(), "ping");
}

#[test]
fn command_names_round_trip() {
    for c in [Command::GetProductDetails, Command::LaunchPurchaseFlow, Command::QueryPurchases, Command::Ping] {
        assert_eq!(Command::from_name(c.name()), Some(c));
    }
    assert_eq!(Command::from_name("get_product_details"), Some(Command::GetProductDetails));
    assert_eq!(Command::LaunchPurchaseFlow.native_method(), NativeMethod::LaunchPurchaseFlow);
    assert_eq!(Command::QueryPurchases.native_method(), NativeMethod::QueryPurchases);
}

#[test]
fn unknown_command_name() {
    assert_eq!(Command::from_name("getProductDetails"), None);
    assert_eq!(Command::from_name(""), None);
    assert_eq!(Command::from_name("registerListener"), None);
}
